//! A checked layer over a handle-based native code-generation backend.
//!
//! The backend itself is reached through raw handles and C calls, which stay
//! outside this crate. What is here is everything that decides: which names
//! may be handed to the backend, how its sentinel values and status codes turn
//! into typed results, the ordered bring-up that precedes engine creation, and
//! the discipline for foreign diagnostic buffers.
pub mod symbol;
pub mod handles;
pub mod bridge;
pub mod engine;
pub mod module;

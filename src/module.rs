//! The answers a module's backend calls give, read as typed results.
//!
//! Lookups answer with a handle that is null when nothing has that name;
//! writing and verifying answer with a status code, zero on success; a
//! verification may also leave a diagnostic buffer, which goes through a
//! [`MessageBridge`].
use vstd::prelude::*;
use crate::bridge::{BridgeState, BufferStep, MessageBridge, buffer_plan};
use crate::handles::{BasicTypeEnum, FunctionValue};

verus! {

/// A function lookup: nothing for a null handle, else that function.
pub fn function_lookup(raw: usize) -> (r: Option<FunctionValue>)
    ensures
        raw == 0 <==> r is None,
        r matches Some(f) ==> f@ == raw,
{
    if raw == 0 {
        None
    } else {
        Some(FunctionValue::new(raw))
    }
}

/// A named-type lookup: nothing for a null handle, else that type.
pub fn type_lookup(raw: usize) -> (r: Option<BasicTypeEnum>)
    ensures
        raw == 0 <==> r is None,
        r matches Some(t) ==> t@ == raw,
{
    if raw == 0 {
        None
    } else {
        Some(BasicTypeEnum::new(raw))
    }
}

/// Whether the bitcode writer succeeded, from its status code.
pub fn bitcode_written(code: i32) -> (r: bool)
    ensures
        r == (code == 0),
{
    code == 0
}

/// Reads a verification: whether the module is well formed, and the bridge
/// for the diagnostic buffer it left, if any. The text is wanted only when
/// verification failed and printing was asked for.
pub fn verify_report(code: i32, message_present: bool, print: bool) -> (r: (bool, MessageBridge))
    ensures
        r.0 == (code == 0),
        r.1@ == (BridgeState {
            present: message_present,
            want_text: print && code != 0,
            done: 0,
            text: None,
        }),
{
    (code == 0, MessageBridge::new(message_present, print && code != 0))
}

/// A verification's diagnostic text is handed out at most once, and exactly
/// when verification failed, printing was asked for and the backend left a
/// buffer; a buffer that was left is disposed of, and after the copy.
pub proof fn lemma_diagnostics_once(code: i32, message_present: bool, print: bool)
    ensures
        ({
            let plan = buffer_plan(message_present, print && code != 0);
            &&& plan.contains(BufferStep::Copy) <==> (message_present && print && code != 0)
            &&& forall|i: int, j: int|
                0 <= i < plan.len() && 0 <= j < plan.len() && plan[i] == BufferStep::Copy
                    && plan[j] == BufferStep::Copy ==> i == j
            &&& message_present <==> plan.contains(BufferStep::Dispose)
            &&& forall|i: int, j: int|
                0 <= i < plan.len() && 0 <= j < plan.len() && plan[i] == BufferStep::Copy
                    && plan[j] == BufferStep::Dispose ==> i < j
        }),
{
    crate::bridge::lemma_dispose_exactly_once(message_present, print && code != 0);
    crate::bridge::lemma_copy_before_dispose(message_present, print && code != 0);
}

} // verus!

//! Foreign diagnostic buffers.
//!
//! A fallible backend call may hand back a heap-allocated message through an
//! out-parameter. Whoever receives one copies its text first, when the text
//! is wanted, and then disposes of the buffer, exactly once. A call that hands
//! back nothing is left alone: disposing of an unset buffer is undefined.
use vstd::prelude::*;

verus! {

/// One thing to do with a received buffer.
#[derive(Clone, Copy, Debug, PartialEq, Eq, Structural)]
pub enum BufferStep {
    /// Read the buffer's text into an owned string.
    Copy,
    /// Give the buffer back to the backend.
    Dispose,
}

/// The steps owed to a buffer, in order: none when the call set no buffer;
/// otherwise a copy, when the text is wanted, and then one disposal.
pub open spec fn buffer_plan(present: bool, want_text: bool) -> Seq<BufferStep> {
    if !present {
        seq![]
    } else if want_text {
        seq![BufferStep::Copy, BufferStep::Dispose]
    } else {
        seq![BufferStep::Dispose]
    }
}

/// Where a bridge stands: what it was given, how many of its steps are done,
/// and the text it copied.
pub struct BridgeState {
    pub present: bool,
    pub want_text: bool,
    pub done: nat,
    pub text: Option<Seq<char>>,
}

/// The step a bridge in state `s` asks for next, if any.
pub open spec fn next_step_of(s: BridgeState) -> Option<BufferStep> {
    let plan = buffer_plan(s.present, s.want_text);
    if s.done < plan.len() {
        Some(plan[s.done as int])
    } else {
        None
    }
}

/// Drives one received buffer through its plan.
pub struct MessageBridge {
    present: bool,
    want_text: bool,
    done: usize,
    text: Option<String>,
}

impl View for MessageBridge {
    type V = BridgeState;

    closed spec fn view(&self) -> BridgeState {
        BridgeState {
            present: self.present,
            want_text: self.want_text,
            done: self.done as nat,
            text: match self.text {
                Some(t) => Some(t@),
                None => None,
            },
        }
    }
}

impl MessageBridge {
    #[verifier::type_invariant]
    spec fn inv(&self) -> bool {
        &&& self.done <= buffer_plan(self.present, self.want_text).len()
        &&& (self.text is Some <==> (self.present && self.want_text && self.done >= 1))
    }

    /// Starts a bridge for a call that did (`present`) or did not set a buffer.
    pub fn new(present: bool, want_text: bool) -> (b: MessageBridge)
        ensures
            b@ == (BridgeState { present, want_text, done: 0, text: None }),
    {
        MessageBridge { present, want_text, done: 0, text: None }
    }

    pub fn next_step(&self) -> (r: Option<BufferStep>)
        ensures
            r == next_step_of(self@),
    {
        proof {
            use_type_invariant(self);
        }
        if !self.present {
            None
        } else if self.want_text {
            if self.done == 0 {
                Some(BufferStep::Copy)
            } else if self.done == 1 {
                Some(BufferStep::Dispose)
            } else {
                None
            }
        } else if self.done == 0 {
            Some(BufferStep::Dispose)
        } else {
            None
        }
    }

    /// Records the text read from the buffer.
    pub fn copied(&mut self, text: String)
        requires
            next_step_of(old(self)@) == Some(BufferStep::Copy),
        ensures
            final(self)@ == (BridgeState { done: old(self)@.done + 1, text: Some(text@), ..old(self)@ }),
    {
        proof {
            use_type_invariant(&*self);
        }
        *self = MessageBridge {
            present: self.present,
            want_text: self.want_text,
            done: self.done + 1,
            text: Some(text),
        };
    }

    /// Records that the buffer was given back.
    pub fn disposed(&mut self)
        requires
            next_step_of(old(self)@) == Some(BufferStep::Dispose),
        ensures
            final(self)@ == (BridgeState { done: old(self)@.done + 1, ..old(self)@ }),
    {
        proof {
            use_type_invariant(&*self);
        }
        self.done = self.done + 1;
    }

    /// The copied text, once every step is done.
    pub fn into_text(self) -> (r: Option<String>)
        requires
            next_step_of(self@) is None,
        ensures
            self@.present && self@.want_text ==> r is Some && r->0@ == self@.text->0,
            !(self@.present && self@.want_text) ==> r is None,
    {
        proof {
            use_type_invariant(&self);
        }
        self.text
    }
}

/// A buffer is disposed of at most once, and only when the call set one;
/// when it was set, it is disposed of.
pub proof fn lemma_dispose_exactly_once(present: bool, want_text: bool)
    ensures
        forall|i: int, j: int|
            0 <= i < buffer_plan(present, want_text).len() && 0 <= j < buffer_plan(present, want_text).len()
                && buffer_plan(present, want_text)[i] == BufferStep::Dispose
                && buffer_plan(present, want_text)[j] == BufferStep::Dispose ==> i == j,
        present <==> buffer_plan(present, want_text).contains(BufferStep::Dispose),
{
    let plan = buffer_plan(present, want_text);
    if present {
        assert(plan[plan.len() - 1] == BufferStep::Dispose);
    }
}

/// The text is copied before the buffer is disposed of, never after, and it
/// is copied exactly when it is wanted.
pub proof fn lemma_copy_before_dispose(present: bool, want_text: bool)
    ensures
        forall|i: int, j: int|
            0 <= i < buffer_plan(present, want_text).len() && 0 <= j < buffer_plan(present, want_text).len()
                && buffer_plan(present, want_text)[i] == BufferStep::Copy
                && buffer_plan(present, want_text)[j] == BufferStep::Dispose ==> i < j,
        (present && want_text) <==> buffer_plan(present, want_text).contains(BufferStep::Copy),
{
    let plan = buffer_plan(present, want_text);
    if present && want_text {
        assert(plan[0] == BufferStep::Copy);
    }
}

} // verus!

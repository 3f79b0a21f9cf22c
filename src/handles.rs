//! Owned and borrowed wrappers around the backend's handles.
//!
//! A handle is held as the address the backend gave for it, which is never
//! zero: a zero address is the backend's "nothing" and never becomes a
//! wrapper. None of these types can be duplicated by this crate; a `Module`
//! in particular has exactly one owner, and giving it to an engine consumes it.
use vstd::prelude::*;
use crate::symbol::{is_plain_name, terminated, c_name_bytes};

verus! {

/// The backend module, owned by the enclosing context until an engine takes it.
pub struct Module {
    raw: usize,
}

impl View for Module {
    type V = usize;

    closed spec fn view(&self) -> usize {
        self.raw
    }
}

impl Module {
    #[verifier::type_invariant]
    spec fn inv(&self) -> bool {
        self.raw != 0
    }

    /// Wraps a module handle; a null handle is a broken backend contract.
    pub fn new(raw: usize) -> (m: Module)
        requires
            raw != 0,
        ensures
            m@ == raw,
    {
        Module { raw }
    }

    pub fn raw(&self) -> (r: usize)
        ensures
            r == self@,
            r != 0,
    {
        proof {
            use_type_invariant(self);
        }
        self.raw
    }
}

/// A declared function of a module; valid while its module's context lives.
#[derive(Clone, Copy)]
pub struct FunctionValue {
    raw: usize,
}

impl View for FunctionValue {
    type V = usize;

    closed spec fn view(&self) -> usize {
        self.raw
    }
}

impl FunctionValue {
    #[verifier::type_invariant]
    spec fn inv(&self) -> bool {
        self.raw != 0
    }

    pub fn new(raw: usize) -> (f: FunctionValue)
        requires
            raw != 0,
        ensures
            f@ == raw,
    {
        FunctionValue { raw }
    }

    pub fn raw(&self) -> (r: usize)
        ensures
            r == self@,
            r != 0,
    {
        proof {
            use_type_invariant(self);
        }
        self.raw
    }
}

/// A pointer to a global variable of a module.
#[derive(Clone, Copy)]
pub struct PointerValue {
    raw: usize,
}

impl View for PointerValue {
    type V = usize;

    closed spec fn view(&self) -> usize {
        self.raw
    }
}

impl PointerValue {
    #[verifier::type_invariant]
    spec fn inv(&self) -> bool {
        self.raw != 0
    }

    pub fn new(raw: usize) -> (p: PointerValue)
        requires
            raw != 0,
        ensures
            p@ == raw,
    {
        PointerValue { raw }
    }

    pub fn raw(&self) -> (r: usize)
        ensures
            r == self@,
            r != 0,
    {
        proof {
            use_type_invariant(self);
        }
        self.raw
    }
}

/// A first-class type that values and globals can have.
#[derive(Clone, Copy)]
pub struct BasicTypeEnum {
    raw: usize,
}

impl View for BasicTypeEnum {
    type V = usize;

    closed spec fn view(&self) -> usize {
        self.raw
    }
}

impl BasicTypeEnum {
    #[verifier::type_invariant]
    spec fn inv(&self) -> bool {
        self.raw != 0
    }

    pub fn new(raw: usize) -> (t: BasicTypeEnum)
        requires
            raw != 0,
        ensures
            t@ == raw,
    {
        BasicTypeEnum { raw }
    }

    pub fn raw(&self) -> (r: usize)
        ensures
            r == self@,
            r != 0,
    {
        proof {
            use_type_invariant(self);
        }
        self.raw
    }
}

/// The signature of a function.
#[derive(Clone, Copy)]
pub struct FunctionType {
    raw: usize,
}

impl View for FunctionType {
    type V = usize;

    closed spec fn view(&self) -> usize {
        self.raw
    }
}

impl FunctionType {
    #[verifier::type_invariant]
    spec fn inv(&self) -> bool {
        self.raw != 0
    }

    pub fn new(raw: usize) -> (t: FunctionType)
        requires
            raw != 0,
        ensures
            t@ == raw,
    {
        FunctionType { raw }
    }

    pub fn raw(&self) -> (r: usize)
        ensures
            r == self@,
            r != 0,
    {
        proof {
            use_type_invariant(self);
        }
        self.raw
    }
}

/// A first-class value, such as the initializer of a global.
#[derive(Clone, Copy)]
pub struct BasicValueEnum {
    raw: usize,
}

impl View for BasicValueEnum {
    type V = usize;

    closed spec fn view(&self) -> usize {
        self.raw
    }
}

impl BasicValueEnum {
    #[verifier::type_invariant]
    spec fn inv(&self) -> bool {
        self.raw != 0
    }

    pub fn new(raw: usize) -> (v: BasicValueEnum)
        requires
            raw != 0,
        ensures
            v@ == raw,
    {
        BasicValueEnum { raw }
    }

    pub fn raw(&self) -> (r: usize)
        ensures
            r == self@,
            r != 0,
    {
        proof {
            use_type_invariant(self);
        }
        self.raw
    }
}

/// A function pass manager bound to one module, disposed on its own.
pub struct PassManager {
    raw: usize,
}

impl View for PassManager {
    type V = usize;

    closed spec fn view(&self) -> usize {
        self.raw
    }
}

impl PassManager {
    #[verifier::type_invariant]
    spec fn inv(&self) -> bool {
        self.raw != 0
    }

    pub fn new(raw: usize) -> (p: PassManager)
        requires
            raw != 0,
        ensures
            p@ == raw,
    {
        PassManager { raw }
    }

    pub fn raw(&self) -> (r: usize)
        ensures
            r == self@,
            r != 0,
    {
        proof {
            use_type_invariant(self);
        }
        self.raw
    }
}

/// An engine that owns the module it was made from.
pub struct ExecutionEngine {
    raw: usize,
    jit_mode: bool,
}

/// What an engine is: its handle and whether it was made in JIT mode.
pub struct EngineView {
    pub raw: usize,
    pub jit_mode: bool,
}

impl View for ExecutionEngine {
    type V = EngineView;

    closed spec fn view(&self) -> EngineView {
        EngineView { raw: self.raw, jit_mode: self.jit_mode }
    }
}

impl ExecutionEngine {
    #[verifier::type_invariant]
    spec fn inv(&self) -> bool {
        self.raw != 0
    }

    pub fn new(raw: usize, jit_mode: bool) -> (e: ExecutionEngine)
        requires
            raw != 0,
        ensures
            e@ == (EngineView { raw, jit_mode }),
    {
        ExecutionEngine { raw, jit_mode }
    }

    pub fn raw(&self) -> (r: usize)
        ensures
            r == self@.raw,
            r != 0,
    {
        proof {
            use_type_invariant(self);
        }
        self.raw
    }

    pub fn jit_mode(&self) -> (r: bool)
        ensures
            r == self@.jit_mode,
    {
        self.jit_mode
    }
}

/// A data-layout description, applied to a module by copying its text.
pub struct DataLayout {
    description: String,
}

impl View for DataLayout {
    type V = Seq<char>;

    closed spec fn view(&self) -> Seq<char> {
        self.description@
    }
}

impl DataLayout {
    #[verifier::type_invariant]
    spec fn inv(&self) -> bool {
        is_plain_name(self.description@)
    }

    pub fn new(description: &str) -> (d: DataLayout)
        requires
            is_plain_name(description@),
        ensures
            d@ == description@,
    {
        DataLayout { description: description.to_owned() }
    }

    /// The terminated bytes that the backend copies into a module.
    pub fn c_bytes(&self) -> (r: Vec<u8>)
        ensures
            r@ == terminated(self@),
    {
        proof {
            use_type_invariant(self);
        }
        c_name_bytes(self.description.as_str())
    }
}

} // verus!

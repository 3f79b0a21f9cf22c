//! The ordered bring-up that precedes engine creation.
//!
//! Before a module becomes an engine the backend wants, in this order: the
//! JIT compiler linked in (only when JIT mode is asked for), the native
//! target, assembly printer, assembly parser and disassembler initialised,
//! the interpreter linked in, and then the engine requested. An
//! initialisation that reports failure ends the bring-up with its own error.
//!
//! The linking and initialisation steps touch process-wide state. A
//! [`Registry`] records which of them have already taken effect, and a bring-up
//! planned from it leaves those out, so that repeated engine creation in one
//! process registers each thing once.
//!
//! [`EngineBuilder`] holds the decisions; its caller performs each
//! [`Action`] against the backend and reports the status code back.
use vstd::prelude::*;
use crate::handles::{Module, ExecutionEngine, EngineView};

verus! {

/// One backend call of the bring-up.
#[derive(Clone, Copy, Debug, PartialEq, Eq, Structural)]
pub enum Action {
    LinkInMcJit,
    InitNativeTarget,
    InitAsmPrinter,
    InitAsmParser,
    InitDisassembler,
    LinkInInterpreter,
    CreateEngine,
}

/// Which process-wide registrations have taken effect.
#[derive(Clone, Copy, Debug, PartialEq, Eq, Structural)]
pub struct Registry {
    pub mcjit_linked: bool,
    pub native_ready: bool,
    pub interpreter_linked: bool,
}

impl Registry {
    /// The registry of a process that has registered nothing.
    pub fn new() -> (r: Registry)
        ensures
            r == (Registry { mcjit_linked: false, native_ready: false, interpreter_linked: false }),
    {
        Registry { mcjit_linked: false, native_ready: false, interpreter_linked: false }
    }
}

/// An initialisation step that reported failure.
#[derive(Clone, Copy, Debug, PartialEq, Eq, Structural)]
pub enum InitFailure {
    TargetInitFailed,
    AsmPrinterInitFailed,
    AsmParserInitFailed,
    DisassemblerInitFailed,
}

/// Why no engine was made.
pub enum EngineError {
    /// A native initialisation step failed; later steps were not run.
    Init(InitFailure),
    /// The backend refused to make the engine, with its diagnostic text.
    CreationFailed(String),
}

/// What the backend said when asked for the engine.
pub enum Creation {
    /// The engine's handle.
    Created(usize),
    /// Refused; the diagnostic text, where the backend left one.
    Failed(Option<String>),
}

pub open spec fn jit_steps(jit_mode: bool, reg: Registry) -> Seq<Action> {
    if jit_mode && !reg.mcjit_linked {
        seq![Action::LinkInMcJit]
    } else {
        seq![]
    }
}

pub open spec fn native_steps(reg: Registry) -> Seq<Action> {
    if !reg.native_ready {
        seq![
            Action::InitNativeTarget,
            Action::InitAsmPrinter,
            Action::InitAsmParser,
            Action::InitDisassembler,
        ]
    } else {
        seq![]
    }
}

pub open spec fn interpreter_steps(reg: Registry) -> Seq<Action> {
    if !reg.interpreter_linked {
        seq![Action::LinkInInterpreter]
    } else {
        seq![]
    }
}

/// The calls of one bring-up, in order, from a process whose registrations
/// are `reg`: the registrations still owed, then the engine request.
pub open spec fn engine_plan(jit_mode: bool, reg: Registry) -> Seq<Action> {
    jit_steps(jit_mode, reg) + native_steps(reg) + interpreter_steps(reg) + seq![Action::CreateEngine]
}

/// The registrations in effect after the calls `done` succeeded, from `start`.
/// The native target counts as ready once its last step, the disassembler,
/// has succeeded.
pub open spec fn registry_after(start: Registry, done: Seq<Action>) -> Registry {
    Registry {
        mcjit_linked: start.mcjit_linked || done.contains(Action::LinkInMcJit),
        native_ready: start.native_ready || done.contains(Action::InitDisassembler),
        interpreter_linked: start.interpreter_linked || done.contains(Action::LinkInInterpreter),
    }
}

/// The error of an initialisation step, for the steps that report one.
pub open spec fn init_failure_of(a: Action) -> Option<InitFailure> {
    match a {
        Action::InitNativeTarget => Some(InitFailure::TargetInitFailed),
        Action::InitAsmPrinter => Some(InitFailure::AsmPrinterInitFailed),
        Action::InitAsmParser => Some(InitFailure::AsmParserInitFailed),
        Action::InitDisassembler => Some(InitFailure::DisassemblerInitFailed),
        _ => None,
    }
}

/// Where a bring-up stands: its mode, the registrations it started from, how
/// many of its calls succeeded, and the failure that stopped it, if any.
pub struct BuilderState {
    pub jit_mode: bool,
    pub start: Registry,
    pub done: nat,
    pub failure: Option<InitFailure>,
}

/// The call a bring-up in state `s` asks for next; none once it has failed.
pub open spec fn builder_next(s: BuilderState) -> Option<Action> {
    let plan = engine_plan(s.jit_mode, s.start);
    if s.failure is None && s.done < plan.len() {
        Some(plan[s.done as int])
    } else {
        None
    }
}

/// The registrations in effect in state `s`.
pub open spec fn builder_registry(s: BuilderState) -> Registry {
    registry_after(s.start, engine_plan(s.jit_mode, s.start).take(s.done as int))
}

/// The state after the next call of `s` returned `code`: a failing
/// initialisation stops the bring-up; anything else moves it on.
/// Linking calls return nothing, and their code is not read.
pub open spec fn after_report(s: BuilderState, code: i32) -> BuilderState {
    let a = builder_next(s)->0;
    if code != 0 && init_failure_of(a) is Some {
        BuilderState { failure: init_failure_of(a), ..s }
    } else {
        BuilderState { done: s.done + 1, ..s }
    }
}

/// The text of an error.
pub open spec fn error_text(e: EngineError) -> Seq<char> {
    match e {
        EngineError::Init(InitFailure::TargetInitFailed) => "Unknown error in initializing native target"@,
        EngineError::Init(InitFailure::AsmPrinterInitFailed) => "Unknown error in initializing native asm printer"@,
        EngineError::Init(InitFailure::AsmParserInitFailed) => "Unknown error in initializing native asm parser"@,
        EngineError::Init(InitFailure::DisassemblerInitFailed) => "Unknown error in initializing native disassembler"@,
        EngineError::CreationFailed(t) => t@,
    }
}

impl EngineError {
    pub fn message(&self) -> (r: String)
        ensures
            r@ == error_text(*self),
    {
        match self {
            EngineError::Init(InitFailure::TargetInitFailed) => "Unknown error in initializing native target".to_owned(),
            EngineError::Init(InitFailure::AsmPrinterInitFailed) => "Unknown error in initializing native asm printer".to_owned(),
            EngineError::Init(InitFailure::AsmParserInitFailed) => "Unknown error in initializing native asm parser".to_owned(),
            EngineError::Init(InitFailure::DisassemblerInitFailed) => "Unknown error in initializing native disassembler".to_owned(),
            EngineError::CreationFailed(t) => t.clone(),
        }
    }
}

fn init_failure(a: Action) -> (r: Option<InitFailure>)
    ensures
        r == init_failure_of(a),
{
    match a {
        Action::InitNativeTarget => Some(InitFailure::TargetInitFailed),
        Action::InitAsmPrinter => Some(InitFailure::AsmPrinterInitFailed),
        Action::InitAsmParser => Some(InitFailure::AsmParserInitFailed),
        Action::InitDisassembler => Some(InitFailure::DisassemblerInitFailed),
        _ => None,
    }
}

proof fn lemma_contains_push(s: Seq<Action>, x: Action, y: Action)
    ensures
        s.push(x).contains(y) <==> (s.contains(y) || x == y),
{
    if s.push(x).contains(y) {
        let i = choose|i: int| 0 <= i < s.push(x).len() && s.push(x)[i] == y;
        if i < s.len() {
            assert(s[i] == y);
        }
    }
    if s.contains(y) {
        let i = choose|i: int| 0 <= i < s.len() && s[i] == y;
        assert(s.push(x)[i] == y);
    }
    if x == y {
        assert(s.push(x)[s.len() as int] == y);
    }
}

/// The engine request is the last call of every bring-up, and the only one.
pub proof fn lemma_create_is_last(jit_mode: bool, reg: Registry)
    ensures
        engine_plan(jit_mode, reg).len() >= 1,
        engine_plan(jit_mode, reg).last() == Action::CreateEngine,
        forall|i: int|
            0 <= i < engine_plan(jit_mode, reg).len() - 1 ==> engine_plan(jit_mode, reg)[i] != Action::CreateEngine,
{
    let head = jit_steps(jit_mode, reg) + native_steps(reg) + interpreter_steps(reg);
    assert(engine_plan(jit_mode, reg) == head.push(Action::CreateEngine));
    assert forall|i: int| 0 <= i < head.len() implies head[i] != Action::CreateEngine by {
        let j = jit_steps(jit_mode, reg);
        let n = native_steps(reg);
        if i < j.len() {
            assert(head[i] == j[i]);
        } else if i < j.len() + n.len() {
            assert(head[i] == n[i - j.len()]);
        } else {
            assert(head[i] == interpreter_steps(reg)[i - j.len() - n.len()]);
        }
    }
}

/// From a process that has registered nothing, a bring-up makes these calls
/// in this order: the JIT compiler only in JIT mode, the four native
/// initialisations, the interpreter, and then the engine request.
pub proof fn lemma_fresh_bring_up_order(jit_mode: bool)
    ensures
        engine_plan(jit_mode, Registry { mcjit_linked: false, native_ready: false, interpreter_linked: false })
            == (if jit_mode {
            seq![
                Action::LinkInMcJit,
                Action::InitNativeTarget,
                Action::InitAsmPrinter,
                Action::InitAsmParser,
                Action::InitDisassembler,
                Action::LinkInInterpreter,
                Action::CreateEngine,
            ]
        } else {
            seq![
                Action::InitNativeTarget,
                Action::InitAsmPrinter,
                Action::InitAsmParser,
                Action::InitDisassembler,
                Action::LinkInInterpreter,
                Action::CreateEngine,
            ]
        }),
{
    let reg = Registry { mcjit_linked: false, native_ready: false, interpreter_linked: false };
    if jit_mode {
        assert(engine_plan(jit_mode, reg) =~= seq![
            Action::LinkInMcJit,
            Action::InitNativeTarget,
            Action::InitAsmPrinter,
            Action::InitAsmParser,
            Action::InitDisassembler,
            Action::LinkInInterpreter,
            Action::CreateEngine,
        ]);
    } else {
        assert(engine_plan(jit_mode, reg) =~= seq![
            Action::InitNativeTarget,
            Action::InitAsmPrinter,
            Action::InitAsmParser,
            Action::InitDisassembler,
            Action::LinkInInterpreter,
            Action::CreateEngine,
        ]);
    }
}

/// The JIT compiler is linked in only by a bring-up in JIT mode, and only
/// while it is not linked in yet; the interpreter is linked in by every
/// bring-up that finds it missing, whatever the mode.
pub proof fn lemma_jit_only_when_requested(jit_mode: bool, reg: Registry)
    ensures
        engine_plan(jit_mode, reg).contains(Action::LinkInMcJit) <==> (jit_mode && !reg.mcjit_linked),
        engine_plan(jit_mode, reg).contains(Action::LinkInInterpreter) <==> !reg.interpreter_linked,
{
    let plan = engine_plan(jit_mode, reg);
    let j = jit_steps(jit_mode, reg);
    let n = native_steps(reg);
    let t = interpreter_steps(reg);
    assert forall|i: int| 0 <= i < plan.len() && plan[i] == Action::LinkInMcJit implies i == 0 && j.len() == 1 by {
        if i >= j.len() && i < j.len() + n.len() {
            assert(plan[i] == n[i - j.len()]);
        } else if i >= j.len() + n.len() && i < j.len() + n.len() + t.len() {
            assert(plan[i] == t[i - j.len() - n.len()]);
        }
    }
    assert forall|i: int| 0 <= i < plan.len() && plan[i] == Action::LinkInInterpreter implies t.len() == 1 by {
        if i < j.len() {
            assert(plan[i] == j[i]);
        } else if i < j.len() + n.len() {
            assert(plan[i] == n[i - j.len()]);
        }
    }
    if jit_mode && !reg.mcjit_linked {
        assert(plan[0] == Action::LinkInMcJit);
    }
    if !reg.interpreter_linked {
        assert(plan[(j.len() + n.len()) as int] == Action::LinkInInterpreter);
    }
}

/// Once a bring-up has reached the engine request, every registration it
/// owed has taken effect: a later bring-up in the same mode asks for the
/// engine alone, and one in either mode initialises nothing again.
pub proof fn lemma_registration_runs_once(s: BuilderState)
    requires
        builder_next(s) == Some(Action::CreateEngine),
    ensures
        engine_plan(s.jit_mode, builder_registry(s)) == seq![Action::CreateEngine],
        forall|jit_mode: bool|
            #[trigger] engine_plan(jit_mode, builder_registry(s))
                == jit_steps(jit_mode, builder_registry(s)) + seq![Action::CreateEngine],
{
    let plan = engine_plan(s.jit_mode, s.start);
    let j = jit_steps(s.jit_mode, s.start);
    let n = native_steps(s.start);
    lemma_create_is_last(s.jit_mode, s.start);
    assert(s.done == plan.len() - 1);
    let done = plan.take(s.done as int);
    let reg = builder_registry(s);
    if s.jit_mode && !s.start.mcjit_linked {
        assert(done[0] == Action::LinkInMcJit);
    }
    if !s.start.native_ready {
        assert(done[(j.len() + 3) as int] == Action::InitDisassembler);
    }
    if !s.start.interpreter_linked {
        assert(done[(j.len() + n.len()) as int] == Action::LinkInInterpreter);
    }
    assert(reg.native_ready && reg.interpreter_linked);
    assert(s.jit_mode ==> reg.mcjit_linked);
    assert(engine_plan(s.jit_mode, reg) =~= seq![Action::CreateEngine]);
    assert forall|jit_mode: bool|
        #[trigger] engine_plan(jit_mode, reg) == jit_steps(jit_mode, reg) + seq![Action::CreateEngine] by {
        assert(engine_plan(jit_mode, reg) =~= jit_steps(jit_mode, reg) + seq![Action::CreateEngine]);
    }
}

/// Drives one bring-up, from the registrations in effect, to the engine.
pub struct EngineBuilder {
    jit_mode: bool,
    start: Registry,
    plan: Vec<Action>,
    done: usize,
    failure: Option<InitFailure>,
}

impl View for EngineBuilder {
    type V = BuilderState;

    closed spec fn view(&self) -> BuilderState {
        BuilderState {
            jit_mode: self.jit_mode,
            start: self.start,
            done: self.done as nat,
            failure: self.failure,
        }
    }
}

impl EngineBuilder {
    #[verifier::type_invariant]
    spec fn inv(&self) -> bool {
        &&& self.plan@ == engine_plan(self.jit_mode, self.start)
        &&& self.done < self.plan@.len()
    }

    /// Plans a bring-up in the given mode from the registrations `start`.
    pub fn new(jit_mode: bool, start: Registry) -> (b: EngineBuilder)
        ensures
            b@ == (BuilderState { jit_mode, start, done: 0, failure: None }),
    {
        let mut plan: Vec<Action> = Vec::new();
        if jit_mode && !start.mcjit_linked {
            plan.push(Action::LinkInMcJit);
        }
        if !start.native_ready {
            plan.push(Action::InitNativeTarget);
            plan.push(Action::InitAsmPrinter);
            plan.push(Action::InitAsmParser);
            plan.push(Action::InitDisassembler);
        }
        if !start.interpreter_linked {
            plan.push(Action::LinkInInterpreter);
        }
        plan.push(Action::CreateEngine);
        assert(plan@ =~= engine_plan(jit_mode, start));
        EngineBuilder { jit_mode, start, plan, done: 0, failure: None }
    }

    /// The call to perform next; none once an initialisation has failed.
    pub fn next_action(&self) -> (r: Option<Action>)
        ensures
            r == builder_next(self@),
    {
        proof {
            use_type_invariant(self);
        }
        if self.failure.is_none() {
            Some(self.plan[self.done])
        } else {
            None
        }
    }

    /// Reports the status code of the call that `next_action` asked for.
    pub fn record(&mut self, code: i32)
        requires
            builder_next(old(self)@) matches Some(a) && a != Action::CreateEngine,
        ensures
            final(self)@ == after_report(old(self)@, code),
            final(self)@.failure is Some ==> builder_next(final(self)@) is None,
    {
        proof {
            use_type_invariant(&*self);
            lemma_create_is_last(self.jit_mode, self.start);
        }
        let a = self.plan[self.done];
        let failure = init_failure(a);
        if code != 0 && failure.is_some() {
            self.failure = failure;
        } else {
            assert(self.done + 1 < self.plan@.len());
            self.done = self.done + 1;
        }
    }

    /// The registrations in effect now, to be kept for the next bring-up.
    pub fn registry(&self) -> (r: Registry)
        ensures
            r == builder_registry(self@),
    {
        proof {
            use_type_invariant(self);
        }
        let mut reg = self.start;
        let mut i: usize = 0;
        while i < self.done
            invariant
                self.plan@ == engine_plan(self.jit_mode, self.start),
                self.done < self.plan@.len(),
                i <= self.done,
                reg == registry_after(self.start, self.plan@.take(i as int)),
            decreases self.done - i,
        {
            let a = self.plan[i];
            proof {
                assert(self.plan@.take(i + 1) =~= self.plan@.take(i as int).push(a));
                lemma_contains_push(self.plan@.take(i as int), a, Action::LinkInMcJit);
                lemma_contains_push(self.plan@.take(i as int), a, Action::InitDisassembler);
                lemma_contains_push(self.plan@.take(i as int), a, Action::LinkInInterpreter);
            }
            match a {
                Action::LinkInMcJit => {
                    reg = Registry { mcjit_linked: true, ..reg };
                },
                Action::InitDisassembler => {
                    reg = Registry { native_ready: true, ..reg };
                },
                Action::LinkInInterpreter => {
                    reg = Registry { interpreter_linked: true, ..reg };
                },
                _ => {},
            }
            i = i + 1;
        }
        reg
    }

    /// Ends the bring-up. The module is consumed: once the engine is asked
    /// for, the backend owns it, whatever the answer.
    pub fn finish(self, _module: Module, outcome: Creation) -> (r: Result<ExecutionEngine, EngineError>)
        requires
            self@.failure is Some || builder_next(self@) == Some(Action::CreateEngine),
            outcome matches Creation::Created(raw) ==> raw != 0,
        ensures
            self@.failure matches Some(f) ==> r matches Err(EngineError::Init(g)) && g == f,
            self@.failure is None ==> match outcome {
                Creation::Created(raw) => r matches Ok(e) && e@ == (EngineView { raw, jit_mode: self@.jit_mode }),
                Creation::Failed(t) => r matches Err(EngineError::CreationFailed(m)) && m@ == match t {
                    Some(s) => s@,
                    None => Seq::<char>::empty(),
                },
            },
    {
        match self.failure {
            Some(f) => Err(EngineError::Init(f)),
            None => match outcome {
                Creation::Created(raw) => Ok(ExecutionEngine::new(raw, self.jit_mode)),
                Creation::Failed(Some(text)) => Err(EngineError::CreationFailed(text)),
                Creation::Failed(None) => Err(EngineError::CreationFailed(String::new())),
            },
        }
    }
}

} // verus!

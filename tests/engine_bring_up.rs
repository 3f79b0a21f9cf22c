use llvm_safe::engine::{Action, Creation, EngineBuilder, EngineError, InitFailure, Registry};
use llvm_safe::handles::Module;

fn run_to_request(b: &mut EngineBuilder) -> Vec<Action> {
    let mut seen = Vec::new();
    while let Some(a) = b.next_action() {
        seen.push(a);
        if a == Action::CreateEngine {
            break;
        }
        b.record(0);
    }
    seen
}

#[test]
fn fresh_jit_bring_up_runs_every_step_in_order() {
    let mut b = EngineBuilder::new(true, Registry::new());
    assert_eq!(
        run_to_request(&mut b),
        vec![
            Action::LinkInMcJit,
            Action::InitNativeTarget,
            Action::InitAsmPrinter,
            Action::InitAsmParser,
            Action::InitDisassembler,
            Action::LinkInInterpreter,
            Action::CreateEngine,
        ]
    );
}

#[test]
fn interpreter_bring_up_leaves_the_jit_out() {
    let mut b = EngineBuilder::new(false, Registry::new());
    assert_eq!(
        run_to_request(&mut b),
        vec![
            Action::InitNativeTarget,
            Action::InitAsmPrinter,
            Action::InitAsmParser,
            Action::InitDisassembler,
            Action::LinkInInterpreter,
            Action::CreateEngine,
        ]
    );
}

#[test]
fn jit_engine_carries_the_jit_flag() {
    let mut b = EngineBuilder::new(true, Registry::new());
    run_to_request(&mut b);
    let e = b.finish(Module::new(0x1000), Creation::Created(0x2000));
    match e {
        Ok(engine) => {
            assert!(engine.jit_mode());
            assert_eq!(engine.raw(), 0x2000);
        }
        Err(_) => panic!("engine expected"),
    }
}

#[test]
fn interpreter_engine_has_the_jit_flag_off() {
    let mut b = EngineBuilder::new(false, Registry::new());
    run_to_request(&mut b);
    match b.finish(Module::new(0x1000), Creation::Created(0x3000)) {
        Ok(engine) => {
            assert!(!engine.jit_mode());
            assert_eq!(engine.raw(), 0x3000);
        }
        Err(_) => panic!("engine expected"),
    }
}

#[test]
fn failing_asm_printer_stops_the_bring_up() {
    let mut b = EngineBuilder::new(false, Registry::new());
    assert_eq!(b.next_action(), Some(Action::InitNativeTarget));
    b.record(0);
    assert_eq!(b.next_action(), Some(Action::InitAsmPrinter));
    b.record(1);
    assert_eq!(b.next_action(), None);
    assert_eq!(b.registry(), Registry::new());
    match b.finish(Module::new(8), Creation::Failed(None)) {
        Err(e) => {
            assert!(matches!(e, EngineError::Init(InitFailure::AsmPrinterInitFailed)));
            assert_eq!(e.message(), "Unknown error in initializing native asm printer");
        }
        Ok(_) => panic!("error expected"),
    }
}

#[test]
fn each_init_step_has_its_own_error() {
    let cases = [
        (0usize, InitFailure::TargetInitFailed, "Unknown error in initializing native target"),
        (1, InitFailure::AsmPrinterInitFailed, "Unknown error in initializing native asm printer"),
        (2, InitFailure::AsmParserInitFailed, "Unknown error in initializing native asm parser"),
        (3, InitFailure::DisassemblerInitFailed, "Unknown error in initializing native disassembler"),
    ];
    for (at, failure, text) in cases {
        let mut b = EngineBuilder::new(false, Registry::new());
        for _ in 0..at {
            b.record(0);
        }
        b.record(1);
        assert_eq!(b.next_action(), None);
        match b.finish(Module::new(8), Creation::Created(9)) {
            Err(e) => {
                assert!(matches!(e, EngineError::Init(f) if f == failure));
                assert_eq!(e.message(), text);
            }
            Ok(_) => panic!("error expected"),
        }
    }
}

#[test]
fn link_steps_ignore_their_code() {
    let mut b = EngineBuilder::new(true, Registry::new());
    assert_eq!(b.next_action(), Some(Action::LinkInMcJit));
    b.record(1);
    assert_eq!(b.next_action(), Some(Action::InitNativeTarget));
}

#[test]
fn second_bring_up_registers_nothing_again() {
    let mut first = EngineBuilder::new(true, Registry::new());
    run_to_request(&mut first);
    let reg = first.registry();
    assert_eq!(
        reg,
        Registry { mcjit_linked: true, native_ready: true, interpreter_linked: true }
    );
    for jit in [true, false] {
        let mut again = EngineBuilder::new(jit, reg);
        assert_eq!(run_to_request(&mut again), vec![Action::CreateEngine]);
    }
}

#[test]
fn switching_to_jit_later_links_only_the_jit() {
    let mut first = EngineBuilder::new(false, Registry::new());
    run_to_request(&mut first);
    let reg = first.registry();
    assert!(!reg.mcjit_linked);
    let mut second = EngineBuilder::new(true, reg);
    assert_eq!(
        run_to_request(&mut second),
        vec![Action::LinkInMcJit, Action::CreateEngine]
    );
}

#[test]
fn failed_bring_up_is_retried_from_the_start() {
    let mut b = EngineBuilder::new(false, Registry::new());
    b.record(0);
    b.record(0);
    b.record(0);
    b.record(1);
    let reg = b.registry();
    assert!(!reg.native_ready);
    let mut again = EngineBuilder::new(false, reg);
    assert_eq!(again.next_action(), Some(Action::InitNativeTarget));
}

#[test]
fn refused_engine_keeps_the_backend_text() {
    let mut b = EngineBuilder::new(false, Registry::new());
    run_to_request(&mut b);
    let text = String::from("No available targets are compatible with triple \"bogus\"");
    match b.finish(Module::new(8), Creation::Failed(Some(text.clone()))) {
        Err(e) => {
            assert!(matches!(&e, EngineError::CreationFailed(t) if *t == text));
            assert_eq!(e.message(), text);
            assert!(!e.message().is_empty());
        }
        Ok(_) => panic!("error expected"),
    }
}

#[test]
fn refused_engine_without_text_gives_empty_text() {
    let mut b = EngineBuilder::new(true, Registry::new());
    run_to_request(&mut b);
    match b.finish(Module::new(8), Creation::Failed(None)) {
        Err(e) => assert_eq!(e.message(), ""),
        Ok(_) => panic!("error expected"),
    }
}

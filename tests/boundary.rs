use llvm_safe::bridge::{BufferStep, MessageBridge};
use llvm_safe::handles::{DataLayout, ExecutionEngine, FunctionValue, Module, PassManager};
use llvm_safe::module::{bitcode_written, function_lookup, type_lookup, verify_report};
use llvm_safe::symbol::{c_name_bytes, is_valid_name, symbol_bytes};

#[test]
fn plain_names_are_accepted() {
    assert!(is_valid_name("main"));
    assert!(is_valid_name(""));
    assert!(is_valid_name("grüße"));
    assert!(!is_valid_name("ma\0in"));
    assert!(!is_valid_name("\0"));
}

#[test]
fn names_are_terminated_once() {
    assert_eq!(c_name_bytes("ab"), vec![b'a', b'b', 0]);
    assert_eq!(c_name_bytes(""), vec![0]);
    assert_eq!(c_name_bytes("é"), vec![0xc3, 0xa9, 0]);
}

#[test]
fn names_with_nul_have_no_bytes() {
    assert_eq!(symbol_bytes("x86_64-unknown-linux-gnu"), Some(b"x86_64-unknown-linux-gnu\0".to_vec()));
    assert_eq!(symbol_bytes("a\0"), None);
}

#[test]
fn absent_function_is_none() {
    assert!(function_lookup(0).is_none());
    assert!(type_lookup(0).is_none());
}

#[test]
fn found_function_keeps_its_handle() {
    let declared = FunctionValue::new(0x5150);
    match function_lookup(0x5150) {
        Some(f) => assert_eq!(f.raw(), declared.raw()),
        None => panic!("function expected"),
    }
    match type_lookup(0x77) {
        Some(t) => assert_eq!(t.raw(), 0x77),
        None => panic!("type expected"),
    }
}

#[test]
fn bitcode_status_reads_as_bool() {
    assert!(bitcode_written(0));
    assert!(!bitcode_written(1));
    assert!(!bitcode_written(-1));
}

fn drive(mut b: MessageBridge, text: &str) -> (Vec<BufferStep>, Option<String>) {
    let mut steps = Vec::new();
    while let Some(s) = b.next_step() {
        steps.push(s);
        match s {
            BufferStep::Copy => b.copied(String::from(text)),
            BufferStep::Dispose => b.disposed(),
        }
    }
    (steps, b.into_text())
}

#[test]
fn failed_verification_prints_once_then_disposes() {
    let (ok, bridge) = verify_report(1, true, true);
    assert!(!ok);
    let (steps, text) = drive(bridge, "Basic Block in function 'f' does not have terminator!");
    assert_eq!(steps, vec![BufferStep::Copy, BufferStep::Dispose]);
    assert_eq!(text, Some(String::from("Basic Block in function 'f' does not have terminator!")));
}

#[test]
fn quiet_failed_verification_only_disposes() {
    let (ok, bridge) = verify_report(1, true, false);
    assert!(!ok);
    let (steps, text) = drive(bridge, "ignored");
    assert_eq!(steps, vec![BufferStep::Dispose]);
    assert_eq!(text, None);
}

#[test]
fn passing_verification_prints_nothing() {
    let (ok, bridge) = verify_report(0, true, true);
    assert!(ok);
    let (steps, text) = drive(bridge, "");
    assert_eq!(steps, vec![BufferStep::Dispose]);
    assert_eq!(text, None);
}

#[test]
fn unset_buffer_is_left_alone() {
    let (ok, bridge) = verify_report(1, false, true);
    assert!(!ok);
    let (steps, text) = drive(bridge, "never read");
    assert!(steps.is_empty());
    assert_eq!(text, None);
}

#[test]
fn engine_failure_buffer_is_copied_then_disposed() {
    let (steps, text) = drive(MessageBridge::new(true, true), "invalid target triple");
    assert_eq!(steps, vec![BufferStep::Copy, BufferStep::Dispose]);
    assert_eq!(text, Some(String::from("invalid target triple")));
}

#[test]
fn handles_keep_their_addresses() {
    assert_eq!(Module::new(0x10).raw(), 0x10);
    assert_eq!(PassManager::new(0x20).raw(), 0x20);
    let e = ExecutionEngine::new(0x30, false);
    assert_eq!(e.raw(), 0x30);
    assert!(!e.jit_mode());
}

#[test]
fn data_layout_bytes_are_terminated() {
    let d = DataLayout::new("e-m:e-i64:64-n8:16:32:64-S128");
    assert_eq!(d.c_bytes(), b"e-m:e-i64:64-n8:16:32:64-S128\0".to_vec());
}

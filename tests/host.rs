use runjs::driver::{action, error_line, exit_code, step, RunAction, RunEvent, RunState};
use runjs::error::{kind_of_description, ErrorKind, HostError};
use runjs::ops::{registry, CallingConvention, HostOp};
use runjs::snapshot::{frame_snapshot, unframe_snapshot};

#[test]
fn only_remove_file_is_fast() {
    assert_eq!(HostOp::RemoveFile.convention(), CallingConvention::Fast);
    assert_eq!(HostOp::ReadFile.convention(), CallingConvention::Async);
    assert_eq!(HostOp::WriteFile.convention(), CallingConvention::Async);
    assert_eq!(HostOp::Fetch.convention(), CallingConvention::Async);
}

#[test]
fn op_names() {
    assert_eq!(HostOp::ReadFile.op_name(), "op_read_file");
    assert_eq!(HostOp::WriteFile.op_name(), "op_write_file");
    assert_eq!(HostOp::RemoveFile.op_name(), "op_remove_file");
    assert_eq!(HostOp::Fetch.op_name(), "op_fetch");
    assert_eq!(HostOp::ReadFile.script_name(), "readFile");
    assert_eq!(HostOp::Fetch.script_name(), "fetch");
}

#[test]
fn registry_holds_each_op_once() {
    let r = registry();
    assert_eq!(r, vec![HostOp::Fetch, HostOp::ReadFile, HostOp::WriteFile, HostOp::RemoveFile]);
}

#[test]
fn read_of_missing_file_rejects_with_io_failure() {
    let e = HostOp::ReadFile.failure("missing.txt: not found".to_string());
    assert_eq!(e.kind(), ErrorKind::IoFailure);
    assert_eq!(e.message(), "missing.txt: not found");
    assert_eq!(HostOp::RemoveFile.failure_kind(), ErrorKind::IoFailure);
}

#[test]
fn fetch_failure_is_a_network_failure() {
    assert_eq!(HostOp::Fetch.failure_kind(), ErrorKind::NetworkFailure);
}

#[test]
fn successful_run_exits_zero() {
    let mut s = RunState::Uninitialized;
    assert_eq!(action(s), RunAction::Bootstrap);
    let events = [
        RunEvent::BootstrapDone,
        RunEvent::EntryResolved,
        RunEvent::GraphLoaded,
        RunEvent::EvaluationStarted,
        RunEvent::WorkPending,
        RunEvent::WorkPending,
        RunEvent::Quiescent,
    ];
    let expected = [
        RunAction::ResolveEntry,
        RunAction::LoadMainModule,
        RunAction::Evaluate,
        RunAction::PollEventLoop,
        RunAction::PollEventLoop,
        RunAction::PollEventLoop,
        RunAction::Exit(0),
    ];
    for (e, a) in events.iter().zip(expected.iter()) {
        let (n, act) = step(s, *e);
        assert_eq!(act, *a);
        s = n;
    }
    assert_eq!(s, RunState::Completed);
    assert_eq!(exit_code(s), 0);
}

#[test]
fn bootstrap_error_is_always_bootstrap_failure() {
    let (s, a) = step(RunState::Uninitialized, RunEvent::Error(ErrorKind::ScriptException));
    assert_eq!(s, RunState::Failed(ErrorKind::BootstrapFailure));
    assert_eq!(a, RunAction::Exit(1));
}

#[test]
fn missing_entry_fails_with_io_failure() {
    let (s, _) = step(RunState::Bootstrapped, RunEvent::EntryResolved);
    let (s, a) = step(s, RunEvent::Error(ErrorKind::IoFailure));
    assert_eq!(s, RunState::Failed(ErrorKind::IoFailure));
    assert_eq!(a, RunAction::Exit(1));
}

#[test]
fn unhandled_rejection_fails_the_run() {
    let (s, _) = step(RunState::Draining, RunEvent::WorkPending);
    let (s, a) = step(s, RunEvent::Error(ErrorKind::ScriptException));
    assert_eq!(s, RunState::Failed(ErrorKind::ScriptException));
    assert_eq!(a, RunAction::Exit(1));
    assert_ne!(exit_code(s), 0);
}

#[test]
fn terminal_states_stay() {
    let (s, _) = step(RunState::Completed, RunEvent::Error(ErrorKind::IoFailure));
    assert_eq!(s, RunState::Completed);
    let f = RunState::Failed(ErrorKind::NetworkFailure);
    let (s, a) = step(f, RunEvent::Quiescent);
    assert_eq!(s, f);
    assert_eq!(a, RunAction::Exit(1));
}

#[test]
fn out_of_order_event_changes_nothing() {
    let (s, a) = step(RunState::Bootstrapped, RunEvent::Quiescent);
    assert_eq!(s, RunState::Bootstrapped);
    assert_eq!(a, RunAction::ResolveEntry);
}

#[test]
fn error_line_prefixes_message() {
    let e = HostError::new(ErrorKind::IoFailure, "No such file: /p/app.ts".to_string());
    assert_eq!(error_line(&e), "error: No such file: /p/app.ts");
}

#[test]
fn snapshot_frame_exact_bytes() {
    let v = frame_snapshot(258, &vec![9, 8]).unwrap();
    assert_eq!(v, vec![2, 1, 0, 0, 9, 8]);
    let w = frame_snapshot(0x0A0B0C0D, &vec![]).unwrap();
    assert_eq!(w, vec![0x0D, 0x0C, 0x0B, 0x0A]);
}

#[test]
fn snapshot_frame_round_trip() {
    let payload = vec![1u8, 2, 3, 250];
    let v = frame_snapshot(70000, &payload).unwrap();
    let (n, p) = unframe_snapshot(&v).unwrap();
    assert_eq!(n, 70000);
    assert_eq!(p, payload);
    let (m, q) = unframe_snapshot(&frame_snapshot(u32::MAX as usize, &vec![]).unwrap()).unwrap();
    assert_eq!(m, u32::MAX);
    assert!(q.is_empty());
}

#[test]
fn snapshot_frame_limits() {
    assert_eq!(frame_snapshot(u32::MAX as usize + 1, &vec![1]), None);
    assert_eq!(unframe_snapshot(&vec![1, 2, 3]), None);
}

#[test]
fn describe_names_kind_and_message() {
    let e = HostError::new(ErrorKind::NetworkFailure, "connection refused".to_string());
    assert_eq!(e.describe(), "NetworkFailure: connection refused");
    assert_eq!(ErrorKind::UnsupportedMediaType.name(), "UnsupportedMediaType");
}

#[test]
fn kind_is_read_back_from_description() {
    for kind in [
        ErrorKind::Resolution,
        ErrorKind::UnsupportedMediaType,
        ErrorKind::Transpile,
        ErrorKind::IoFailure,
        ErrorKind::NetworkFailure,
        ErrorKind::ScriptException,
        ErrorKind::BootstrapFailure,
    ] {
        let e = HostError::new(kind, "/p/app.ts".to_string());
        assert_eq!(kind_of_description(&e.describe()), kind);
    }
    assert_eq!(kind_of_description("Uncaught TypeError: x is not a function"), ErrorKind::ScriptException);
    assert_eq!(kind_of_description("IoFailure"), ErrorKind::ScriptException);
    assert_eq!(kind_of_description(""), ErrorKind::ScriptException);
}

use sidecar_shell::supervisor::{backend_filename, BackendPhase, BackendSlot, BackendStream};

#[test]
fn filename_depends_on_platform_family() {
    assert_eq!(backend_filename(true), "python_backend.exe");
    assert_eq!(backend_filename(false), "python_backend");
}

#[test]
fn log_lines_are_tagged_by_stream() {
    assert_eq!(BackendStream::Stdout.log_line("ready"), "[backend] ready");
    assert_eq!(BackendStream::Stderr.log_line("oops"), "[backend-err] oops");
    assert_eq!(BackendStream::Stdout.log_line(""), "[backend] ");
    assert_eq!(BackendStream::Stderr.log_prefix(), "[backend-err] ");
}

#[test]
fn relayed_lines_keep_their_order() {
    let lines = ["one", "two", "two"];
    let logged: Vec<String> = lines.iter().map(|l| BackendStream::Stdout.log_line(l)).collect();
    assert_eq!(logged, vec!["[backend] one", "[backend] two", "[backend] two"]);
}

#[test]
fn failed_spawn_is_fatal_and_leaves_slot_empty() {
    let mut slot: BackendSlot<u32> = BackendSlot::new();
    assert_eq!(slot.phase(), BackendPhase::NotStarted);
    let r = slot.record_spawn(Err::<u32, &str>("not found"));
    assert_eq!(r, Err("not found"));
    assert_eq!(slot.phase(), BackendPhase::StartupFailed);
    assert!(!slot.is_running());
    assert_eq!(slot.take_for_shutdown(), None);
    assert_eq!(slot.phase(), BackendPhase::StartupFailed);
}

#[test]
fn shutdown_takes_the_handle_once() {
    let mut slot: BackendSlot<u32> = BackendSlot::new();
    assert_eq!(slot.record_spawn(Ok::<u32, &str>(42)), Ok(()));
    assert_eq!(slot.phase(), BackendPhase::Running);
    assert!(slot.is_running());
    assert_eq!(slot.take_for_shutdown(), Some(42));
    assert_eq!(slot.phase(), BackendPhase::Terminated);
    assert!(!slot.is_running());
    assert_eq!(slot.take_for_shutdown(), None);
    assert_eq!(slot.phase(), BackendPhase::Terminated);
}

#[test]
fn shutdown_before_startup_is_a_no_op() {
    let mut slot: BackendSlot<u32> = BackendSlot::new();
    assert_eq!(slot.take_for_shutdown(), None);
    assert_eq!(slot.phase(), BackendPhase::NotStarted);
}

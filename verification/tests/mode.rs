use standout::cli::mode::{HandlerMode, Local, ThreadSafe};

#[test]
fn test_thread_safe_is_default() {
    let _: ThreadSafe = Default::default();
}

#[test]
fn test_local_is_default() {
    let _: Local = Default::default();
}

#[test]
fn test_mode_constants() {
    assert!(ThreadSafe::REQUIRES_SEND_SYNC);
    assert!(!Local::REQUIRES_SEND_SYNC);
}

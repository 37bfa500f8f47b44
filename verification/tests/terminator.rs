use nesting_engine::terminator::NativeTerminator;
use nesting_engine::terminator::TerminatorState;

#[test]
fn test_terminator_default_state() {
    let term = NativeTerminator::new();
    assert!(!term.is_terminated());
    assert!(!term.kill());
}

#[test]
fn test_terminator_signal() {
    let term = NativeTerminator::new();
    term.terminate();
    assert!(term.is_terminated());
    assert!(term.kill());
}

#[test]
fn test_terminator_reset() {
    let term = NativeTerminator::new();
    term.terminate();
    assert!(term.is_terminated());
    term.reset();
    assert!(!term.is_terminated());
}

#[test]
fn test_terminator_clone() {
    let term1 = NativeTerminator::new();
    let term2 = term1.get_handle();

    term1.terminate();
    assert!(term2.is_terminated());
}

#[test]
fn test_terminator_timeout() {
    let term = NativeTerminator::new();

    // Set a very short timeout (1ms)
    term.new_timeout(1);

    // Should not be terminated immediately
    assert!(term.timeout_at().is_some());

    // Wait for the timeout to pass without sleeping
    let start = std::time::Instant::now();
    while start.elapsed().as_millis() < 10 {
        std::hint::spin_loop();
    }

    // Should be terminated after timeout
    assert!(term.kill());
}

#[test]
fn test_terminator_no_timeout() {
    let term = NativeTerminator::new();

    // No timeout set
    assert!(term.timeout_at().is_none());
    assert!(!term.kill());
}

#[test]
fn test_deadline_state_machine_scenario() {
    // Armed with a 1-millisecond deadline, the combined stop condition reads
    // true once 10 milliseconds have passed, and false on a fresh state.
    let mut s = TerminatorState::new();
    assert!(!s.should_stop_at(0));
    assert!(!s.should_stop_at(1_000_000));
    s.arm_deadline_at(1_000, 1);
    assert!(!s.should_stop_at(1_000));
    assert!(!s.should_stop_at(1_001));
    assert!(s.should_stop_at(1_010));
}

#[test]
fn test_request_stop_idempotent() {
    let mut once = TerminatorState::new();
    once.request_stop();
    let mut twice = TerminatorState::new();
    twice.request_stop();
    twice.request_stop();
    assert_eq!(once.stop_requested, twice.stop_requested);
    assert_eq!(once.deadline_ms, twice.deadline_ms);
    assert!(once.should_stop_at(0));
    assert!(twice.should_stop_at(0));
}

#[test]
fn test_arm_deadline_once() {
    let mut s = TerminatorState::new();
    s.arm_deadline_at(100, 50);
    assert_eq!(s.deadline(), Some(150));
    s.arm_deadline_at(200, 999);
    assert_eq!(s.deadline(), Some(150));
}

#[test]
fn test_arm_deadline_saturates() {
    let mut s = TerminatorState::new();
    s.arm_deadline_at(u64::MAX - 1, 10);
    assert_eq!(s.deadline(), Some(u64::MAX));
}

#[test]
fn test_reset_state_machine() {
    let mut s = TerminatorState::new();
    s.request_stop();
    s.arm_deadline_at(5, 5);
    s.reset();
    assert!(!s.stop_requested);
    assert_eq!(s.deadline(), None);
    assert!(!s.should_stop_at(u64::MAX));
}

#[test]
fn test_new_timeout_is_armed_once() {
    let term = NativeTerminator::new();
    term.new_timeout(1_000_000);
    let first = term.timeout_at();
    assert!(first.is_some());
    term.new_timeout(1);
    assert_eq!(term.timeout_at(), first);
    assert!(!term.is_terminated());
}

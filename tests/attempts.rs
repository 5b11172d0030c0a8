use glitchgui::{DecodeAttempts, Step, RETRY_LIMIT};

#[test]
fn starts_with_no_failures() {
    assert_eq!(DecodeAttempts::new().tries, 0);
}

#[test]
fn decoded_buffer_is_shown() {
    let mut attempts = DecodeAttempts::new();
    assert_eq!(attempts.after_decode(true), Step::Show);
    assert_eq!(attempts.tries, 0);
}

#[test]
fn first_failure_is_retried() {
    let mut attempts = DecodeAttempts::new();
    assert_eq!(attempts.after_decode(false), Step::Retry);
    assert_eq!(attempts.tries, 1);
}

#[test]
fn gives_up_after_twenty_two_failed_decodes() {
    let mut attempts = DecodeAttempts::new();
    for k in 0..21u32 {
        assert_eq!(attempts.after_decode(false), Step::Retry);
        assert_eq!(attempts.tries, k + 1);
    }
    assert_eq!(attempts.after_decode(false), Step::GiveUp);
    assert_eq!(attempts.tries, 21);
    assert_eq!(RETRY_LIMIT, 20);
}

#[test]
fn success_after_failures_is_shown() {
    let mut attempts = DecodeAttempts::new();
    for _ in 0..5 {
        attempts.after_decode(false);
    }
    assert_eq!(attempts.after_decode(true), Step::Show);
    assert_eq!(attempts.tries, 5);
}

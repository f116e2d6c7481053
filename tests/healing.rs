use rocky::error::{ErrorCategory, JobError};
use rocky::healing::{DefaultErrorHealer, ErrorContext, ErrorHealer, HealingAction};

fn context(error: JobError, attempt: u32) -> ErrorContext {
    ErrorContext { job_id: "job".to_string(), error, attempt, max_attempts: 3 }
}

#[test]
fn non_recoverable_first_attempt_is_skipped() {
    let healer = DefaultErrorHealer::new(3);
    let ctx = context(JobError::element_not_found("#x"), 1);
    assert_eq!(healer.heal(&ctx), HealingAction::Skip);
}

#[test]
fn recoverable_without_delay_is_retried() {
    let healer = DefaultErrorHealer::new(3);
    let ctx = context(JobError::new(ErrorCategory::Network, "reset").recoverable(), 1);
    assert_eq!(healer.heal(&ctx), HealingAction::Retry);
}

#[test]
fn recoverable_with_delay_is_retried_after_it() {
    let healer = DefaultErrorHealer::new(3);
    let ctx = context(JobError::new(ErrorCategory::Network, "slow").with_retry_delay(500), 2);
    assert_eq!(healer.heal(&ctx), HealingAction::RetryAfter(500));
}

#[test]
fn third_attempt_is_skipped_whatever_the_error() {
    let healer = DefaultErrorHealer::new(3);
    assert_eq!(healer.heal(&context(JobError::fetch_error("down"), 3)), HealingAction::Skip);
    assert_eq!(healer.heal(&context(JobError::timeout_error("slow"), 3)), HealingAction::Skip);
    assert_eq!(healer.heal(&context(JobError::parsing_error("bad"), 3)), HealingAction::Skip);
}

#[test]
fn transient_constructors_are_recoverable_with_delays() {
    let f = JobError::fetch_error("down");
    assert_eq!((f.category, f.recoverable, f.retry_after_ms), (ErrorCategory::Network, true, Some(1000)));
    let t = JobError::timeout_error("slow");
    assert_eq!((t.category, t.recoverable, t.retry_after_ms), (ErrorCategory::Timeout, true, Some(2000)));
    let n = JobError::navigation_error("moved");
    assert_eq!((n.category, n.recoverable, n.retry_after_ms), (ErrorCategory::Navigation, true, Some(1500)));
}

#[test]
fn other_constructors_are_not_recoverable() {
    for e in [
        JobError::element_not_found("#x"),
        JobError::script_error("boom"),
        JobError::browser_error("crash"),
        JobError::parsing_error("bad"),
        JobError::captcha_detected("robot"),
    ] {
        assert!(!e.recoverable);
        assert_eq!(e.retry_after_ms, None);
    }
}

#[test]
fn element_not_found_names_the_selector() {
    let e = JobError::element_not_found("#btn");
    assert_eq!(e.category, ErrorCategory::ElementNotFound);
    assert_eq!(e.message, "Element not found: #btn");
    assert_eq!(e.context.text_field("selector").map(|s| s.as_str()), Some("#btn"));
}

#[test]
fn captcha_error_carries_a_hint() {
    let e = JobError::captcha_detected("robot");
    assert_eq!(e.category, ErrorCategory::Captcha);
    assert_eq!(e.context.text_field("hint").map(|s| s.as_str()), Some("CAPTCHA detected, job cannot proceed"));
}

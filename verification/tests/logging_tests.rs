use nemo_relay::logging::{
    logger_to_reinstall, proxy_install_outcome, DropNoticeRateLimiter, FlowError,
    DROP_REPORT_INTERVAL_MILLIS,
};

#[test]
fn drop_notice_rate_limiter_reports_immediately_then_once_per_interval() {
    let mut rate_limiter = DropNoticeRateLimiter::new();
    let interval = DROP_REPORT_INTERVAL_MILLIS;
    let first_timestamp = 10 * interval;

    assert!(rate_limiter.should_report(first_timestamp));
    assert!(!rate_limiter.should_report(first_timestamp + interval - 1));
    assert!(rate_limiter.should_report(first_timestamp + interval));
}

#[test]
fn rate_limiter_first_report_at_time_zero() {
    let mut limiter = DropNoticeRateLimiter::new();
    assert!(limiter.should_report(0));
    assert!(!limiter.should_report(0));
    assert!(!limiter.should_report(DROP_REPORT_INTERVAL_MILLIS - 1));
    assert!(limiter.should_report(DROP_REPORT_INTERVAL_MILLIS));
}

#[test]
fn rate_limiter_ignores_clock_going_backwards() {
    let mut limiter = DropNoticeRateLimiter::new();
    assert!(limiter.should_report(5_000_000));
    assert!(!limiter.should_report(1));
    assert!(!limiter.should_report(5_000_000 + DROP_REPORT_INTERVAL_MILLIS - 1));
    assert!(limiter.should_report(5_000_000 + DROP_REPORT_INTERVAL_MILLIS));
}

#[test]
fn rate_limiter_spacing_is_measured_from_the_last_report() {
    let mut limiter = DropNoticeRateLimiter::new();
    let i = DROP_REPORT_INTERVAL_MILLIS;
    assert!(limiter.should_report(100));
    assert!(!limiter.should_report(100 + i / 2));
    assert!(limiter.should_report(100 + i + 7));
    // The window restarts at the last report, not at the rejected call.
    assert!(!limiter.should_report(100 + 2 * i));
    assert!(limiter.should_report(100 + 2 * i + 7));
}

#[test]
fn proxy_install_succeeds_when_initialized_or_already_ours() {
    assert!(proxy_install_outcome(true, false).is_ok());
    assert!(proxy_install_outcome(true, true).is_ok());
    assert!(proxy_install_outcome(false, true).is_ok());
}

#[test]
fn proxy_install_fails_when_another_logger_owns_the_facade() {
    match proxy_install_outcome(false, false) {
        Err(FlowError::AlreadyExists(message)) => assert_eq!(
            message,
            "process-global log facade is already initialized by another logger; Relay logging cannot install its log proxy"
        ),
        Ok(()) => panic!("expected an error"),
    }
}

#[test]
fn reinstall_keeps_a_newer_logger() {
    assert_eq!(logger_to_reinstall(Some(2), 1), Some(2));
    assert_eq!(logger_to_reinstall(Some(1), 1), None);
    assert_eq!(logger_to_reinstall(None, 1), None);
}

use sidecar_launch::netprobe::lan_ip_or_loopback;
use sidecar_launch::netprobe::poll_decision;
use sidecar_launch::netprobe::readiness_deadline;
use sidecar_launch::netprobe::PollDecision;
use sidecar_launch::netprobe::CONNECT_ATTEMPT_TIMEOUT_MS;
use sidecar_launch::netprobe::READINESS_TIMEOUT_MS;
use sidecar_launch::netprobe::RETRY_SLEEP_MS;

#[test]
fn poll_reports_ready_on_connection_before_deadline() {
    assert!(matches!(poll_decision(300, 1000, true), PollDecision::Ready));
    assert!(matches!(poll_decision(999, 1000, true), PollDecision::Ready));
}

#[test]
fn poll_retries_while_deadline_not_passed() {
    assert!(matches!(poll_decision(0, 1000, false), PollDecision::RetryAfterSleep));
    assert!(matches!(poll_decision(999, 1000, false), PollDecision::RetryAfterSleep));
}

#[test]
fn poll_times_out_at_deadline_not_before() {
    assert!(matches!(poll_decision(1000, 1000, false), PollDecision::TimedOut));
    assert!(matches!(poll_decision(1500, 1000, true), PollDecision::TimedOut));
    assert!(!matches!(poll_decision(999, 1000, false), PollDecision::TimedOut));
}

#[test]
fn deadline_is_start_plus_timeout() {
    assert_eq!(readiness_deadline(5, 1000), 1005);
    assert_eq!(readiness_deadline(0, READINESS_TIMEOUT_MS), 10000);
}

#[test]
fn poll_constants() {
    assert_eq!(CONNECT_ATTEMPT_TIMEOUT_MS, 250);
    assert_eq!(RETRY_SLEEP_MS, 200);
    assert_eq!(READINESS_TIMEOUT_MS, 10000);
}

#[test]
fn lan_address_falls_back_to_loopback() {
    assert_eq!(lan_ip_or_loopback(None).as_str(), "127.0.0.1");
    assert_eq!(lan_ip_or_loopback(Some("10.0.0.7".to_string())).as_str(), "10.0.0.7");
}

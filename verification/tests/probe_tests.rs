use sidecar_supervisor::probe::{
    has_deadline_passed, health_url, probe_after, probe_at, PollResult, ProbeStep,
    POLL_INTERVAL_MS, READINESS_TIMEOUT_SECS,
};

#[test]
fn health_url_of_the_development_port() {
    assert_eq!(health_url(8765), "http://127.0.0.1:8765/health");
}

#[test]
fn health_url_of_edge_ports() {
    assert_eq!(health_url(0), "http://127.0.0.1:0/health");
    assert_eq!(health_url(80), "http://127.0.0.1:80/health");
    assert_eq!(health_url(65_535), "http://127.0.0.1:65535/health");
}

#[test]
fn probe_defaults() {
    assert_eq!(POLL_INTERVAL_MS, 200);
    assert_eq!(READINESS_TIMEOUT_SECS, 60);
}

#[test]
fn statuses_from_200_to_299_are_success() {
    assert!(PollResult::Status(200).succeeded());
    assert!(PollResult::Status(204).succeeded());
    assert!(PollResult::Status(299).succeeded());
}

#[test]
fn other_statuses_are_not_success() {
    for code in [0u16, 100, 199, 300, 301, 404, 500, 503, 999, 65_535] {
        assert!(!PollResult::Status(code).succeeded(), "status {}", code);
    }
}

#[test]
fn failed_connection_is_not_success() {
    assert!(!PollResult::Unreachable.succeeded());
}

#[test]
fn deadline_is_reached_at_the_timeout_and_not_before() {
    assert!(!has_deadline_passed(0, 60));
    assert!(!has_deadline_passed(59_999, 60));
    assert!(has_deadline_passed(60_000, 60));
    assert!(has_deadline_passed(60_001, 60));
}

#[test]
fn zero_timeout_has_passed_at_once() {
    assert!(has_deadline_passed(0, 0));
}

#[test]
fn huge_timeout_never_passes() {
    assert!(!has_deadline_passed(u64::MAX, u64::MAX));
    assert!(!has_deadline_passed(u64::MAX, u64::MAX / 1000 + 1));
    assert!(has_deadline_passed(u64::MAX, u64::MAX / 1000));
}

#[test]
fn probe_polls_before_the_deadline_and_gives_up_at_it() {
    assert_eq!(probe_at(0, 60), ProbeStep::Poll);
    assert_eq!(probe_at(59_800, 60), ProbeStep::Poll);
    assert_eq!(probe_at(60_000, 60), ProbeStep::TimedOut);
    assert_eq!(probe_at(0, 0), ProbeStep::TimedOut);
}

#[test]
fn probe_is_ready_on_success_and_pauses_otherwise() {
    assert_eq!(probe_after(PollResult::Status(200), 200), ProbeStep::Ready);
    assert_eq!(probe_after(PollResult::Status(503), 200), ProbeStep::Sleep { millis: 200 });
    assert_eq!(probe_after(PollResult::Unreachable, 250), ProbeStep::Sleep { millis: 250 });
}

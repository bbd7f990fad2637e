use std::time::Duration;

use health_check::config::{HealthConfig, UpstreamScheme};
use health_check::probe::{ProbeFailure, ProbeOutcome};

fn cfg(status: Vec<u16>) -> HealthConfig {
    HealthConfig::new(
        UpstreamScheme::Https,
        String::from("ping"),
        Duration::from_secs(30),
        status,
    )
}

#[test]
fn scheme_text() {
    assert_eq!(UpstreamScheme::Http.as_str(), "http");
    assert_eq!(UpstreamScheme::Https.as_str(), "https");
}

#[test]
fn config_keeps_what_it_was_given() {
    let c = cfg(vec![200, 204]);
    assert_eq!(c.scheme(), UpstreamScheme::Https);
    assert_eq!(c.path(), "ping");
    assert_eq!(c.interval(), Duration::from_secs(30));
    assert_eq!(c.status(), &[200u16, 204][..]);
    assert_eq!(c.max_in_flight(), None);
}

#[test]
fn cap_is_kept_beside_the_rest() {
    let c = cfg(vec![200, 204]).with_max_in_flight(8);
    assert_eq!(c.max_in_flight(), Some(8));
    assert_eq!(c.scheme(), UpstreamScheme::Https);
    assert_eq!(c.path(), "ping");
    assert_eq!(c.interval(), Duration::from_secs(30));
    assert_eq!(c.status(), &[200u16, 204][..]);
}

#[test]
fn without_cap_every_probe_may_be_in_flight() {
    let c = cfg(vec![200]);
    assert_eq!(c.in_flight_limit(0), 0);
    assert_eq!(c.in_flight_limit(1), 1);
    assert_eq!(c.in_flight_limit(250), 250);
}

#[test]
fn cap_limits_the_probes_in_flight() {
    let c = cfg(vec![200]).with_max_in_flight(4);
    assert_eq!(c.in_flight_limit(0), 0);
    assert_eq!(c.in_flight_limit(3), 3);
    assert_eq!(c.in_flight_limit(4), 4);
    assert_eq!(c.in_flight_limit(5), 4);
    assert_eq!(c.in_flight_limit(1000), 4);
}

#[test]
fn cap_of_zero_still_lets_one_probe_run() {
    let c = cfg(vec![200]).with_max_in_flight(0);
    assert_eq!(c.in_flight_limit(0), 0);
    assert_eq!(c.in_flight_limit(1), 1);
    assert_eq!(c.in_flight_limit(7), 1);
}

#[test]
fn accepts_exactly_the_listed_codes() {
    let c = cfg(vec![200, 204, 301]);
    assert!(c.accepts(200));
    assert!(c.accepts(204));
    assert!(c.accepts(301));
    assert!(!c.accepts(201));
    assert!(!c.accepts(500));
    assert!(!c.accepts(0));
}

#[test]
fn accepts_with_a_code_listed_twice() {
    let c = cfg(vec![200, 200]);
    assert!(c.accepts(200));
    assert!(!c.accepts(404));
}

#[test]
fn response_with_listed_status_is_healthy() {
    let c = cfg(vec![200]);
    assert!(ProbeOutcome::Status(200).is_healthy(&c));
}

#[test]
fn response_with_other_status_is_unhealthy() {
    let c = cfg(vec![200]);
    assert!(!ProbeOutcome::Status(503).is_healthy(&c));
    assert!(!ProbeOutcome::Status(201).is_healthy(&c));
}

#[test]
fn every_failure_is_unhealthy() {
    let c = cfg(vec![200]);
    assert!(!ProbeOutcome::Failed(ProbeFailure::InvalidTarget).is_healthy(&c));
    assert!(!ProbeOutcome::Failed(ProbeFailure::Transport).is_healthy(&c));
    assert!(!ProbeOutcome::Failed(ProbeFailure::TimedOut).is_healthy(&c));
    assert!(!ProbeOutcome::Failed(ProbeFailure::Aborted).is_healthy(&c));
}

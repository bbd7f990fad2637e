use std::time::Duration;

use health_check::config::{HealthConfig, UpstreamScheme};
use health_check::probe::{ProbeFailure, ProbeOutcome};
use health_check::sweep::{partition, targets, Partition};
use poem::http::uri::Authority;

fn node(text: &'static str) -> Authority {
    Authority::from_static(text)
}

fn only_200() -> HealthConfig {
    HealthConfig::new(
        UpstreamScheme::Http,
        String::from("health"),
        Duration::from_secs(10),
        vec![200],
    )
}

#[test]
fn two_healthy_one_bad_status() {
    let nodes = vec![node("a:80"), node("b:80"), node("c:80")];
    let outcomes = vec![
        ProbeOutcome::Status(200),
        ProbeOutcome::Status(200),
        ProbeOutcome::Status(503),
    ];
    let parts = partition(&nodes, &outcomes, &only_200());
    assert_eq!(parts.healthy, vec![node("a:80"), node("b:80")]);
    assert_eq!(parts.unhealthy, vec![node("c:80")]);
}

#[test]
fn single_node_timing_out_is_unhealthy() {
    let nodes = vec![node("a:80")];
    let outcomes = vec![ProbeOutcome::Failed(ProbeFailure::TimedOut)];
    let parts = partition(&nodes, &outcomes, &only_200());
    assert!(parts.healthy.is_empty());
    assert_eq!(parts.unhealthy, vec![node("a:80")]);
}

#[test]
fn every_node_lands_in_exactly_one_part() {
    let nodes = vec![node("a:1"), node("b:2"), node("c:3"), node("d:4"), node("e:5")];
    let outcomes = vec![
        ProbeOutcome::Status(204),
        ProbeOutcome::Failed(ProbeFailure::Transport),
        ProbeOutcome::Status(200),
        ProbeOutcome::Status(404),
        ProbeOutcome::Failed(ProbeFailure::InvalidTarget),
    ];
    let cfg = HealthConfig::new(
        UpstreamScheme::Https,
        String::new(),
        Duration::from_millis(500),
        vec![200, 204],
    );
    let parts = partition(&nodes, &outcomes, &cfg);
    assert_eq!(parts.healthy.len() + parts.unhealthy.len(), nodes.len());
    assert_eq!(parts.healthy, vec![node("a:1"), node("c:3")]);
    assert_eq!(parts.unhealthy, vec![node("b:2"), node("d:4"), node("e:5")]);
    for n in &nodes {
        assert_ne!(parts.healthy.contains(n), parts.unhealthy.contains(n));
    }
}

#[test]
fn node_without_outcome_is_unhealthy() {
    let nodes = vec![node("a:80"), node("b:80"), node("c:80")];
    let outcomes = vec![ProbeOutcome::Status(200)];
    let parts = partition(&nodes, &outcomes, &only_200());
    assert_eq!(parts.healthy, vec![node("a:80")]);
    assert_eq!(parts.unhealthy, vec![node("b:80"), node("c:80")]);
}

#[test]
fn aborted_probe_is_unhealthy_not_dropped() {
    let nodes = vec![node("a:80"), node("b:80")];
    let outcomes = vec![
        ProbeOutcome::Failed(ProbeFailure::Aborted),
        ProbeOutcome::Status(200),
    ];
    let parts = partition(&nodes, &outcomes, &only_200());
    assert_eq!(parts.healthy, vec![node("b:80")]);
    assert_eq!(parts.unhealthy, vec![node("a:80")]);
}

#[test]
fn outcomes_beyond_the_nodes_are_ignored() {
    let nodes = vec![node("a:80")];
    let outcomes = vec![ProbeOutcome::Status(500), ProbeOutcome::Status(200)];
    let parts = partition(&nodes, &outcomes, &only_200());
    assert!(parts.healthy.is_empty());
    assert_eq!(parts.unhealthy, vec![node("a:80")]);
}

#[test]
fn no_nodes_give_empty_parts() {
    let parts = partition(&[], &[], &only_200());
    assert!(parts.healthy.is_empty());
    assert!(parts.unhealthy.is_empty());
}

#[test]
fn node_listed_twice_is_placed_twice() {
    let nodes = vec![node("a:80"), node("a:80")];
    let outcomes = vec![ProbeOutcome::Status(200), ProbeOutcome::Status(500)];
    let parts = partition(&nodes, &outcomes, &only_200());
    assert_eq!(parts.healthy, vec![node("a:80")]);
    assert_eq!(parts.unhealthy, vec![node("a:80")]);
}

#[test]
fn empty_partition_has_no_nodes() {
    let parts = Partition::empty();
    assert!(parts.healthy().is_empty());
    assert!(parts.unhealthy().is_empty());
}

#[test]
fn partition_getters_return_the_parts() {
    let nodes = vec![node("a:80"), node("b:80")];
    let outcomes = vec![ProbeOutcome::Status(200), ProbeOutcome::Status(500)];
    let parts = partition(&nodes, &outcomes, &only_200());
    assert_eq!(parts.healthy(), &[node("a:80")][..]);
    assert_eq!(parts.unhealthy(), &[node("b:80")][..]);
}

#[test]
fn targets_has_one_address_per_node() {
    let nodes = vec![node("a.example:8080"), node("b.example")];
    let plan = targets(&nodes, &only_200());
    assert_eq!(plan.len(), 2);
    assert_eq!(
        plan[0].as_ref().unwrap().to_string(),
        "http://a.example:8080/health"
    );
    assert_eq!(plan[1].as_ref().unwrap().to_string(), "http://b.example/health");
}

#[test]
fn targets_keeps_the_place_of_a_node_without_address() {
    let cfg = HealthConfig::new(
        UpstreamScheme::Http,
        String::from("not a path"),
        Duration::from_secs(1),
        vec![200],
    );
    let nodes = vec![node("a:80"), node("b:80")];
    let plan = targets(&nodes, &cfg);
    assert_eq!(plan.len(), 2);
    assert_eq!(plan[0].as_ref().unwrap_err().target, "http://a:80/not a path");
    assert_eq!(plan[1].as_ref().unwrap_err().target, "http://b:80/not a path");
}

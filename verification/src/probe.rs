//! One probe: what came of a GET against one node, and what that says of
//! the node.

use vstd::prelude::*;
use crate::config::{ConfigView, HealthConfig};

verus! {

/// Why a probe brought no response.
#[derive(Clone, Copy, Debug, PartialEq, Eq, Structural)]
pub enum ProbeFailure {
    /// The scheme, authority and path form no URI.
    InvalidTarget,
    /// The connection could not be made or broke: refused, DNS, TLS.
    Transport,
    /// No response came within the time allowed.
    TimedOut,
    /// The task that ran the probe ended without a result.
    Aborted,
}

/// What came of one probe.
#[derive(Clone, Copy, Debug, PartialEq, Eq, Structural)]
pub enum ProbeOutcome {
    /// A response came back, with this status code.
    Status(u16),
    /// No response came back.
    Failed(ProbeFailure),
}

impl ProbeOutcome {
    /// A node is healthy exactly when its probe was answered with one of
    /// the acceptable status codes.
    pub open spec fn healthy(self, cfg: ConfigView) -> bool {
        match self {
            ProbeOutcome::Status(code) => cfg.accepts(code),
            ProbeOutcome::Failed(_) => false,
        }
    }

    /// Whether this outcome shows the node to be healthy under `cfg`.
    pub fn is_healthy(&self, cfg: &HealthConfig) -> (yes: bool)
        ensures
            yes == self.healthy(cfg@),
    {
        match self {
            ProbeOutcome::Status(code) => cfg.accepts(*code),
            ProbeOutcome::Failed(_) => false,
        }
    }
}

/// A failed probe never shows a node to be healthy, whatever the reason
/// and whatever the configuration accepts.
pub proof fn lemma_failure_is_unhealthy(reason: ProbeFailure, cfg: ConfigView)
    ensures
        !ProbeOutcome::Failed(reason).healthy(cfg),
{
}

} // verus!

//! Probe configuration shared, read-only, by every probe of a run.

use vstd::prelude::*;
use std::time::Duration;

verus! {

/// Scheme under which a backend node is probed.
#[derive(Clone, Copy, Debug, PartialEq, Eq, Structural)]
pub enum UpstreamScheme {
    Http,
    Https,
}

impl UpstreamScheme {
    /// The scheme as it is written in front of `://`.
    pub open spec fn text(self) -> Seq<char> {
        match self {
            UpstreamScheme::Http => "http"@,
            UpstreamScheme::Https => "https"@,
        }
    }

    /// The scheme as it is written in front of `://`.
    pub fn as_str(self) -> (r: &'static str)
        ensures
            r@ == self.text(),
    {
        match self {
            UpstreamScheme::Http => "http",
            UpstreamScheme::Https => "https",
        }
    }
}

/// What a `HealthConfig` holds.
pub struct ConfigView {
    pub scheme: UpstreamScheme,
    pub path: Seq<char>,
    pub interval: Duration,
    pub status: Seq<u16>,
    pub max_in_flight: Option<usize>,
}

impl ConfigView {
    /// Whether a response with this status code counts as healthy.
    pub open spec fn accepts(self, code: u16) -> bool {
        self.status.contains(code)
    }

    /// How many probes of a sweep of `nodes` nodes may be in flight at
    /// once: all of them where no cap is set or the cap is no smaller, else
    /// the cap, and one where the cap is zero.
    pub open spec fn in_flight_limit(self, nodes: nat) -> nat {
        match self.max_in_flight {
            None => nodes,
            Some(cap) => if cap >= nodes {
                nodes
            } else if cap == 0 {
                1
            } else {
                cap as nat
            },
        }
    }
}

/// How nodes are probed: where, how often, and which answers count as
/// healthy. Fixed once built.
pub struct HealthConfig {
    scheme: UpstreamScheme,
    path: String,
    interval: Duration,
    status: Vec<u16>,
    max_in_flight: Option<usize>,
}

impl View for HealthConfig {
    type V = ConfigView;

    closed spec fn view(&self) -> ConfigView {
        ConfigView {
            scheme: self.scheme,
            path: self.path@,
            interval: self.interval,
            status: self.status@,
            max_in_flight: self.max_in_flight,
        }
    }
}

impl HealthConfig {
    /// At least one status code is acceptable.
    #[verifier::type_invariant]
    closed spec fn wf(self) -> bool {
        self.status@.len() > 0
    }

    /// A configuration with the given scheme, path, polling period and
    /// acceptable status codes, of which there is at least one. It sets no
    /// cap on the probes in flight.
    pub fn new(scheme: UpstreamScheme, path: String, interval: Duration, status: Vec<u16>) -> (cfg:
        HealthConfig)
        requires
            status@.len() > 0,
        ensures
            cfg@ == (ConfigView {
                scheme,
                path: path@,
                interval,
                status: status@,
                max_in_flight: None,
            }),
    {
        HealthConfig { scheme, path, interval, status, max_in_flight: None }
    }

    /// The same configuration with a cap on the probes in flight.
    pub fn with_max_in_flight(self, cap: usize) -> (cfg: HealthConfig)
        ensures
            cfg@ == (ConfigView { max_in_flight: Some(cap), ..self@ }),
    {
        proof {
            use_type_invariant(&self);
        }
        HealthConfig {
            scheme: self.scheme,
            path: self.path,
            interval: self.interval,
            status: self.status,
            max_in_flight: Some(cap),
        }
    }

    /// The scheme of the probe requests.
    pub fn scheme(&self) -> (scheme: UpstreamScheme)
        ensures
            scheme == self@.scheme,
    {
        self.scheme
    }

    /// The path that is appended to a node's authority.
    pub fn path(&self) -> (path: &str)
        ensures
            path@ == self@.path,
    {
        self.path.as_str()
    }

    /// The period between two sweeps.
    pub fn interval(&self) -> (interval: Duration)
        ensures
            interval == self@.interval,
    {
        self.interval
    }

    /// The acceptable status codes, in the order they were given.
    pub fn status(&self) -> (status: &[u16])
        ensures
            status@ == self@.status,
            status@.len() > 0,
    {
        proof {
            use_type_invariant(self);
        }
        self.status.as_slice()
    }

    /// The cap on the probes in flight, if one is set.
    pub fn max_in_flight(&self) -> (cap: Option<usize>)
        ensures
            cap == self@.max_in_flight,
    {
        self.max_in_flight
    }

    /// How many probes of a sweep of `nodes` nodes may be in flight at once.
    pub fn in_flight_limit(&self, nodes: usize) -> (limit: usize)
        ensures
            limit == self@.in_flight_limit(nodes as nat),
    {
        match self.max_in_flight {
            None => nodes,
            Some(cap) => if cap >= nodes {
                nodes
            } else if cap == 0 {
                1
            } else {
                cap
            },
        }
    }

    /// Whether a response with this status code counts as healthy.
    pub fn accepts(&self, code: u16) -> (yes: bool)
        ensures
            yes == self@.accepts(code),
    {
        let mut i: usize = 0;
        while i < self.status.len()
            invariant
                i <= self.status@.len(),
                forall|k: int| 0 <= k < i ==> self.status@[k] != code,
            decreases self.status@.len() - i,
        {
            if self.status[i] == code {
                return true;
            }
            i += 1;
        }
        false
    }
}

/// The limit is never more than the nodes, never more than a cap of one
/// or more, and leaves room for a probe as long as there is a node.
pub proof fn lemma_in_flight_limit_bounds(cfg: ConfigView, nodes: nat)
    ensures
        cfg.in_flight_limit(nodes) <= nodes,
        nodes > 0 ==> cfg.in_flight_limit(nodes) >= 1,
        cfg.max_in_flight is None ==> cfg.in_flight_limit(nodes) == nodes,
        cfg.max_in_flight matches Some(cap) ==> cap > 0 ==> cfg.in_flight_limit(nodes) <= cap,
{
}

} // verus!

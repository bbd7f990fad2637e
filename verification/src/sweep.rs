//! One sweep: every node is probed once, and the nodes are parted into
//! those found healthy and those found unhealthy.
//!
//! The probes themselves run elsewhere. This module says where each probe
//! goes and what the outcomes, once gathered, make of the nodes.

use vstd::prelude::*;
use poem::http::uri::Authority;
use poem::http::Uri;
use crate::config::{ConfigView, HealthConfig};
use crate::probe::ProbeOutcome;
use crate::target::{addressed, create_uri, InvalidTarget};

verus! {

/// The nodes found healthy and those found unhealthy by one sweep.
pub struct Partition {
    pub healthy: Vec<Authority>,
    pub unhealthy: Vec<Authority>,
}

/// What a `Partition` holds.
pub struct PartitionView {
    pub healthy: Seq<Authority>,
    pub unhealthy: Seq<Authority>,
}

impl View for Partition {
    type V = PartitionView;

    open spec fn view(&self) -> PartitionView {
        PartitionView { healthy: self.healthy@, unhealthy: self.unhealthy@ }
    }
}

/// Whether the node at `i` is found healthy: its probe's outcome is at `i`
/// and is a response with an acceptable status. A node without an outcome
/// is not.
pub open spec fn verdict(outcomes: Seq<ProbeOutcome>, cfg: ConfigView, i: int) -> bool {
    0 <= i < outcomes.len() && outcomes[i].healthy(cfg)
}

/// The nodes whose verdict is `want`, in the order of `nodes`.
pub open spec fn found(
    nodes: Seq<Authority>,
    outcomes: Seq<ProbeOutcome>,
    cfg: ConfigView,
    want: bool,
) -> Seq<Authority>
    decreases nodes.len(),
{
    if nodes.len() == 0 {
        Seq::empty()
    } else {
        let before = found(nodes.drop_last(), outcomes, cfg, want);
        if verdict(outcomes, cfg, nodes.len() - 1) == want {
            before.push(nodes.last())
        } else {
            before
        }
    }
}

/// The partition that the outcomes make of the nodes.
pub open spec fn parted(nodes: Seq<Authority>, outcomes: Seq<ProbeOutcome>, cfg: ConfigView) -> PartitionView {
    PartitionView {
        healthy: found(nodes, outcomes, cfg, true),
        unhealthy: found(nodes, outcomes, cfg, false),
    }
}

impl Partition {
    /// The partition before any sweep: no node is known to be healthy, and
    /// none to be unhealthy.
    pub fn empty() -> (p: Partition)
        ensures
            p@.healthy.len() == 0,
            p@.unhealthy.len() == 0,
    {
        Partition { healthy: Vec::new(), unhealthy: Vec::new() }
    }

    /// The nodes found healthy.
    pub fn healthy(&self) -> (nodes: &[Authority])
        ensures
            nodes@ == self@.healthy,
    {
        self.healthy.as_slice()
    }

    /// The nodes found unhealthy.
    pub fn unhealthy(&self) -> (nodes: &[Authority])
        ensures
            nodes@ == self@.unhealthy,
    {
        self.unhealthy.as_slice()
    }
}

/// Parts the nodes by the outcomes of their probes: the outcome at `i` is
/// that of the node at `i`, and a node without one is unhealthy. The nodes
/// of each part stand in the order of `nodes`.
pub fn partition(nodes: &[Authority], outcomes: &[ProbeOutcome], cfg: &HealthConfig) -> (p: Partition)
    ensures
        p@ == parted(nodes@, outcomes@, cfg@),
{
    let mut healthy: Vec<Authority> = Vec::new();
    let mut unhealthy: Vec<Authority> = Vec::new();
    let mut i: usize = 0;
    while i < nodes.len()
        invariant
            i <= nodes@.len(),
            healthy@ == found(nodes@.take(i as int), outcomes@, cfg@, true),
            unhealthy@ == found(nodes@.take(i as int), outcomes@, cfg@, false),
        decreases nodes@.len() - i,
    {
        let good = i < outcomes.len() && outcomes[i].is_healthy(cfg);
        proof {
            let next = nodes@.take(i + 1);
            assert(next.drop_last() == nodes@.take(i as int));
            assert(next.last() == nodes@[i as int]);
        }
        if good {
            healthy.push(nodes[i].clone());
        } else {
            unhealthy.push(nodes[i].clone());
        }
        i += 1;
    }
    proof {
        assert(nodes@.take(i as int) == nodes@);
    }
    Partition { healthy, unhealthy }
}

/// Whether `plan` says where each node is to be probed: it holds at `i` the
/// address of the node at `i`.
pub open spec fn planned(
    nodes: Seq<Authority>,
    cfg: ConfigView,
    plan: Seq<Result<Uri, InvalidTarget>>,
) -> bool {
    &&& plan.len() == nodes.len()
    &&& forall|i: int| 0 <= i < nodes.len() ==> addressed(nodes[i], cfg, #[trigger] plan[i])
}

/// Where each node is to be probed: at `i` the URI for the node at `i`, or
/// the text that is no URI. A node of the second kind needs no request: its
/// probe has failed.
pub fn targets(nodes: &[Authority], cfg: &HealthConfig) -> (plan: Vec<Result<Uri, InvalidTarget>>)
    ensures
        planned(nodes@, cfg@, plan@),
{
    let mut plan: Vec<Result<Uri, InvalidTarget>> = Vec::new();
    let mut i: usize = 0;
    while i < nodes.len()
        invariant
            i <= nodes@.len(),
            plan@.len() == i,
            forall|k: int| 0 <= k < i ==> addressed(nodes@[k], cfg@, #[trigger] plan@[k]),
        decreases nodes@.len() - i,
    {
        plan.push(create_uri(&nodes[i], cfg));
        i += 1;
    }
    plan
}

/// A part never holds more nodes than there are.
pub proof fn lemma_found_len(nodes: Seq<Authority>, outcomes: Seq<ProbeOutcome>, cfg: ConfigView)
    ensures
        found(nodes, outcomes, cfg, true).len() + found(nodes, outcomes, cfg, false).len()
            == nodes.len(),
    decreases nodes.len(),
{
    if nodes.len() > 0 {
        lemma_found_len(nodes.drop_last(), outcomes, cfg);
    }
}

/// A part holds exactly the nodes that stand at a place with its verdict.
pub proof fn lemma_found_contains(
    nodes: Seq<Authority>,
    outcomes: Seq<ProbeOutcome>,
    cfg: ConfigView,
    want: bool,
    node: Authority,
)
    ensures
        found(nodes, outcomes, cfg, want).contains(node) <==> exists|i: int|
            0 <= i < nodes.len() && nodes[i] == node && verdict(outcomes, cfg, i) == want,
    decreases nodes.len(),
{
    let part = found(nodes, outcomes, cfg, want);
    if nodes.len() > 0 {
        let front = nodes.drop_last();
        let before = found(front, outcomes, cfg, want);
        let last = nodes.len() - 1;
        lemma_found_contains(front, outcomes, cfg, want, node);
        if part.contains(node) {
            let j = choose|j: int| 0 <= j < part.len() && part[j] == node;
            if j < before.len() {
                assert(before[j] == node);
                assert(before.contains(node));
                let i = choose|i: int|
                    0 <= i < front.len() && front[i] == node && verdict(outcomes, cfg, i) == want;
                assert(nodes[i] == node);
            } else {
                assert(nodes[last] == node && verdict(outcomes, cfg, last) == want);
            }
        }
        if exists|i: int|
            0 <= i < nodes.len() && nodes[i] == node && verdict(outcomes, cfg, i) == want {
            let i = choose|i: int|
                0 <= i < nodes.len() && nodes[i] == node && verdict(outcomes, cfg, i) == want;
            if i < last {
                assert(front[i] == node);
                assert(before.contains(node));
                let j = choose|j: int| 0 <= j < before.len() && before[j] == node;
                assert(part[j] == node);
            } else {
                assert(part[part.len() - 1] == node);
            }
        }
    }
}

/// No node is lost and none is made up: the two parts together hold each
/// node as often as the input does.
pub proof fn lemma_parts_cover(nodes: Seq<Authority>, outcomes: Seq<ProbeOutcome>, cfg: ConfigView)
    ensures
        parted(nodes, outcomes, cfg).healthy.len() + parted(nodes, outcomes, cfg).unhealthy.len()
            == nodes.len(),
        parted(nodes, outcomes, cfg).healthy.to_multiset().add(
            parted(nodes, outcomes, cfg).unhealthy.to_multiset(),
        ) == nodes.to_multiset(),
        forall|node: Authority|
            nodes.contains(node) <==> parted(nodes, outcomes, cfg).healthy.contains(node) || parted(
                nodes,
                outcomes,
                cfg,
            ).unhealthy.contains(node),
    decreases nodes.len(),
{
    broadcast use vstd::seq_lib::group_to_multiset_ensures;

    lemma_found_len(nodes, outcomes, cfg);
    let healthy = found(nodes, outcomes, cfg, true);
    let unhealthy = found(nodes, outcomes, cfg, false);
    if nodes.len() == 0 {
        assert(healthy.to_multiset().add(unhealthy.to_multiset()) =~= nodes.to_multiset());
    } else {
        let front = nodes.drop_last();
        lemma_parts_cover(front, outcomes, cfg);
        assert(nodes == front.push(nodes.last()));
        assert(healthy.to_multiset().add(unhealthy.to_multiset()) =~= nodes.to_multiset());
    }
    assert forall|node: Authority|
        nodes.contains(node) <==> healthy.contains(node) || unhealthy.contains(node) by {
        lemma_found_contains(nodes, outcomes, cfg, true, node);
        lemma_found_contains(nodes, outcomes, cfg, false, node);
        if nodes.contains(node) {
            let i = choose|i: int| 0 <= i < nodes.len() && nodes[i] == node;
            assert(verdict(outcomes, cfg, i) == true || verdict(outcomes, cfg, i) == false);
        }
    }
}

/// Where no node is listed twice, no node is in both parts.
pub proof fn lemma_parts_disjoint(
    nodes: Seq<Authority>,
    outcomes: Seq<ProbeOutcome>,
    cfg: ConfigView,
)
    requires
        nodes.no_duplicates(),
    ensures
        forall|node: Authority|
            !(parted(nodes, outcomes, cfg).healthy.contains(node) && parted(
                nodes,
                outcomes,
                cfg,
            ).unhealthy.contains(node)),
        parted(nodes, outcomes, cfg).healthy.no_duplicates(),
        parted(nodes, outcomes, cfg).unhealthy.no_duplicates(),
{
    let healthy = found(nodes, outcomes, cfg, true);
    let unhealthy = found(nodes, outcomes, cfg, false);
    assert forall|node: Authority| !(healthy.contains(node) && unhealthy.contains(node)) by {
        lemma_found_contains(nodes, outcomes, cfg, true, node);
        lemma_found_contains(nodes, outcomes, cfg, false, node);
    }
    lemma_found_no_duplicates(nodes, outcomes, cfg, true);
    lemma_found_no_duplicates(nodes, outcomes, cfg, false);
}

/// A part of nodes that are listed once lists each of its nodes once.
pub proof fn lemma_found_no_duplicates(
    nodes: Seq<Authority>,
    outcomes: Seq<ProbeOutcome>,
    cfg: ConfigView,
    want: bool,
)
    requires
        nodes.no_duplicates(),
    ensures
        found(nodes, outcomes, cfg, want).no_duplicates(),
    decreases nodes.len(),
{
    if nodes.len() > 0 {
        let front = nodes.drop_last();
        let before = found(front, outcomes, cfg, want);
        lemma_found_no_duplicates(front, outcomes, cfg, want);
        lemma_found_contains(front, outcomes, cfg, want, nodes.last());
        if before.contains(nodes.last()) {
            let i = choose|i: int| 0 <= i < front.len() && front[i] == nodes.last();
            assert(nodes[i] == nodes[nodes.len() - 1]);
        }
    }
}

/// A node goes where its probe puts it: the node at `i` is among the
/// healthy if its outcome is a response with an acceptable status, and
/// among the unhealthy if it is anything else or is missing. Where no node
/// is listed twice it is in that part only.
pub proof fn lemma_node_placed(
    nodes: Seq<Authority>,
    outcomes: Seq<ProbeOutcome>,
    cfg: ConfigView,
    i: int,
)
    requires
        0 <= i < nodes.len(),
    ensures
        verdict(outcomes, cfg, i) ==> parted(nodes, outcomes, cfg).healthy.contains(nodes[i]),
        !verdict(outcomes, cfg, i) ==> parted(nodes, outcomes, cfg).unhealthy.contains(nodes[i]),
        nodes.no_duplicates() && verdict(outcomes, cfg, i) ==> !parted(
            nodes,
            outcomes,
            cfg,
        ).unhealthy.contains(nodes[i]),
        nodes.no_duplicates() && !verdict(outcomes, cfg, i) ==> !parted(
            nodes,
            outcomes,
            cfg,
        ).healthy.contains(nodes[i]),
{
    lemma_found_contains(nodes, outcomes, cfg, true, nodes[i]);
    lemma_found_contains(nodes, outcomes, cfg, false, nodes[i]);
    if nodes.no_duplicates() {
        lemma_parts_disjoint(nodes, outcomes, cfg);
    }
}

} // verus!

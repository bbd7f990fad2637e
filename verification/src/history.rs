//! What holds of the checker over every run of events.

use vstd::prelude::*;
use poem::http::uri::Authority;
use crate::checker::{CheckerView, Phase, Signal};
use crate::config::ConfigView;
use crate::sweep::{lemma_parts_cover, parted};

verus! {

/// The state that the signals, taken in order, lead to from `start`.
pub open spec fn run(start: CheckerView, signals: Seq<Signal>) -> CheckerView
    decreases signals.len(),
{
    if signals.len() == 0 {
        start
    } else {
        run(start, signals.drop_last()).next(signals.last())
    }
}

/// How many sweeps the signals start on the way from `start`.
pub open spec fn started(start: CheckerView, signals: Seq<Signal>) -> nat
    decreases signals.len(),
{
    if signals.len() == 0 {
        0
    } else {
        let before = signals.drop_last();
        started(start, before) + if run(start, before).starts_sweep(signals.last()) {
            1nat
        } else {
            0nat
        }
    }
}

/// How many sweeps the signals end on the way from `start`.
pub open spec fn ended(start: CheckerView, signals: Seq<Signal>) -> nat
    decreases signals.len(),
{
    if signals.len() == 0 {
        0
    } else {
        let before = signals.drop_last();
        ended(start, before) + if run(start, before).ends_sweep(signals.last()) {
            1nat
        } else {
            0nat
        }
    }
}

/// How many sweeps are in flight in a state.
pub open spec fn in_flight(state: CheckerView) -> nat {
    if state.phase == Phase::Sweeping {
        1
    } else {
        0
    }
}

/// Nodes and configuration are fixed: no run of signals changes them.
pub proof fn lemma_nodes_and_config_fixed(start: CheckerView, signals: Seq<Signal>)
    ensures
        run(start, signals).nodes == start.nodes,
        run(start, signals).cfg == start.cfg,
    decreases signals.len(),
{
    if signals.len() > 0 {
        lemma_nodes_and_config_fixed(start, signals.drop_last());
    }
}

/// At most one sweep is in flight, however fast the ticks come: a tick
/// while a sweep is in flight changes nothing, and over any run the sweeps
/// started and not yet ended are those in flight at its end, one or none.
pub proof fn lemma_one_sweep_at_a_time(start: CheckerView, signals: Seq<Signal>)
    ensures
        start.phase == Phase::Sweeping ==> start.next(Signal::Tick) == start,
        in_flight(start) + started(start, signals) == ended(start, signals) + in_flight(
            run(start, signals),
        ),
        in_flight(run(start, signals)) <= 1,
    decreases signals.len(),
{
    if signals.len() > 0 {
        lemma_one_sweep_at_a_time(start, signals.drop_last());
    }
}

/// The partition that queries see changes at one kind of step only: when
/// the outcomes of the sweep in flight arrive. It is then replaced whole by
/// the partition that those outcomes make of the nodes. Any other step, one
/// taken while a sweep is in flight too, leaves it as it was.
pub proof fn lemma_partition_replaced_whole(state: CheckerView, signal: Signal)
    ensures
        match signal {
            Signal::SweepDone(outcomes) if state.phase == Phase::Sweeping => state.next(
                signal,
            ).partition() == parted(state.nodes, outcomes, state.cfg),
            _ => state.next(signal).partition() == state.partition(),
        },
{
}

/// While no sweep completes, queries see the partition they saw before:
/// a run without outcomes of a sweep leaves the partition unchanged.
pub proof fn lemma_partition_kept(start: CheckerView, signals: Seq<Signal>)
    requires
        forall|i: int| 0 <= i < signals.len() ==> !(signals[i] is SweepDone),
    ensures
        run(start, signals).partition() == start.partition(),
        run(start, signals).last == start.last,
    decreases signals.len(),
{
    if signals.len() > 0 {
        lemma_partition_kept(start, signals.drop_last());
    }
}

/// Before the first sweep completes no node counts as healthy: from a new
/// checker, a run without outcomes of a sweep ends with empty parts.
pub proof fn lemma_empty_before_first_sweep(
    nodes: Seq<Authority>,
    cfg: ConfigView,
    signals: Seq<Signal>,
)
    requires
        forall|i: int| 0 <= i < signals.len() ==> !(signals[i] is SweepDone),
    ensures
        run(CheckerView::initial(nodes, cfg), signals).partition().healthy.len() == 0,
        run(CheckerView::initial(nodes, cfg), signals).partition().unhealthy.len() == 0,
{
    lemma_partition_kept(CheckerView::initial(nodes, cfg), signals);
}

/// From a new checker, every state is either before the first completed
/// sweep, with empty parts, or has parts that together hold each node as
/// often as the node list does.
pub proof fn lemma_partition_covers_nodes(
    nodes: Seq<Authority>,
    cfg: ConfigView,
    signals: Seq<Signal>,
)
    ensures
        ({
            let state = run(CheckerView::initial(nodes, cfg), signals);
            let parts = state.partition();
            if state.last is None {
                parts.healthy.len() == 0 && parts.unhealthy.len() == 0
            } else {
                &&& parts.healthy.len() + parts.unhealthy.len() == nodes.len()
                &&& parts.healthy.to_multiset().add(parts.unhealthy.to_multiset())
                    == nodes.to_multiset()
            }
        }),
{
    let start = CheckerView::initial(nodes, cfg);
    let state = run(start, signals);
    lemma_nodes_and_config_fixed(start, signals);
    if state.last is Some {
        lemma_parts_cover(nodes, state.last->Some_0, cfg);
    }
}

/// Once stopped, the checker stays stopped: no signal changes its state and
/// none starts a sweep.
pub proof fn lemma_stopped_is_final(start: CheckerView, signals: Seq<Signal>)
    requires
        start.phase == Phase::Stopped,
    ensures
        run(start, signals) == start,
        started(start, signals) == 0,
    decreases signals.len(),
{
    if signals.len() > 0 {
        lemma_stopped_is_final(start, signals.drop_last());
    }
}

/// The closing of the channel stops the checker from any state.
pub proof fn lemma_close_stops(state: CheckerView)
    ensures
        state.next(Signal::Closed).phase == Phase::Stopped,
{
}

} // verus!

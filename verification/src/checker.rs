//! The checker: the single owner of the node list and of the partition
//! that queries are answered from.
//!
//! The checker does no waiting of its own. Whoever runs it hands it one
//! event at a time (a tick of the timer, the outcomes of a sweep, a command,
//! the closing of the command channel) and carries out the action it
//! answers with.

use vstd::prelude::*;
use poem::http::uri::Authority;
use poem::http::Uri;
use crate::config::{ConfigView, HealthConfig};
use crate::probe::ProbeOutcome;
use crate::sweep::{parted, partition, planned, targets, Partition, PartitionView};
use crate::target::InvalidTarget;

verus! {

/// Where the checker stands.
#[derive(Clone, Copy, Debug, PartialEq, Eq, Structural)]
pub enum Phase {
    /// Waiting for the next tick or command.
    Idle,
    /// A sweep is in flight.
    Sweeping,
    /// The command channel is closed: nothing more will be done.
    Stopped,
}

/// A query to the checker.
pub enum Command<F> {
    /// Choose a node among the healthy ones with this selector.
    Get(F),
}

/// What can happen to the checker.
pub enum Event<F> {
    /// The polling period has passed.
    Tick,
    /// The sweep in flight has an outcome for every probe it made; the
    /// outcome at `i` is that of the node at `i`.
    SweepDone(Vec<ProbeOutcome>),
    /// A command has arrived.
    Command(Command<F>),
    /// Every handle is gone and the command channel is closed.
    Closed,
}

/// An event as far as the checker's state depends on it.
pub enum Signal {
    Tick,
    SweepDone(Seq<ProbeOutcome>),
    Query,
    Closed,
}

impl<F> Event<F> {
    /// The signal that this event is.
    pub open spec fn signal(self) -> Signal {
        match self {
            Event::Tick => Signal::Tick,
            Event::SweepDone(outcomes) => Signal::SweepDone(outcomes@),
            Event::Command(_) => Signal::Query,
            Event::Closed => Signal::Closed,
        }
    }
}

/// What the checker asks of whoever runs it.
pub enum Action {
    /// Nothing: wait for the next event.
    Wait,
    /// Start a sweep: probe the node at `i` at the address `plan[i]`, with
    /// no more than `max_in_flight` probes in flight at once, and report
    /// the outcomes with `Event::SweepDone`.
    Sweep { plan: Vec<Result<Uri, InvalidTarget>>, max_in_flight: usize },
    /// Send this answer to the command.
    Reply(Option<Authority>),
    /// Stop; `abandon_sweep` says that a sweep is in flight, whose probes
    /// are to be dropped rather than waited for.
    Stop { abandon_sweep: bool },
}

/// The checker's state: its nodes and configuration, where it stands, and
/// the outcomes of the last completed sweep, if one has completed.
pub struct CheckerView {
    pub nodes: Seq<Authority>,
    pub cfg: ConfigView,
    pub phase: Phase,
    pub last: Option<Seq<ProbeOutcome>>,
}

impl CheckerView {
    /// The state of a checker that has just been made.
    pub open spec fn initial(nodes: Seq<Authority>, cfg: ConfigView) -> CheckerView {
        CheckerView { nodes, cfg, phase: Phase::Idle, last: None }
    }

    /// The partition that queries are answered from: that of the last
    /// completed sweep, and before the first one the empty partition.
    pub open spec fn partition(self) -> PartitionView {
        match self.last {
            None => PartitionView { healthy: Seq::empty(), unhealthy: Seq::empty() },
            Some(outcomes) => parted(self.nodes, outcomes, self.cfg),
        }
    }

    /// Whether the signal makes the checker start a sweep: a tick while it
    /// is idle.
    pub open spec fn starts_sweep(self, signal: Signal) -> bool {
        self.phase == Phase::Idle && signal is Tick
    }

    /// Whether the signal ends the sweep in flight: its outcomes arrive, or
    /// the channel closes and the sweep is abandoned.
    pub open spec fn ends_sweep(self, signal: Signal) -> bool {
        self.phase == Phase::Sweeping && (signal is SweepDone || signal is Closed)
    }

    /// The state after the signal.
    pub open spec fn next(self, signal: Signal) -> CheckerView {
        match signal {
            Signal::Tick => if self.phase == Phase::Idle {
                CheckerView { phase: Phase::Sweeping, ..self }
            } else {
                self
            },
            Signal::SweepDone(outcomes) => if self.phase == Phase::Sweeping {
                CheckerView { phase: Phase::Idle, last: Some(outcomes), ..self }
            } else {
                self
            },
            Signal::Query => self,
            Signal::Closed => CheckerView { phase: Phase::Stopped, ..self },
        }
    }
}

/// Whether `reply` is what `selector` may return for the healthy nodes
/// `healthy`.
pub open spec fn selected<F: Fn(&[Authority]) -> Option<Authority>>(
    selector: F,
    healthy: Seq<Authority>,
    reply: Option<Authority>,
) -> bool {
    exists|nodes: &[Authority]| nodes@ == healthy && call_ensures(selector, (nodes,), reply)
}

/// Whether `selector` may be called on the healthy nodes `healthy`.
pub open spec fn selectable<F: Fn(&[Authority]) -> Option<Authority>>(
    selector: F,
    healthy: Seq<Authority>,
) -> bool {
    forall|nodes: &[Authority]| nodes@ == healthy ==> call_requires(selector, (nodes,))
}

/// The partition in use together with the outcomes it was made from.
struct Served {
    partition: Partition,
    basis: Ghost<Option<Seq<ProbeOutcome>>>,
}

/// The health checker of a list of nodes.
pub struct HealthCheck {
    nodes: Vec<Authority>,
    cfg: HealthConfig,
    phase: Phase,
    served: Served,
}

impl View for HealthCheck {
    type V = CheckerView;

    closed spec fn view(&self) -> CheckerView {
        CheckerView {
            nodes: self.nodes@,
            cfg: self.cfg@,
            phase: self.phase,
            last: self.served.basis@,
        }
    }
}

impl HealthCheck {
    /// The partition held is the one that the last completed sweep gave.
    #[verifier::type_invariant]
    closed spec fn wf(self) -> bool {
        self.served.partition@ == self@.partition()
    }

    /// A checker for `nodes` under `cfg`: idle, with no sweep made yet.
    pub fn new(nodes: Vec<Authority>, cfg: HealthConfig) -> (checker: HealthCheck)
        ensures
            checker@ == CheckerView::initial(nodes@, cfg@),
    {
        let served = Served { partition: Partition::empty(), basis: Ghost(None) };
        assert(served.partition@.healthy =~= Seq::empty());
        assert(served.partition@.unhealthy =~= Seq::empty());
        HealthCheck { nodes, cfg, phase: Phase::Idle, served }
    }

    /// Where the checker stands.
    pub fn phase(&self) -> (phase: Phase)
        ensures
            phase == self@.phase,
    {
        self.phase
    }

    /// The nodes that are checked.
    pub fn nodes(&self) -> (nodes: &[Authority])
        ensures
            nodes@ == self@.nodes,
    {
        self.nodes.as_slice()
    }

    /// The configuration that the nodes are checked under.
    pub fn config(&self) -> (cfg: &HealthConfig)
        ensures
            cfg@ == self@.cfg,
    {
        &self.cfg
    }

    /// The partition that queries are answered from.
    pub fn partition(&self) -> (p: &Partition)
        ensures
            p@ == self@.partition(),
    {
        proof {
            use_type_invariant(self);
        }
        &self.served.partition
    }

    /// Answers a query: what `selector` chooses among the nodes that the
    /// last completed sweep found healthy, and nothing once the checker has
    /// stopped.
    pub fn get<F: Fn(&[Authority]) -> Option<Authority>>(&self, selector: F) -> (reply: Option<
        Authority,
    >)
        requires
            self@.phase != Phase::Stopped ==> selectable(selector, self@.partition().healthy),
        ensures
            self@.phase == Phase::Stopped ==> reply is None,
            self@.phase != Phase::Stopped ==> selected(selector, self@.partition().healthy, reply),
    {
        proof {
            use_type_invariant(self);
        }
        match self.phase {
            Phase::Stopped => None,
            _ => {
                let healthy = self.served.partition.healthy();
                selector(healthy)
            },
        }
    }

    /// Takes one event: moves to the next state and says what is to be done.
    pub fn step<F: Fn(&[Authority]) -> Option<Authority>>(&mut self, event: Event<F>) -> (action:
        Action)
        requires
            event matches Event::Command(Command::Get(selector)) ==> old(self)@.phase
                != Phase::Stopped ==> selectable(selector, old(self)@.partition().healthy),
        ensures
            final(self)@ == old(self)@.next(event.signal()),
            match event {
                Event::Tick => if old(self)@.phase == Phase::Idle {
                    action matches Action::Sweep { plan, max_in_flight } && planned(
                        old(self)@.nodes,
                        old(self)@.cfg,
                        plan@,
                    ) && max_in_flight == old(self)@.cfg.in_flight_limit(old(self)@.nodes.len())
                } else {
                    action is Wait
                },
                Event::SweepDone(_) => action is Wait,
                Event::Command(Command::Get(selector)) => action matches Action::Reply(reply) && (
                if old(self)@.phase == Phase::Stopped {
                    reply is None
                } else {
                    selected(selector, old(self)@.partition().healthy, reply)
                }),
                Event::Closed => action matches Action::Stop { abandon_sweep } && abandon_sweep == (
                old(self)@.phase == Phase::Sweeping),
            },
    {
        proof {
            use_type_invariant(&*self);
        }
        match event {
            Event::Tick => match self.phase {
                Phase::Idle => {
                    let plan = targets(self.nodes.as_slice(), &self.cfg);
                    let max_in_flight = self.cfg.in_flight_limit(self.nodes.len());
                    self.phase = Phase::Sweeping;
                    Action::Sweep { plan, max_in_flight }
                },
                _ => Action::Wait,
            },
            Event::SweepDone(outcomes) => match self.phase {
                Phase::Sweeping => {
                    let fresh = partition(self.nodes.as_slice(), outcomes.as_slice(), &self.cfg);
                    self.served = Served { partition: fresh, basis: Ghost(Some(outcomes@)) };
                    self.phase = Phase::Idle;
                    Action::Wait
                },
                _ => Action::Wait,
            },
            Event::Command(Command::Get(selector)) => Action::Reply(self.get(selector)),
            Event::Closed => {
                let abandon_sweep = self.phase == Phase::Sweeping;
                self.phase = Phase::Stopped;
                Action::Stop { abandon_sweep }
            },
        }
    }
}

} // verus!

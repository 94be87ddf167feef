//! The wake-and-connect state machine: one connection's attempt to reach
//! its target, waking the target once when the direct attempt fails and
//! then polling a bounded number of times.
//!
//! The machine is pure: the surrounding process performs the action the
//! current phase calls for (a timed connect, a wake broadcast, a one-second
//! sleep followed by a timed connect) and reports the outcome back through
//! [`Connector::step`]. Every transition, and every whole run, is pinned
//! here.

use vstd::prelude::*;

verus! {

/// Why a connection attempt ended without a socket.
#[derive(Clone, Copy, Debug, PartialEq, Eq, Structural)]
pub enum ConnectFailure {
    /// The wake broadcast itself could not be transmitted; this is
    /// terminal and never retried.
    WakeSendFailed,
    /// The direct attempt and all `awake_delay` post-wake attempts failed.
    Exhausted,
}

/// Where one connection attempt stands.
#[derive(Clone, Copy, Debug, PartialEq, Eq, Structural)]
pub enum WakePhase {
    /// Before the direct connect attempt (2-second timeout).
    Direct,
    /// The direct attempt failed; the wake broadcast is due next.
    Waking,
    /// The wake was transmitted; `remaining` timed attempts (each after a
    /// one-second sleep, with a 1-second timeout) are still allowed.
    Polling { remaining: u64 },
    /// A connect attempt succeeded; the outbound socket is live.
    Connected,
    /// The attempt ended without a socket.
    Failed { reason: ConnectFailure },
}

/// The outcome of the one outside action the current phase called for.
#[derive(Clone, Copy, Debug, PartialEq, Eq, Structural)]
pub enum WakeEvent {
    /// A timed connect attempt returned: `true` means a socket was
    /// obtained.
    Connect { ok: bool },
    /// The wake broadcast was attempted: `true` means the datagram was
    /// transmitted.
    Wake { ok: bool },
}

/// The action the driving process must perform next.
#[derive(Clone, Copy, Debug, PartialEq, Eq, Structural)]
pub enum WakeAction {
    /// Attempt a direct connect to the target with a 2-second timeout.
    AttemptDirect,
    /// Broadcast the magic packet to the target's hardware address.
    SendWake,
    /// Sleep one second, then attempt a connect with a 1-second timeout.
    SleepThenConnect,
    /// Hand the connected socket to the relay.
    UseConnection,
    /// Report the failure and close the inbound socket; nothing was
    /// relayed.
    GiveUp,
}

/// One connection's wake-and-connect state: the phase, the mapping's
/// attempt budget, and counters over the whole run.
#[derive(Clone, Copy, Debug, PartialEq, Eq, Structural)]
pub struct Connector {
    /// The mapping's bound on post-wake connect attempts.
    pub awake_delay: u64,
    pub phase: WakePhase,
    /// Wake broadcasts transmitted so far on this connection.
    pub wakes_sent: u64,
    /// Post-wake connect attempts made so far on this connection.
    pub poll_attempts: u64,
}

/// The state a fresh connection starts in.
pub open spec fn init_connector(awake_delay: u64) -> Connector {
    Connector { awake_delay, phase: WakePhase::Direct, wakes_sent: 0, poll_attempts: 0 }
}

/// The event kind each phase can accept: connect outcomes while a connect
/// attempt is pending, the wake outcome while the wake is pending, nothing
/// once the run has ended.
pub open spec fn event_fits(phase: WakePhase, ev: WakeEvent) -> bool {
    match phase {
        WakePhase::Direct => ev is Connect,
        WakePhase::Polling { .. } => ev is Connect,
        WakePhase::Waking => ev is Wake,
        WakePhase::Connected => false,
        WakePhase::Failed { .. } => false,
    }
}

/// The full transition relation. A successful connect ends the run in
/// `Connected`; a failed direct attempt moves to `Waking`; a transmitted
/// wake opens the polling budget (or fails at once when the budget is
/// zero); each failed poll spends one attempt, and spending the last one
/// ends the run in `Failed { Exhausted }`.
pub open spec fn transition(c: Connector, ev: WakeEvent) -> Connector {
    match ev {
        WakeEvent::Connect { ok } => match c.phase {
            WakePhase::Direct => if ok {
                Connector { phase: WakePhase::Connected, ..c }
            } else {
                Connector { phase: WakePhase::Waking, ..c }
            },
            WakePhase::Polling { remaining } => {
                let spent = Connector { poll_attempts: (c.poll_attempts + 1) as u64, ..c };
                if ok {
                    Connector { phase: WakePhase::Connected, ..spent }
                } else if remaining <= 1 {
                    Connector {
                        phase: WakePhase::Failed { reason: ConnectFailure::Exhausted },
                        ..spent
                    }
                } else {
                    Connector { phase: WakePhase::Polling { remaining: (remaining - 1) as u64 }, ..spent }
                }
            },
            _ => c,
        },
        WakeEvent::Wake { ok } => match c.phase {
            WakePhase::Waking => if !ok {
                Connector { phase: WakePhase::Failed { reason: ConnectFailure::WakeSendFailed }, ..c }
            } else {
                let sent = Connector { wakes_sent: (c.wakes_sent + 1) as u64, ..c };
                if c.awake_delay == 0 {
                    Connector { phase: WakePhase::Failed { reason: ConnectFailure::Exhausted }, ..sent }
                } else {
                    Connector { phase: WakePhase::Polling { remaining: c.awake_delay }, ..sent }
                }
            },
            _ => c,
        },
    }
}

/// What holds of every reachable state: at most one wake is ever sent; a
/// wake precedes any polling; poll attempts never exceed the budget; an
/// exhausted run spent the whole budget after exactly one wake; a failed
/// wake transmission sent nothing.
pub open spec fn connector_inv(c: Connector) -> bool {
    match c.phase {
        WakePhase::Direct => c.wakes_sent == 0 && c.poll_attempts == 0,
        WakePhase::Waking => c.wakes_sent == 0 && c.poll_attempts == 0,
        WakePhase::Polling { remaining } => c.wakes_sent == 1 && 1 <= remaining
            && c.poll_attempts + remaining == c.awake_delay,
        WakePhase::Connected => c.wakes_sent <= 1 && c.poll_attempts <= c.awake_delay && (
        c.wakes_sent == 0 ==> c.poll_attempts == 0),
        WakePhase::Failed { reason } => c.wakes_sent <= 1 && c.poll_attempts <= c.awake_delay && (
        reason is Exhausted ==> c.wakes_sent == 1 && c.poll_attempts == c.awake_delay) && (
        reason is WakeSendFailed ==> c.wakes_sent == 0 && c.poll_attempts == 0),
    }
}

/// A fitting transition preserves the state invariant.
pub proof fn lemma_transition_preserves_inv(c: Connector, ev: WakeEvent)
    requires
        connector_inv(c),
        event_fits(c.phase, ev),
    ensures
        connector_inv(transition(c, ev)),
{
}

/// The state after a whole run of events.
pub open spec fn run(c: Connector, evs: Seq<WakeEvent>) -> Connector
    decreases evs.len(),
{
    if evs.len() == 0 {
        c
    } else {
        run(transition(c, evs.first()), evs.drop_first())
    }
}

/// A run is valid when each event fits the phase it arrives in.
pub open spec fn valid_run(c: Connector, evs: Seq<WakeEvent>) -> bool
    decreases evs.len(),
{
    evs.len() == 0 || (event_fits(c.phase, evs.first()) && valid_run(
        transition(c, evs.first()),
        evs.drop_first(),
    ))
}

/// The state invariant holds at the end of every valid run.
pub proof fn lemma_run_preserves_inv(c: Connector, evs: Seq<WakeEvent>)
    requires
        connector_inv(c),
        valid_run(c, evs),
    ensures
        connector_inv(run(c, evs)),
        run(c, evs).awake_delay == c.awake_delay,
    decreases evs.len(),
{
    if evs.len() > 0 {
        lemma_transition_preserves_inv(c, evs.first());
        lemma_run_preserves_inv(transition(c, evs.first()), evs.drop_first());
    }
}

/// Once the direct attempt has been answered, the wake counter never moves
/// again except by the single `Waking` transition.
pub proof fn lemma_run_wakes_constant_after_waking(c: Connector, evs: Seq<WakeEvent>)
    requires
        valid_run(c, evs),
        !(c.phase is Direct),
        !(c.phase is Waking),
    ensures
        run(c, evs).wakes_sent == c.wakes_sent,
    decreases evs.len(),
{
    if evs.len() > 0 {
        lemma_run_wakes_constant_after_waking(transition(c, evs.first()), evs.drop_first());
    }
}

/// Exactly one wake per connection whose direct attempt fails, sent before
/// any polling; none when the direct attempt succeeds. Over every valid
/// run from a fresh connection: the wake counter never passes one; it is
/// zero whenever the first connect attempt succeeded; and it reaches one
/// exactly when the run began with a failed direct attempt followed by a
/// transmitted wake — polling, however long, adds nothing.
pub proof fn lemma_exactly_one_wake(awake_delay: u64, evs: Seq<WakeEvent>)
    requires
        valid_run(init_connector(awake_delay), evs),
    ensures
        run(init_connector(awake_delay), evs).wakes_sent <= 1,
        evs.len() > 0 && evs.first() == (WakeEvent::Connect { ok: true }) ==> run(
            init_connector(awake_delay),
            evs,
        ).wakes_sent == 0,
        run(init_connector(awake_delay), evs).wakes_sent == 1 <==> (evs.len() >= 2 && evs[0]
            == (WakeEvent::Connect { ok: false }) && evs[1] == (WakeEvent::Wake { ok: true })),
{
    let c0 = init_connector(awake_delay);
    lemma_run_preserves_inv(c0, evs);
    if evs.len() == 0 {
        assert(run(c0, evs) == c0);
    } else {
        assert(event_fits(c0.phase, evs.first()));
        let c1 = transition(c0, evs.first());
        let rest1 = evs.drop_first();
        assert(valid_run(c1, rest1));
        assert(run(c0, evs) == run(c1, rest1));
        match evs.first() {
            WakeEvent::Connect { ok } => {
                if ok {
                    lemma_run_wakes_constant_after_waking(c1, rest1);
                } else {
                    if rest1.len() == 0 {
                        assert(run(c1, rest1) == c1);
                    } else {
                        assert(event_fits(c1.phase, rest1.first()));
                        let c2 = transition(c1, rest1.first());
                        let rest2 = rest1.drop_first();
                        assert(valid_run(c2, rest2));
                        assert(run(c1, rest1) == run(c2, rest2));
                        assert(evs[1] == rest1.first());
                        lemma_run_wakes_constant_after_waking(c2, rest2);
                    }
                }
            },
            WakeEvent::Wake { .. } => {},
        }
    }
}

/// Polling is bounded: a run from a fresh connection never makes more than
/// `awake_delay` post-wake connect attempts, and a run that ends exhausted
/// made exactly `awake_delay` of them after its one wake.
pub proof fn lemma_polling_bounded(awake_delay: u64, evs: Seq<WakeEvent>)
    requires
        valid_run(init_connector(awake_delay), evs),
    ensures
        run(init_connector(awake_delay), evs).poll_attempts <= awake_delay,
        run(init_connector(awake_delay), evs).phase == (WakePhase::Failed {
            reason: ConnectFailure::Exhausted,
        }) ==> run(init_connector(awake_delay), evs).poll_attempts == awake_delay && run(
            init_connector(awake_delay),
            evs,
        ).wakes_sent == 1,
{
    lemma_run_preserves_inv(init_connector(awake_delay), evs);
}

/// Concurrent connections to the same sleeping target do not share wakes:
/// each connection whose run begins with a failed direct attempt and a
/// transmitted wake contributes exactly one wake broadcast of its own,
/// whatever the other does.
pub proof fn lemma_concurrent_wakes_independent(
    awake_delay1: u64,
    evs1: Seq<WakeEvent>,
    awake_delay2: u64,
    evs2: Seq<WakeEvent>,
)
    requires
        valid_run(init_connector(awake_delay1), evs1),
        valid_run(init_connector(awake_delay2), evs2),
        evs1.len() >= 2 && evs1[0] == (WakeEvent::Connect { ok: false }) && evs1[1] == (
        WakeEvent::Wake { ok: true }),
        evs2.len() >= 2 && evs2[0] == (WakeEvent::Connect { ok: false }) && evs2[1] == (
        WakeEvent::Wake { ok: true }),
    ensures
        run(init_connector(awake_delay1), evs1).wakes_sent == 1,
        run(init_connector(awake_delay2), evs2).wakes_sent == 1,
        run(init_connector(awake_delay1), evs1).wakes_sent + run(
            init_connector(awake_delay2),
            evs2,
        ).wakes_sent == 2,
{
    lemma_exactly_one_wake(awake_delay1, evs1);
    lemma_exactly_one_wake(awake_delay2, evs2);
}

impl Connector {
    /// A fresh connection attempt for a mapping with the given post-wake
    /// attempt budget.
    pub fn new(awake_delay: u64) -> (c: Connector)
        ensures
            c == init_connector(awake_delay),
            connector_inv(c),
    {
        Connector { awake_delay, phase: WakePhase::Direct, wakes_sent: 0, poll_attempts: 0 }
    }

    /// The action the driving process must perform next in this phase.
    pub fn next_action(&self) -> (a: WakeAction)
        ensures
            a == match self.phase {
                WakePhase::Direct => WakeAction::AttemptDirect,
                WakePhase::Waking => WakeAction::SendWake,
                WakePhase::Polling { .. } => WakeAction::SleepThenConnect,
                WakePhase::Connected => WakeAction::UseConnection,
                WakePhase::Failed { .. } => WakeAction::GiveUp,
            },
    {
        match self.phase {
            WakePhase::Direct => WakeAction::AttemptDirect,
            WakePhase::Waking => WakeAction::SendWake,
            WakePhase::Polling { .. } => WakeAction::SleepThenConnect,
            WakePhase::Connected => WakeAction::UseConnection,
            WakePhase::Failed { .. } => WakeAction::GiveUp,
        }
    }

    /// Feeds the outcome of the pending action back into the machine. The
    /// new state is exactly `transition` of the old one, and the state
    /// invariant is preserved.
    pub fn step(&mut self, ev: WakeEvent)
        requires
            connector_inv(*old(self)),
            event_fits(old(self).phase, ev),
        ensures
            *final(self) == transition(*old(self), ev),
            connector_inv(*final(self)),
    {
        match ev {
            WakeEvent::Connect { ok } => match self.phase {
                WakePhase::Direct => {
                    if ok {
                        self.phase = WakePhase::Connected;
                    } else {
                        self.phase = WakePhase::Waking;
                    }
                },
                WakePhase::Polling { remaining } => {
                    self.poll_attempts = self.poll_attempts + 1;
                    if ok {
                        self.phase = WakePhase::Connected;
                    } else if remaining <= 1 {
                        self.phase = WakePhase::Failed { reason: ConnectFailure::Exhausted };
                    } else {
                        self.phase = WakePhase::Polling { remaining: remaining - 1 };
                    }
                },
                _ => {},
            },
            WakeEvent::Wake { ok } => match self.phase {
                WakePhase::Waking => {
                    if !ok {
                        self.phase = WakePhase::Failed { reason: ConnectFailure::WakeSendFailed };
                    } else {
                        self.wakes_sent = self.wakes_sent + 1;
                        if self.awake_delay == 0 {
                            self.phase = WakePhase::Failed { reason: ConnectFailure::Exhausted };
                        } else {
                            self.phase = WakePhase::Polling { remaining: self.awake_delay };
                        }
                    }
                },
                _ => {},
            },
        }
    }
}

} // verus!

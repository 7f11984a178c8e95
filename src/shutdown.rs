//! Cooperative shutdown: the life of a unit, `Running`, then `Stopping` once
//! it has seen its shutdown signal, then `Stopped` once its loop has returned.
//!
//! A unit looks at its signal only while idle, after a receive has timed out.
use vstd::prelude::*;

verus! {

/// Where a unit stands in its life.
#[derive(Clone, Copy, Debug, PartialEq, Eq, Structural)]
pub enum Phase {
    Running,
    Stopping,
    Stopped,
}

/// What a unit's timed receive came back with, as far as its life is concerned.
#[derive(Clone, Copy, Debug, PartialEq, Eq, Structural)]
pub enum Wake {
    /// A datagram arrived.
    Traffic,
    /// The receive timed out; `stop_posted` tells whether the shutdown token
    /// was waiting in the unit's signal channel.
    Idle { stop_posted: bool },
    /// The receive failed for another reason.
    Fault,
}

/// The phase after one wake-up.
pub open spec fn next_phase(p: Phase, w: Wake) -> Phase {
    match p {
        Phase::Running => match w {
            Wake::Idle { stop_posted: true } => Phase::Stopping,
            _ => Phase::Running,
        },
        _ => p,
    }
}

/// The phase after a run of wake-ups, in order.
pub open spec fn phase_after(p: Phase, ws: Seq<Wake>) -> Phase
    decreases ws.len(),
{
    if ws.len() == 0 {
        p
    } else {
        phase_after(next_phase(p, ws[0]), ws.drop_first())
    }
}

impl Phase {
    /// The phase after wake-up `w`.
    pub fn observe(self, w: Wake) -> (r: Phase)
        ensures
            r == next_phase(self, w),
    {
        match self {
            Phase::Running => match w {
                Wake::Idle { stop_posted } => {
                    if stop_posted {
                        Phase::Stopping
                    } else {
                        Phase::Running
                    }
                },
                _ => Phase::Running,
            },
            _ => self,
        }
    }

    /// The phase once the unit's loop has returned.
    pub fn finish(self) -> (r: Phase)
        requires
            self == Phase::Stopping,
        ensures
            r == Phase::Stopped,
    {
        Phase::Stopped
    }

    /// Whether the unit still serves its loop.
    pub fn is_running(self) -> (r: bool)
        ensures
            r == (self == Phase::Running),
    {
        match self {
            Phase::Running => true,
            _ => false,
        }
    }
}

/// A unit leaves `Running` only on an idle wake-up that finds the shutdown
/// token: never in the middle of traffic, never on a failed receive.
pub proof fn lemma_stops_only_when_idle(w: Wake)
    ensures
        next_phase(Phase::Running, w) != Phase::Running <==> w == (Wake::Idle { stop_posted: true }),
        next_phase(Phase::Running, w) != Phase::Running ==> next_phase(Phase::Running, w)
            == Phase::Stopping,
{
}

/// Once a unit has seen its shutdown token, nothing that follows, a second
/// token included, changes its phase again.
pub proof fn lemma_stop_is_final(p: Phase, ws: Seq<Wake>)
    requires
        p != Phase::Running,
    ensures
        phase_after(p, ws) == p,
    decreases ws.len(),
{
    if ws.len() > 0 {
        lemma_stop_is_final(next_phase(p, ws[0]), ws.drop_first());
    }
}

/// A running unit that has any idle wake-up finding the shutdown token is
/// `Stopping` at the end of its run: it stops at the first such wake-up and
/// stays stopped.
pub proof fn lemma_idle_signal_stops(ws: Seq<Wake>, i: int)
    requires
        0 <= i < ws.len(),
        ws[i] == (Wake::Idle { stop_posted: true }),
    ensures
        phase_after(Phase::Running, ws) == Phase::Stopping,
    decreases ws.len(),
{
    if i == 0 {
        lemma_stop_is_final(Phase::Stopping, ws.drop_first());
    } else {
        let p = next_phase(Phase::Running, ws[0]);
        if p == Phase::Running {
            lemma_idle_signal_stops(ws.drop_first(), i - 1);
        } else {
            lemma_stop_is_final(p, ws.drop_first());
        }
    }
}

/// Without an idle wake-up that finds the shutdown token, a running unit keeps
/// running.
pub proof fn lemma_no_signal_keeps_running(ws: Seq<Wake>)
    requires
        forall|i: int| 0 <= i < ws.len() ==> ws[i] != (Wake::Idle { stop_posted: true }),
    ensures
        phase_after(Phase::Running, ws) == Phase::Running,
    decreases ws.len(),
{
    if ws.len() > 0 {
        assert forall|i: int| 0 <= i < ws.drop_first().len() implies ws.drop_first()[i] != (
        Wake::Idle { stop_posted: true }) by {
            assert(ws.drop_first()[i] == ws[i + 1]);
        }
        lemma_no_signal_keeps_running(ws.drop_first());
    }
}

} // verus!

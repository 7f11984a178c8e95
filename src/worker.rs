//! A worker: it reads each probe value it receives, tests it against its own
//! divisor, and acknowledges the divisible ones to their sender.
//!
//! The worker is a state machine: the program around it performs the timed
//! receive, hands over what came back as a `WorkerEvent`, and carries out the
//! `WorkerAction` that `Worker::handle` returns.
use crate::endpoint::Endpoint;
use crate::shutdown::{lemma_idle_signal_stops, lemma_stop_is_final, next_phase, phase_after, Phase, Wake};
use crate::wire::{decode_probe, probe_bytes, probe_value, WireError, WORD_BYTES};
use vstd::prelude::*;

verus! {

/// What a worker's timed receive came back with.
#[derive(Clone, Debug)]
pub enum WorkerEvent {
    /// A datagram of `payload` from `from`.
    Datagram { payload: Vec<u8>, from: Endpoint },
    /// The receive timed out; `stop_posted` tells whether the shutdown token
    /// was waiting.
    Idle { stop_posted: bool },
    /// The receive failed for another reason.
    Fault,
}

/// What the worker asks to be done.
#[derive(Clone, Copy, Debug, PartialEq, Eq, Structural)]
pub enum WorkerAction {
    /// `value` is divisible: send the acknowledgment to `to`.
    Ack { value: u64, to: Endpoint },
    /// `value` from `from` is not divisible: nothing is sent.
    Pass { value: u64, from: Endpoint },
    /// The datagram from `from` was no probe value; it is dropped.
    Discard { error: WireError, from: Endpoint },
    /// Receive again.
    Wait,
    /// Leave the loop.
    Exit,
}

/// A worker with its divisor and its phase.
#[derive(Clone, Copy, Debug)]
pub struct Worker {
    divisor: u64,
    phase: Phase,
}

/// How a worker answers a datagram of bytes `payload` from `from`.
pub open spec fn worker_response(divisor: u64, payload: Seq<u8>, from: Endpoint) -> WorkerAction {
    match probe_value(payload) {
        Ok(v) => if v % divisor == 0 {
            WorkerAction::Ack { value: v, to: from }
        } else {
            WorkerAction::Pass { value: v, from }
        },
        Err(e) => WorkerAction::Discard { error: e, from },
    }
}

/// What a wake-up means for the worker's life.
pub open spec fn worker_wake(e: WorkerEvent) -> Wake {
    match e {
        WorkerEvent::Datagram { .. } => Wake::Traffic,
        WorkerEvent::Idle { stop_posted } => Wake::Idle { stop_posted },
        WorkerEvent::Fault => Wake::Fault,
    }
}

/// What a worker of divisor `divisor` in phase `phase` asks for on event `e`.
pub open spec fn worker_action(divisor: u64, phase: Phase, e: WorkerEvent) -> WorkerAction {
    if phase != Phase::Running {
        WorkerAction::Exit
    } else {
        match e {
            WorkerEvent::Datagram { payload, from } => worker_response(divisor, payload@, from),
            WorkerEvent::Idle { stop_posted } => if stop_posted {
                WorkerAction::Exit
            } else {
                WorkerAction::Wait
            },
            WorkerEvent::Fault => WorkerAction::Wait,
        }
    }
}

impl Worker {
    pub closed spec fn spec_divisor(&self) -> u64 {
        self.divisor
    }

    pub closed spec fn spec_phase(&self) -> Phase {
        self.phase
    }

    /// A worker's divisor is positive.
    pub open spec fn wf(&self) -> bool {
        self.spec_divisor() > 0
    }

    /// A running worker that tests against `divisor`.
    pub fn new(divisor: u64) -> (r: Worker)
        requires
            divisor > 0,
        ensures
            r.wf(),
            r.spec_divisor() == divisor,
            r.spec_phase() == Phase::Running,
    {
        Worker { divisor, phase: Phase::Running }
    }

    pub fn divisor(&self) -> (r: u64)
        ensures
            r == self.spec_divisor(),
    {
        self.divisor
    }

    pub fn phase(&self) -> (r: Phase)
        ensures
            r == self.spec_phase(),
    {
        self.phase
    }

    /// Whether the worker acknowledges `value`.
    pub fn accepts(&self, value: u64) -> (r: bool)
        requires
            self.wf(),
        ensures
            r == (value % self.spec_divisor() == 0),
    {
        value % self.divisor == 0
    }

    /// Answers one datagram: decodes it and tests the value.
    pub fn respond(&self, payload: &[u8], from: Endpoint) -> (r: WorkerAction)
        requires
            self.wf(),
        ensures
            r == worker_response(self.spec_divisor(), payload@, from),
    {
        match decode_probe(payload) {
            Ok(v) => {
                if self.accepts(v) {
                    WorkerAction::Ack { value: v, to: from }
                } else {
                    WorkerAction::Pass { value: v, from }
                }
            },
            Err(e) => WorkerAction::Discard { error: e, from },
        }
    }

    /// Takes one event of the receive loop and says what to do next.
    pub fn handle(&mut self, e: WorkerEvent) -> (r: WorkerAction)
        requires
            old(self).wf(),
        ensures
            final(self).wf(),
            final(self).spec_divisor() == old(self).spec_divisor(),
            final(self).spec_phase() == next_phase(old(self).spec_phase(), worker_wake(e)),
            r == worker_action(old(self).spec_divisor(), old(self).spec_phase(), e),
    {
        if !self.phase.is_running() {
            return WorkerAction::Exit;
        }
        match e {
            WorkerEvent::Datagram { payload, from } => self.respond(payload.as_slice(), from),
            WorkerEvent::Idle { stop_posted } => {
                self.phase = self.phase.observe(Wake::Idle { stop_posted });
                if stop_posted {
                    WorkerAction::Exit
                } else {
                    WorkerAction::Wait
                }
            },
            WorkerEvent::Fault => WorkerAction::Wait,
        }
    }

    /// Marks the worker's loop as returned.
    pub fn finish(&mut self)
        requires
            old(self).spec_phase() == Phase::Stopping,
        ensures
            final(self).spec_divisor() == old(self).spec_divisor(),
            final(self).spec_phase() == Phase::Stopped,
    {
        self.phase = self.phase.finish();
    }
}

/// A worker acknowledges the encoding of `v` exactly when `v` is divisible by
/// its divisor, with one acknowledgment addressed to the sender; otherwise it
/// sends nothing.
pub proof fn lemma_ack_iff_divisible(divisor: u64, v: u64, from: Endpoint)
    requires
        divisor > 0,
    ensures
        (worker_response(divisor, probe_bytes(v), from) == WorkerAction::Ack { value: v, to: from })
            == (v % divisor == 0),
        v % divisor != 0 ==> worker_response(divisor, probe_bytes(v), from)
            == (WorkerAction::Pass { value: v, from }),
{
    crate::wire::lemma_probe_round_trip(v);
}

/// A worker of divisor one acknowledges every probe value.
pub proof fn lemma_divisor_one_acks_all(v: u64, from: Endpoint)
    ensures
        worker_response(1, probe_bytes(v), from) == (WorkerAction::Ack { value: v, to: from }),
{
    crate::wire::lemma_probe_round_trip(v);
}

/// With a divisor above every value of the sequence `0..k`, a worker
/// acknowledges `0` alone.
pub proof fn lemma_large_divisor_acks_zero_only(divisor: u64, k: u64, v: u64, from: Endpoint)
    requires
        v < k,
        k < divisor,
    ensures
        (worker_response(divisor, probe_bytes(v), from) == WorkerAction::Ack { value: v, to: from })
            == (v == 0),
{
    crate::wire::lemma_probe_round_trip(v);
    assert(v % divisor == v) by (nonlinear_arith)
        requires
            v < divisor,
    ;
}

/// A datagram of any length but `WORD_BYTES`, a short one included, is
/// dropped and acknowledged to nobody.
pub proof fn lemma_wrong_length_discarded(divisor: u64, payload: Seq<u8>, from: Endpoint)
    requires
        payload.len() != WORD_BYTES,
    ensures
        worker_response(divisor, payload, from) == (WorkerAction::Discard {
            error: WireError::WrongLength { len: payload.len() as usize },
            from,
        }),
{
}

/// A running worker whose events hold an idle wake-up that finds the shutdown
/// token ends its run `Stopping`; once it has left `Running`, no later event,
/// a second token included, brings it back.
pub proof fn lemma_worker_run_stops(es: Seq<WorkerEvent>, i: int, later: Seq<WorkerEvent>)
    requires
        0 <= i < es.len(),
        es[i] == (WorkerEvent::Idle { stop_posted: true }),
    ensures
        phase_after(Phase::Running, es.map_values(|e: WorkerEvent| worker_wake(e))) == Phase::Stopping,
        phase_after(Phase::Stopping, later.map_values(|e: WorkerEvent| worker_wake(e))) == Phase::Stopping,
{
    let ws = es.map_values(|e: WorkerEvent| worker_wake(e));
    assert(ws[i] == (Wake::Idle { stop_posted: true }));
    lemma_idle_signal_stops(ws, i);
    lemma_stop_is_final(Phase::Stopping, later.map_values(|e: WorkerEvent| worker_wake(e)));
}

} // verus!

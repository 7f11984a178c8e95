//! The coordinator: it sends every probe value `0..probe_count` to every
//! worker, value by value, and then reports the replies it receives.
//!
//! As with the worker, the program around it performs the sends and the timed
//! receives; `Coordinator::handle` decides what each receive means.
use crate::endpoint::Endpoint;
use crate::shutdown::{lemma_idle_signal_stops, lemma_stop_is_final, next_phase, phase_after, Phase, Wake};
use crate::wire::{ack_bytes, encode_probe, is_ack, probe_bytes};
use vstd::prelude::*;

verus! {

/// One datagram to send.
#[derive(Clone, Debug)]
pub struct Outgoing {
    pub to: Endpoint,
    pub payload: Vec<u8>,
}

/// What a coordinator's timed receive came back with.
#[derive(Clone, Debug)]
pub enum CoordinatorEvent {
    /// A reply of `payload` from `from`.
    Reply { payload: Vec<u8>, from: Endpoint },
    /// The receive timed out; `stop_posted` tells whether the shutdown token
    /// was waiting.
    Idle { stop_posted: bool },
    /// The receive failed for another reason.
    Fault,
}

/// What the coordinator asks to be done.
#[derive(Clone, Copy, Debug, PartialEq, Eq, Structural)]
pub enum CoordinatorAction {
    /// An acknowledgment came from `from`: report it.
    Acknowledged { from: Endpoint },
    /// A reply of `len` bytes that is no acknowledgment came from `from`:
    /// report it and go on.
    Unexpected { from: Endpoint, len: usize },
    /// Receive again.
    Wait,
    /// Leave the loop.
    Exit,
}

/// The coordinator: the workers it probes, how many values, and its phase.
#[derive(Clone, Debug)]
pub struct Coordinator {
    workers: Vec<Endpoint>,
    probe_count: u64,
    phase: Phase,
}

/// The `i`-th datagram of the burst to `workers` sends value `i / n` to worker
/// `i % n`, where `n` is the number of workers.
pub open spec fn burst_item(workers: Seq<Endpoint>, i: int) -> (Endpoint, Seq<u8>) {
    (workers[i % (workers.len() as int)], probe_bytes((i / (workers.len() as int)) as u64))
}

/// How the coordinator takes a reply of bytes `payload` from `from`.
pub open spec fn reply_action(payload: Seq<u8>, from: Endpoint) -> CoordinatorAction {
    if payload == ack_bytes() {
        CoordinatorAction::Acknowledged { from }
    } else {
        CoordinatorAction::Unexpected { from, len: payload.len() as usize }
    }
}

/// What a wake-up means for the coordinator's life.
pub open spec fn coordinator_wake(e: CoordinatorEvent) -> Wake {
    match e {
        CoordinatorEvent::Reply { .. } => Wake::Traffic,
        CoordinatorEvent::Idle { stop_posted } => Wake::Idle { stop_posted },
        CoordinatorEvent::Fault => Wake::Fault,
    }
}

/// What a coordinator in phase `phase` asks for on event `e`.
pub open spec fn coordinator_action(phase: Phase, e: CoordinatorEvent) -> CoordinatorAction {
    if phase != Phase::Running {
        CoordinatorAction::Exit
    } else {
        match e {
            CoordinatorEvent::Reply { payload, from } => reply_action(payload@, from),
            CoordinatorEvent::Idle { stop_posted } => if stop_posted {
                CoordinatorAction::Exit
            } else {
                CoordinatorAction::Wait
            },
            CoordinatorEvent::Fault => CoordinatorAction::Wait,
        }
    }
}

impl Coordinator {
    pub closed spec fn spec_workers(&self) -> Seq<Endpoint> {
        self.workers@
    }

    pub closed spec fn spec_probe_count(&self) -> u64 {
        self.probe_count
    }

    pub closed spec fn spec_phase(&self) -> Phase {
        self.phase
    }

    /// A running coordinator that probes `workers` with `0..probe_count`.
    pub fn new(workers: Vec<Endpoint>, probe_count: u64) -> (r: Coordinator)
        ensures
            r.spec_workers() == workers@,
            r.spec_probe_count() == probe_count,
            r.spec_phase() == Phase::Running,
    {
        Coordinator { workers, probe_count, phase: Phase::Running }
    }

    pub fn workers(&self) -> (r: &Vec<Endpoint>)
        ensures
            r@ == self.spec_workers(),
    {
        &self.workers
    }

    pub fn probe_count(&self) -> (r: u64)
        ensures
            r == self.spec_probe_count(),
    {
        self.probe_count
    }

    pub fn phase(&self) -> (r: Phase)
        ensures
            r == self.spec_phase(),
    {
        self.phase
    }

    /// The whole burst, in the order it is sent: for each value `0..probe_count`
    /// in turn, one datagram to each worker in turn.
    pub fn probe_burst(&self) -> (r: Vec<Outgoing>)
        requires
            self.spec_probe_count() * self.spec_workers().len() <= usize::MAX,
        ensures
            r@.len() == self.spec_probe_count() * self.spec_workers().len(),
            forall|i: int|
                0 <= i < r@.len() ==> (#[trigger] r@[i]).to == burst_item(self.spec_workers(), i).0
                    && r@[i].payload@ == burst_item(self.spec_workers(), i).1,
    {
        let n = self.workers.len();
        let k = self.probe_count;
        let ghost ws = self.workers@;
        let mut out: Vec<Outgoing> = Vec::new();
        let mut v: u64 = 0;
        while v < k
            invariant
                ws == self.workers@,
                n == ws.len(),
                k == self.probe_count,
                k * n <= usize::MAX,
                v <= k,
                out@.len() == v * n,
                forall|i: int|
                    0 <= i < out@.len() ==> (#[trigger] out@[i]).to == burst_item(ws, i).0
                        && out@[i].payload@ == burst_item(ws, i).1,
            decreases k - v,
        {
            let mut j: usize = 0;
            while j < n
                invariant
                    ws == self.workers@,
                    n == ws.len(),
                    k == self.probe_count,
                    k * n <= usize::MAX,
                    v < k,
                    j <= n,
                    out@.len() == v * n + j,
                    forall|i: int|
                        0 <= i < out@.len() ==> (#[trigger] out@[i]).to == burst_item(ws, i).0
                            && out@[i].payload@ == burst_item(ws, i).1,
                decreases n - j,
            {
                proof {
                    assert((v + 1) * n <= k * n) by (nonlinear_arith)
                        requires
                            v < k,
                    ;
                    assert((v + 1) * n == v * n + n) by (nonlinear_arith);
                    let idx = v * n + j;
                    vstd::arithmetic::div_mod::lemma_fundamental_div_mod_converse(
                        idx as int,
                        n as int,
                        v as int,
                        j as int,
                    );
                }
                let item = Outgoing { to: self.workers[j], payload: encode_probe(v) };
                out.push(item);
                j = j + 1;
            }
            proof {
                assert((v + 1) * n == v * n + n) by (nonlinear_arith);
            }
            v = v + 1;
        }
        out
    }

    /// Takes one reply of the receive loop and says what to do next.
    pub fn handle(&mut self, e: CoordinatorEvent) -> (r: CoordinatorAction)
        ensures
            final(self).spec_workers() == old(self).spec_workers(),
            final(self).spec_probe_count() == old(self).spec_probe_count(),
            final(self).spec_phase() == next_phase(old(self).spec_phase(), coordinator_wake(e)),
            r == coordinator_action(old(self).spec_phase(), e),
    {
        if !self.phase.is_running() {
            return CoordinatorAction::Exit;
        }
        match e {
            CoordinatorEvent::Reply { payload, from } => {
                if is_ack(payload.as_slice()) {
                    CoordinatorAction::Acknowledged { from }
                } else {
                    CoordinatorAction::Unexpected { from, len: payload.len() }
                }
            },
            CoordinatorEvent::Idle { stop_posted } => {
                self.phase = self.phase.observe(Wake::Idle { stop_posted });
                if stop_posted {
                    CoordinatorAction::Exit
                } else {
                    CoordinatorAction::Wait
                }
            },
            CoordinatorEvent::Fault => CoordinatorAction::Wait,
        }
    }

    /// Marks the coordinator's loop as returned.
    pub fn finish(&mut self)
        requires
            old(self).spec_phase() == Phase::Stopping,
        ensures
            final(self).spec_workers() == old(self).spec_workers(),
            final(self).spec_probe_count() == old(self).spec_probe_count(),
            final(self).spec_phase() == Phase::Stopped,
    {
        self.phase = self.phase.finish();
    }
}

/// The burst holds one datagram for each pair of a value in `0..k` and a
/// worker, at index `v * n + w`: value `v` to worker `w`.
pub proof fn lemma_burst_covers_each_pair(workers: Seq<Endpoint>, k: u64, v: u64, w: int)
    requires
        v < k,
        0 <= w < workers.len(),
    ensures
        0 <= v * workers.len() + w < k * workers.len(),
        burst_item(workers, v * workers.len() + w) == (workers[w], probe_bytes(v)),
{
    let n = workers.len() as int;
    assert(v * n + w < k * n) by (nonlinear_arith)
        requires
            v < k,
            0 <= w < n,
    ;
    assert(0 <= v * n) by (nonlinear_arith)
        requires
            0 <= n,
    ;
    vstd::arithmetic::div_mod::lemma_fundamental_div_mod_converse(v * n + w, n, v as int, w);
}

/// A reply that is not exactly the acknowledgment, a short one included, is
/// reported as unexpected and the coordinator keeps running.
pub proof fn lemma_odd_reply_recoverable(payload: Seq<u8>, from: Endpoint)
    requires
        payload != ack_bytes(),
    ensures
        reply_action(payload, from) == (CoordinatorAction::Unexpected {
            from,
            len: payload.len() as usize,
        }),
        next_phase(Phase::Running, Wake::Traffic) == Phase::Running,
{
}

/// A running coordinator whose events hold an idle wake-up that finds the shutdown
/// token ends its run `Stopping`; once it has left `Running`, no later event,
/// a second token included, brings it back.
pub proof fn lemma_coordinator_run_stops(es: Seq<CoordinatorEvent>, i: int, later: Seq<CoordinatorEvent>)
    requires
        0 <= i < es.len(),
        es[i] == (CoordinatorEvent::Idle { stop_posted: true }),
    ensures
        phase_after(Phase::Running, es.map_values(|e: CoordinatorEvent| coordinator_wake(e))) == Phase::Stopping,
        phase_after(Phase::Stopping, later.map_values(|e: CoordinatorEvent| coordinator_wake(e))) == Phase::Stopping,
{
    let ws = es.map_values(|e: CoordinatorEvent| coordinator_wake(e));
    assert(ws[i] == (Wake::Idle { stop_posted: true }));
    lemma_idle_signal_stops(ws, i);
    lemma_stop_is_final(Phase::Stopping, later.map_values(|e: CoordinatorEvent| coordinator_wake(e)));
}

} // verus!

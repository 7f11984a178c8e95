//! Where the units live: one coordinator and its workers, on distinct loopback
//! addresses that share one port, with the timing of a run.
use crate::coordinator::Coordinator;
use crate::endpoint::Endpoint;
use crate::worker::Worker;
use vstd::prelude::*;

verus! {

/// The port used when none is given.
pub const DEFAULT_PORT: u16 = 1111;

/// The probe values are `0..PROBE_COUNT`.
pub const PROBE_COUNT: u64 = 100;

/// How long a run lasts before shutdown is posted, in milliseconds.
pub const GRACE_MS: u64 = 5000;

/// How long a receive waits before the unit looks at its signal, in
/// milliseconds.
pub const READ_TIMEOUT_MS: u64 = 500;

/// A worker's address and divisor.
#[derive(Clone, Copy, Debug, PartialEq, Eq, Structural)]
pub struct WorkerSlot {
    pub address: Endpoint,
    pub divisor: u64,
}

/// The units of one run and its timing.
#[derive(Clone, Debug)]
pub struct Deployment {
    pub coordinator: Endpoint,
    pub workers: Vec<WorkerSlot>,
    pub probe_count: u64,
    pub grace_ms: u64,
    pub read_timeout_ms: u64,
}

/// The port that a command-line value names, if it is one.
pub fn port_from_arg(arg: i64) -> (r: Option<u16>)
    ensures
        r == (if 0 <= arg <= u16::MAX {
            Some(arg as u16)
        } else {
            None::<u16>
        }),
{
    if 0 <= arg && arg <= u16::MAX as i64 {
        Some(arg as u16)
    } else {
        None
    }
}

impl Deployment {
    /// Every worker's divisor is positive.
    pub open spec fn wf(&self) -> bool {
        forall|i: int| 0 <= i < self.workers@.len() ==> (#[trigger] self.workers@[i]).divisor > 0
    }

    /// The reference run on `port`: the coordinator on `127.0.0.4`, a worker
    /// of divisor 3 on `127.0.0.2` and one of divisor 5 on `127.0.0.3`, probe
    /// values `0..100`, five seconds of grace and half a second of read timeout.
    pub fn reference(port: u16) -> (r: Deployment)
        ensures
            r.wf(),
            r.coordinator == (Endpoint { ip: 0x7f00_0004u32, port }),
            r.workers@ == seq![
                WorkerSlot { address: Endpoint { ip: 0x7f00_0002u32, port }, divisor: 3 },
                WorkerSlot { address: Endpoint { ip: 0x7f00_0003u32, port }, divisor: 5 },
            ],
            r.probe_count == PROBE_COUNT,
            r.grace_ms == GRACE_MS,
            r.read_timeout_ms == READ_TIMEOUT_MS,
    {
        let mut workers: Vec<WorkerSlot> = Vec::new();
        workers.push(WorkerSlot { address: Endpoint::loopback(2, port), divisor: 3 });
        workers.push(WorkerSlot { address: Endpoint::loopback(3, port), divisor: 5 });
        let r = Deployment {
            coordinator: Endpoint::loopback(4, port),
            workers,
            probe_count: PROBE_COUNT,
            grace_ms: GRACE_MS,
            read_timeout_ms: READ_TIMEOUT_MS,
        };
        assert(r.workers@ =~= seq![
            WorkerSlot { address: Endpoint { ip: 0x7f00_0002u32, port }, divisor: 3 },
            WorkerSlot { address: Endpoint { ip: 0x7f00_0003u32, port }, divisor: 5 },
        ]);
        r
    }

    /// The worker in slot `i`, running.
    pub fn worker(&self, i: usize) -> (r: Worker)
        requires
            self.wf(),
            i < self.workers@.len(),
        ensures
            r.wf(),
            r.spec_divisor() == self.workers@[i as int].divisor,
            r.spec_phase() == crate::shutdown::Phase::Running,
    {
        Worker::new(self.workers[i].divisor)
    }

    /// The coordinator, running, that probes every worker in slot order.
    pub fn coordinator(&self) -> (r: Coordinator)
        ensures
            r.spec_workers().len() == self.workers@.len(),
            forall|i: int|
                0 <= i < self.workers@.len() ==> r.spec_workers()[i]
                    == (#[trigger] self.workers@[i]).address,
            r.spec_probe_count() == self.probe_count,
            r.spec_phase() == crate::shutdown::Phase::Running,
    {
        let mut addresses: Vec<Endpoint> = Vec::new();
        let mut i: usize = 0;
        while i < self.workers.len()
            invariant
                i <= self.workers@.len(),
                addresses@.len() == i,
                forall|j: int| 0 <= j < i ==> addresses@[j] == (#[trigger] self.workers@[j]).address,
            decreases self.workers@.len() - i,
        {
            addresses.push(self.workers[i].address);
            i = i + 1;
        }
        Coordinator::new(addresses, self.probe_count)
    }
}

} // verus!

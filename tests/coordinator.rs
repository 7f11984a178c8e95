use udp_probe::coordinator::{Coordinator, CoordinatorAction, CoordinatorEvent};
use udp_probe::deployment::Deployment;
use udp_probe::endpoint::Endpoint;
use udp_probe::shutdown::Phase;
use udp_probe::wire::{ack_payload, decode_probe, encode_probe};
use udp_probe::worker::{WorkerAction, WorkerEvent};

#[test]
fn burst_sends_each_value_to_each_worker_in_order() {
    let a = Endpoint::loopback(2, 7);
    let b = Endpoint::loopback(3, 7);
    let c = Coordinator::new(vec![a, b], 4);
    let burst = c.probe_burst();
    assert_eq!(burst.len(), 8);
    let expected = [(0, a), (0, b), (1, a), (1, b), (2, a), (2, b), (3, a), (3, b)];
    for (item, (v, to)) in burst.iter().zip(expected.iter()) {
        assert_eq!(item.to, *to);
        assert_eq!(item.payload, encode_probe(*v));
    }
}

#[test]
fn burst_is_empty_without_workers_or_values() {
    assert!(Coordinator::new(vec![], 100).probe_burst().is_empty());
    assert!(Coordinator::new(vec![Endpoint::loopback(2, 7)], 0).probe_burst().is_empty());
}

#[test]
fn replies_are_reported() {
    let from = Endpoint::loopback(2, 1111);
    let mut c = Coordinator::new(vec![from], 100);
    assert_eq!(
        c.handle(CoordinatorEvent::Reply { payload: ack_payload(), from }),
        CoordinatorAction::Acknowledged { from }
    );
    assert_eq!(
        c.handle(CoordinatorEvent::Reply { payload: vec![0x41], from }),
        CoordinatorAction::Unexpected { from, len: 1 }
    );
    assert_eq!(
        c.handle(CoordinatorEvent::Reply { payload: vec![0xff, 0xfe, 0xfd], from }),
        CoordinatorAction::Unexpected { from, len: 3 }
    );
    assert_eq!(c.phase(), Phase::Running);
}

#[test]
fn coordinator_stops_on_idle_signal_only() {
    let mut c = Coordinator::new(vec![], 100);
    assert_eq!(c.handle(CoordinatorEvent::Fault), CoordinatorAction::Wait);
    assert_eq!(c.handle(CoordinatorEvent::Idle { stop_posted: false }), CoordinatorAction::Wait);
    assert_eq!(c.handle(CoordinatorEvent::Idle { stop_posted: true }), CoordinatorAction::Exit);
    assert_eq!(c.phase(), Phase::Stopping);
    assert_eq!(c.handle(CoordinatorEvent::Idle { stop_posted: true }), CoordinatorAction::Exit);
    c.finish();
    assert_eq!(c.phase(), Phase::Stopped);
}

#[test]
fn reference_run_yields_fifty_four_acks() {
    let dep = Deployment::reference(1111);
    let mut coord = dep.coordinator();
    let burst = coord.probe_burst();
    assert_eq!(burst.len(), 200);
    let mut workers: Vec<_> = (0..dep.workers.len()).map(|i| dep.worker(i)).collect();
    let mut acked: Vec<Vec<u64>> = vec![Vec::new(), Vec::new()];
    let mut received = 0;
    for item in &burst {
        let slot = dep.workers.iter().position(|s| s.address == item.to).unwrap();
        let ev = WorkerEvent::Datagram { payload: item.payload.clone(), from: dep.coordinator };
        match workers[slot].handle(ev) {
            WorkerAction::Ack { value, to } => {
                assert_eq!(to, dep.coordinator);
                acked[slot].push(value);
                let reply = CoordinatorEvent::Reply { payload: ack_payload(), from: item.to };
                assert_eq!(coord.handle(reply), CoordinatorAction::Acknowledged { from: item.to });
                received += 1;
            }
            WorkerAction::Pass { value, .. } => {
                assert_eq!(decode_probe(&item.payload), Ok(value));
            }
            other => panic!("unexpected {:?}", other),
        }
    }
    let by3: Vec<u64> = (0..100).filter(|v| v % 3 == 0).collect();
    let by5: Vec<u64> = (0..100).filter(|v| v % 5 == 0).collect();
    assert_eq!(acked[0], by3);
    assert_eq!(acked[0].len(), 34);
    assert_eq!(acked[1], by5);
    assert_eq!(acked[1].len(), 20);
    assert_eq!(received, 54);
}

use udp_probe::endpoint::Endpoint;
use udp_probe::shutdown::Phase;
use udp_probe::wire::{encode_probe, WireError};
use udp_probe::worker::{Worker, WorkerAction, WorkerEvent};

fn master() -> Endpoint {
    Endpoint::loopback(4, 1111)
}

fn datagram(v: u64) -> WorkerEvent {
    WorkerEvent::Datagram { payload: encode_probe(v), from: master() }
}

#[test]
fn acks_exactly_the_divisible_values() {
    for d in 1u64..12 {
        let mut w = Worker::new(d);
        for v in 0u64..100 {
            let a = w.handle(datagram(v));
            if v % d == 0 {
                assert_eq!(a, WorkerAction::Ack { value: v, to: master() });
            } else {
                assert_eq!(a, WorkerAction::Pass { value: v, from: master() });
            }
        }
        assert_eq!(w.phase(), Phase::Running);
    }
}

#[test]
fn ack_goes_to_the_sender() {
    let mut w = Worker::new(3);
    let other = Endpoint { ip: 0x0a00_0001, port: 9 };
    let a = w.handle(WorkerEvent::Datagram { payload: encode_probe(9), from: other });
    assert_eq!(a, WorkerAction::Ack { value: 9, to: other });
}

#[test]
fn divisor_one_acks_every_value() {
    let w = Worker::new(1);
    for v in 0u64..100 {
        assert_eq!(w.respond(&encode_probe(v), master()), WorkerAction::Ack { value: v, to: master() });
    }
}

#[test]
fn divisor_above_range_acks_zero_only() {
    let w = Worker::new(101);
    for v in 0u64..100 {
        let is_ack = matches!(w.respond(&encode_probe(v), master()), WorkerAction::Ack { .. });
        assert_eq!(is_ack, v == 0);
    }
}

#[test]
fn short_datagram_is_discarded_and_worker_goes_on() {
    let mut w = Worker::new(3);
    let a = w.handle(WorkerEvent::Datagram { payload: vec![0, 0, 0], from: master() });
    assert_eq!(a, WorkerAction::Discard { error: WireError::WrongLength { len: 3 }, from: master() });
    assert_eq!(w.phase(), Phase::Running);
    assert_eq!(w.handle(datagram(6)), WorkerAction::Ack { value: 6, to: master() });
}

#[test]
fn idle_without_signal_waits() {
    let mut w = Worker::new(5);
    assert_eq!(w.handle(WorkerEvent::Idle { stop_posted: false }), WorkerAction::Wait);
    assert_eq!(w.handle(WorkerEvent::Fault), WorkerAction::Wait);
    assert_eq!(w.phase(), Phase::Running);
}

#[test]
fn idle_with_signal_exits_and_second_signal_is_harmless() {
    let mut w = Worker::new(5);
    assert_eq!(w.handle(WorkerEvent::Idle { stop_posted: true }), WorkerAction::Exit);
    assert_eq!(w.phase(), Phase::Stopping);
    assert_eq!(w.handle(WorkerEvent::Idle { stop_posted: true }), WorkerAction::Exit);
    assert_eq!(w.handle(datagram(10)), WorkerAction::Exit);
    assert_eq!(w.phase(), Phase::Stopping);
    w.finish();
    assert_eq!(w.phase(), Phase::Stopped);
    assert_eq!(w.divisor(), 5);
}

#[test]
fn accepts_tests_divisibility() {
    let w = Worker::new(7);
    assert!(w.accepts(0));
    assert!(w.accepts(49));
    assert!(!w.accepts(50));
    assert!(w.accepts(u64::MAX - u64::MAX % 7));
}

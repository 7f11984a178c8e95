use udp_probe::wire::{ack_payload, decode_probe, encode_probe, is_ack, WireError, WORD_BYTES};

#[test]
fn encode_is_little_endian() {
    assert_eq!(encode_probe(1), vec![1, 0, 0, 0, 0, 0, 0, 0]);
    assert_eq!(encode_probe(0x0102), vec![2, 1, 0, 0, 0, 0, 0, 0]);
    assert_eq!(encode_probe(u64::MAX), vec![255; 8]);
    assert_eq!(encode_probe(0).len(), WORD_BYTES);
}

#[test]
fn decode_round_trips_every_probe_value() {
    for v in 0u64..100 {
        assert_eq!(decode_probe(&encode_probe(v)), Ok(v));
    }
    assert_eq!(decode_probe(&encode_probe(u64::MAX)), Ok(u64::MAX));
}

#[test]
fn decode_reads_given_bytes() {
    assert_eq!(decode_probe(&[0x2a, 0, 0, 0, 0, 0, 0, 1]), Ok(0x0100_0000_0000_002a));
}

#[test]
fn decode_rejects_short_and_long_datagrams() {
    assert_eq!(decode_probe(&[]), Err(WireError::WrongLength { len: 0 }));
    assert_eq!(decode_probe(&[1, 2, 3]), Err(WireError::WrongLength { len: 3 }));
    assert_eq!(decode_probe(&[0; 9]), Err(WireError::WrongLength { len: 9 }));
}

#[test]
fn ack_payload_is_ascii_ack() {
    assert_eq!(ack_payload(), b"ACK".to_vec());
    assert!(is_ack(b"ACK"));
    assert!(!is_ack(b"AC"));
    assert!(!is_ack(b"ACX"));
    assert!(!is_ack(b"ACKS"));
    assert!(!is_ack(b""));
}

//! The datagrams on the wire: a probe is one `u64` in eight little-endian
//! bytes, an acknowledgment is the three ASCII bytes `ACK`.
use vstd::bytes::{spec_u64_from_le_bytes, spec_u64_to_le_bytes, u64_from_le_bytes, u64_to_le_bytes};
use vstd::prelude::*;

verus! {

/// Width in bytes of an encoded probe value.
pub const WORD_BYTES: usize = 8;

/// Length in bytes of an acknowledgment.
pub const ACK_BYTES: usize = 3;

/// Why a datagram could not be read as a probe value.
#[derive(Clone, Copy, Debug, PartialEq, Eq, Structural)]
pub enum WireError {
    /// The datagram held `len` bytes, not exactly `WORD_BYTES`.
    WrongLength { len: usize },
}

/// The bytes that carry probe value `v`.
pub open spec fn probe_bytes(v: u64) -> Seq<u8> {
    spec_u64_to_le_bytes(v)
}

/// What a datagram of bytes `s` decodes to.
pub open spec fn probe_value(s: Seq<u8>) -> Result<u64, WireError> {
    if s.len() == WORD_BYTES {
        Ok(spec_u64_from_le_bytes(s))
    } else {
        Err(WireError::WrongLength { len: s.len() as usize })
    }
}

/// The acknowledgment payload.
pub open spec fn ack_bytes() -> Seq<u8> {
    seq![0x41u8, 0x43u8, 0x4bu8]
}

/// Encodes probe value `v` for the wire.
pub fn encode_probe(v: u64) -> (r: Vec<u8>)
    ensures
        r@ == probe_bytes(v),
        r@.len() == WORD_BYTES,
{
    u64_to_le_bytes(v)
}

/// Decodes a received datagram; any length but `WORD_BYTES` is an error.
pub fn decode_probe(payload: &[u8]) -> (r: Result<u64, WireError>)
    ensures
        r == probe_value(payload@),
{
    if payload.len() == WORD_BYTES {
        Ok(u64_from_le_bytes(payload))
    } else {
        Err(WireError::WrongLength { len: payload.len() })
    }
}

/// The payload a worker sends back for an accepted value.
pub fn ack_payload() -> (r: Vec<u8>)
    ensures
        r@ == ack_bytes(),
{
    vec![0x41u8, 0x43u8, 0x4bu8]
}

/// Whether a reply is exactly the acknowledgment.
pub fn is_ack(payload: &[u8]) -> (r: bool)
    ensures
        r == (payload@ == ack_bytes()),
{
    if payload.len() != ACK_BYTES {
        proof {
            assert(payload@.len() != ack_bytes().len());
        }
        return false;
    }
    let same = payload[0] == 0x41u8 && payload[1] == 0x43u8 && payload[2] == 0x4bu8;
    if same {
        assert(payload@ =~= ack_bytes());
    } else {
        assert(payload@ != ack_bytes()) by {
            if payload@ == ack_bytes() {
                assert(payload@[0] == ack_bytes()[0]);
                assert(payload@[1] == ack_bytes()[1]);
                assert(payload@[2] == ack_bytes()[2]);
            }
        }
    }
    same
}

/// A probe value survives its trip over the wire: decoding the bytes of `v`
/// gives back `v`.
pub proof fn lemma_probe_round_trip(v: u64)
    ensures
        probe_bytes(v).len() == WORD_BYTES,
        probe_value(probe_bytes(v)) == Ok::<u64, WireError>(v),
{
    vstd::bytes::lemma_auto_spec_u64_to_from_le_bytes();
}

/// Every datagram of the right width is the encoding of exactly one value.
pub proof fn lemma_probe_bytes_exact(s: Seq<u8>, v: u64)
    requires
        s.len() == WORD_BYTES,
    ensures
        (probe_value(s) == Ok::<u64, WireError>(v)) == (s == probe_bytes(v)),
{
    vstd::bytes::lemma_auto_spec_u64_to_from_le_bytes();
    assert(spec_u64_to_le_bytes(spec_u64_from_le_bytes(s)) == s);
}

} // verus!

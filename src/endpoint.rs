//! UDP endpoints, as an IPv4 address and a port.
use vstd::prelude::*;

verus! {

/// An IPv4 address, as a big-endian `u32`, and a UDP port.
#[derive(Clone, Copy, Debug, PartialEq, Eq, Structural, Hash)]
pub struct Endpoint {
    pub ip: u32,
    pub port: u16,
}

/// `127.0.0.0` as a `u32`.
pub const LOOPBACK_BASE: u32 = 0x7f00_0000;

impl Endpoint {
    /// The endpoint `127.0.0.<host>:<port>`.
    pub fn loopback(host: u8, port: u16) -> (r: Endpoint)
        ensures
            r.ip == LOOPBACK_BASE + host,
            r.port == port,
    {
        Endpoint { ip: LOOPBACK_BASE + host as u32, port }
    }
}

} // verus!

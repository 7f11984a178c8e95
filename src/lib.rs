//! A small UDP probe harness, as a verified library.
//!
//! A coordinator broadcasts the probe values `0..K` to a fixed set of workers;
//! each worker tests every value it receives against its own divisor and
//! answers with an acknowledgment when the value is divisible. Every unit stops
//! cooperatively: it looks at its shutdown signal only while idle.
//!
//! The library holds the decisions of every unit as state machines from event
//! to action; sockets, channels and threads belong to the program around it.
pub mod coordinator;
pub mod deployment;
pub mod endpoint;
pub mod shutdown;
pub mod wire;
pub mod worker;

//! A probe for servers that speak the connectionless "unconnected ping"
//! discovery exchange: the wire codec for the probe request and its reply,
//! and the per-round decisions of the probe loop.

pub mod wire;
pub mod protocol;
pub mod session;
pub mod report;
pub mod target;

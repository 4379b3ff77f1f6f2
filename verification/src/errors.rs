//! Errors of the tunnel.
use vstd::prelude::*;

verus! {

/// Why a packet was not processed.
#[derive(Clone, Copy, Debug, PartialEq, Eq, Structural)]
pub enum WireGuardError {
    /// The packet is neither a known message nor a well-formed IP packet.
    InvalidPacket,
    /// No session is stored in the slot that the packet addresses.
    NoCurrentSession,
    /// The handshake, a session or the rate limiter failed, with a code of its own.
    Component(u32),
}

} // verus!

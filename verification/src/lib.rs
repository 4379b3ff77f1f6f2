//! The control logic of a point-to-point WireGuard tunnel.
pub mod clock;
pub mod errors;
pub mod handshake;
pub mod header_laws;
pub mod ip;
pub mod keys;
pub mod laws;
pub mod model;
pub mod packet;
pub mod rate_limiter;
pub mod session;
pub mod step_laws;
pub mod timers;
pub mod tunn;

pub use crate::packet::HandshakeInit;
pub use crate::packet::HandshakeResponse;
pub use crate::packet::Packet;
pub use crate::packet::PacketCookieReply;
pub use crate::packet::PacketData;
pub use crate::tunn::Tunn;
pub use crate::tunn::TunnResult;

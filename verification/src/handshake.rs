//! What the tunnel knows of its handshake. The noise protocol itself is run by the program around
//! the tunnel, from the parameters stored here.
use std::time::Instant;
use vstd::prelude::*;

verus! {

/// How far the handshake has come.
#[derive(Clone, Copy, Debug, PartialEq, Eq)]
pub struct HandshakeStatus {
    /// An initiation was sent or received and the handshake is not finished.
    pub in_progress: bool,
    /// The last handshake was given up.
    pub expired: bool,
    /// The round-trip time in milliseconds of the last handshake that was finished.
    pub last_rtt: Option<u32>,
}

/// The parameters and the status of the handshake.
#[derive(Clone, Copy)]
pub struct Handshake {
    pub static_private: [u8; 32],
    pub static_public: [u8; 32],
    pub peer_static_public: [u8; 32],
    /// The index of the first session; later sessions count up from it.
    pub first_index: u32,
    pub preshared_key: Option<[u8; 32]>,
    pub created_at: Instant,
    pub status: HandshakeStatus,
}

impl Handshake {
    /// A handshake that was not started yet.
    pub fn new(
        static_private: [u8; 32],
        static_public: [u8; 32],
        peer_static_public: [u8; 32],
        first_index: u32,
        preshared_key: Option<[u8; 32]>,
        now: Instant,
    ) -> (h: Handshake)
        ensures
            h == (Handshake {
                static_private,
                static_public,
                peer_static_public,
                first_index,
                preshared_key,
                created_at: now,
                status: HandshakeStatus { in_progress: false, expired: false, last_rtt: None },
            }),
    {
        Handshake {
            static_private,
            static_public,
            peer_static_public,
            first_index,
            preshared_key,
            created_at: now,
            status: HandshakeStatus { in_progress: false, expired: false, last_rtt: None },
        }
    }
}

} // verus!

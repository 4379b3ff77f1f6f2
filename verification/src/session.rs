//! What the tunnel knows of an established session. The keys and the replay window stay with the
//! program that seals and opens packets.
use std::time::Instant;
use vstd::prelude::*;

use crate::model;
use crate::model::N_SESSIONS;

verus! {

/// An established session.
#[derive(Clone, Copy, Debug)]
pub struct Session {
    /// The index by which the peer addresses this session.
    pub local_index: usize,
    /// When the handshake of this session was completed.
    pub established_at: Instant,
}

impl Session {
    /// The slot of the ring in which this session is stored.
    pub fn slot(&self) -> (slot: usize)
        ensures
            slot == model::slot(self.local_index as int),
            slot < N_SESSIONS,
            slot == self.local_index % 8,
    {
        self.local_index % N_SESSIONS
    }
}

} // verus!

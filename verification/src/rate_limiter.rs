//! What the tunnel knows of the rate limiter that guards its handshakes.
use std::time::Instant;
use vstd::prelude::*;

verus! {

/// The parameters of a rate limiter.
#[derive(Clone, Copy, Debug)]
pub struct RateLimiter {
    /// The public key that the handshake messages have to be addressed to.
    pub public_key: [u8; 32],
    /// The number of handshakes per second that are let through.
    pub limit: u64,
    pub created_at: Instant,
}

impl RateLimiter {
    pub fn new_at(public_key: &[u8; 32], limit: u64, now: Instant) -> (r: RateLimiter)
        ensures
            r == (RateLimiter { public_key: *public_key, limit, created_at: now }),
    {
        RateLimiter { public_key: *public_key, limit, created_at: now }
    }
}

} // verus!

//! What the tunnel tells its timers. The timers themselves run in the program around the tunnel,
//! which takes the events in the order in which they happened.
use std::time::Instant;
use vstd::prelude::*;

verus! {

/// Something that a timer measures the time from.
#[derive(Clone, Copy, Debug, PartialEq, Eq, Structural)]
pub enum TimerName {
    /// A handshake was started.
    TimeLastHandshakeStarted,
    /// A packet of the peer was accepted.
    TimeLastPacketReceived,
    /// A packet was sent to the peer.
    TimeLastPacketSent,
    /// An IP packet of the peer was accepted.
    TimeLastDataPacketReceived,
    /// A packet that is no keepalive was sent to the peer.
    TimeLastDataPacketSent,
}

/// What happened, and when.
#[derive(Clone, Copy, Debug)]
pub enum TimerEvent {
    /// A timer starts anew.
    Tick(TimerName, Instant),
    /// A session was established, by an initiation of this tunnel or of its peer.
    SessionEstablished { is_initiator: bool, at: Instant },
    /// All timers start anew.
    Clear(Instant),
}

/// With what the timers of a tunnel are set up.
#[derive(Clone, Copy, Debug)]
pub struct TimerSettings {
    /// The interval in seconds at which keepalives are sent without cause.
    pub persistent_keepalive: Option<u16>,
    /// The timers also reset the rate limiter, because no other tunnel shares it.
    pub should_reset_rr: bool,
    /// What the jitter of the timers is drawn from.
    pub rng_seed: u64,
    pub created_at: Instant,
}

/// The settings of the timers and the events that they were not told of yet.
#[derive(Debug)]
pub struct Timers {
    pub settings: TimerSettings,
    pub events: Vec<TimerEvent>,
}

impl Timers {
    pub fn new(
        persistent_keepalive: Option<u16>,
        should_reset_rr: bool,
        rng_seed: u64,
        now: Instant,
    ) -> (t: Timers)
        ensures
            t.settings == (TimerSettings {
                persistent_keepalive,
                should_reset_rr,
                rng_seed,
                created_at: now,
            }),
            t.events@ == Seq::<TimerEvent>::empty(),
    {
        Timers {
            settings: TimerSettings {
                persistent_keepalive,
                should_reset_rr,
                rng_seed,
                created_at: now,
            },
            events: Vec::new(),
        }
    }
}

} // verus!

//! The mathematical model of a tunnel: its state, what it asks the program around it to do, and how
//! each operation changes the state.
use std::sync::Arc;
use std::time::Instant;
use vstd::prelude::*;

use crate::clock;
use crate::errors::WireGuardError;
use crate::handshake::Handshake;
use crate::handshake::HandshakeStatus;
use crate::ip;
use crate::ip::Address;
use crate::packet::Message;
use crate::rate_limiter::RateLimiter;
use crate::session::Session;
use crate::timers::TimerEvent;
use crate::timers::TimerName;
use crate::timers::TimerSettings;

verus! {

/// How many packets wait for a session at most.
pub const MAX_QUEUE_DEPTH: usize = 256;

/// number of sessions in the ring, better keep a PoT
pub const N_SESSIONS: usize = 8;

/// The default value to use for rate limiting, when no other rate limiter is defined
pub const PEER_HANDSHAKE_RATE_LIMIT: u64 = 10;

/// Whether a packet may be sent with the current session.
#[derive(Clone, Copy, Debug, PartialEq, Eq)]
pub struct Readiness {
    /// The current session is young enough to be used.
    pub should_use: bool,
    /// The peer initiated the last session, so that a new one is for the peer to start.
    pub is_responder: bool,
}

/// The state of a tunnel.
pub struct State {
    pub handshake: Handshake,
    /// The slots of the ring of sessions.
    pub sessions: Seq<Option<Session>>,
    /// The index of the current session.
    pub current: int,
    /// The packets that wait for a session, the oldest first.
    pub queue: Seq<Seq<u8>>,
    pub timers: TimerSettings,
    /// What happened since the timers were last told, the oldest event first.
    pub events: Seq<TimerEvent>,
    /// The number of bytes of the tunnel interface that were sent.
    pub tx_bytes: int,
    /// The number of bytes that were delivered to the tunnel interface.
    pub rx_bytes: int,
    pub rate_limiter: RateLimiter,
}

/// What a tunnel asks the program around it to do.
pub enum Request {
    Done,
    Fail(WireGuardError),
    Seal { slot: int, payload: Seq<u8>, queued: bool, now: Instant },
    Initiate { starting_new: bool, retry: Option<Seq<u8>>, now: Instant },
    Verify { src_addr: Option<Address>, datagram: Seq<u8>, now: Instant },
    SendCookie(Seq<u8>),
    ReceiveInit { message: Message, now: Instant },
    ReceiveResponse { message: Message, now: Instant },
    ReceiveCookieReply { message: Message, now: Instant },
    Open { slot: int, message: Message, now: Instant },
}

/// A request to seal a packet with the session in a slot.
pub struct SealRequest {
    pub slot: int,
    pub payload: Seq<u8>,
    /// The packet had to wait in the queue.
    pub queued: bool,
    pub now: Instant,
}

impl SealRequest {
    /// The packet, if it has to return to the queue when it cannot be sent.
    pub open spec fn retry(self) -> Option<Seq<u8>> {
        if self.queued {
            Some(self.payload)
        } else {
            None
        }
    }
}

/// A request to format a handshake initiation.
pub struct InitiationRequest {
    /// No other handshake is in progress.
    pub starting_new: bool,
    /// The queued packet on whose behalf a session is wanted.
    pub retry: Option<Seq<u8>>,
    pub now: Instant,
}

/// A request to open a data packet with the session in a slot.
pub struct OpenRequest {
    pub slot: int,
    /// The index of the session that the packet addresses.
    pub receiver_idx: u32,
    pub message: Message,
    pub now: Instant,
}

/// What a call on a tunnel comes to.
pub enum Outcome {
    Done,
    Error(WireGuardError),
    WriteToNetwork(Seq<u8>),
    WriteToTunnel(Seq<u8>, Address),
}

/// The slot of the ring in which a session is stored.
pub open spec fn slot(index: int) -> int {
    index % (N_SESSIONS as int)
}

/// The slots of the ring, beginning with that of `index` and going back from there.
pub open spec fn slots_back_from(index: int) -> Seq<int> {
    Seq::new(N_SESSIONS as nat, |i: int| slot(index - i))
}

/// The ring without sessions.
pub open spec fn no_sessions() -> Seq<Option<Session>> {
    Seq::new(N_SESSIONS as nat, |i: int| None)
}

impl State {
    /// A tunnel that was not used yet.
    pub open spec fn initial(
        handshake: Handshake,
        timers: TimerSettings,
        rate_limiter: RateLimiter,
    ) -> State {
        State {
            handshake,
            sessions: no_sessions(),
            current: 0,
            queue: Seq::empty(),
            timers,
            events: Seq::empty(),
            tx_bytes: 0,
            rx_bytes: 0,
            rate_limiter,
        }
    }

    /// Every session is stored in the slot of its index, and the queue is not too long.
    pub open spec fn well_formed(self) -> bool {
        &&& self.sessions.len() == N_SESSIONS
        &&& forall|i: int|
            0 <= i < N_SESSIONS && (#[trigger] self.sessions[i]) is Some ==> slot(
                self.sessions[i]->0.local_index as int,
            ) == i
        &&& self.queue.len() <= MAX_QUEUE_DEPTH
    }

    /// The events of `next` begin with those of this state, and no counter of `next` is lower.
    pub open spec fn only_grows_to(self, next: State) -> bool {
        &&& self.events.is_prefix_of(next.events)
        &&& self.tx_bytes <= next.tx_bytes
        &&& self.rx_bytes <= next.rx_bytes
    }

    /// The session in the slot of `index`.
    pub open spec fn session_for(self, index: int) -> Option<Session> {
        self.sessions[slot(index)]
    }

    pub open spec fn with_event(self, event: TimerEvent) -> State {
        State { events: self.events.push(event), ..self }
    }

    pub open spec fn ticked(self, name: TimerName, at: Instant) -> State {
        self.with_event(TimerEvent::Tick(name, at))
    }

    pub open spec fn with_status(self, status: HandshakeStatus) -> State {
        State { handshake: Handshake { status, ..self.handshake }, ..self }
    }

    /// `packet` joins the back of the queue, unless the queue is full.
    pub open spec fn enqueued(self, packet: Seq<u8>) -> State {
        if self.queue.len() < MAX_QUEUE_DEPTH {
            State { queue: self.queue.push(packet), ..self }
        } else {
            self
        }
    }

    /// `packet` returns to the front of the queue, unless the queue is full.
    pub open spec fn requeued(self, packet: Seq<u8>) -> State {
        if self.queue.len() < MAX_QUEUE_DEPTH {
            State { queue: seq![packet] + self.queue, ..self }
        } else {
            self
        }
    }

    /// The oldest packet leaves the queue.
    pub open spec fn dequeued(self) -> State {
        if self.queue.len() > 0 {
            State { queue: self.queue.drop_first(), ..self }
        } else {
            self
        }
    }

    /// `session` takes the slot of its index.
    pub open spec fn storing(self, session: Session) -> State {
        State {
            sessions: self.sessions.update(slot(session.local_index as int), Some(session)),
            ..self
        }
    }

    /// The sessions take the slots of their indices, one after the other.
    pub open spec fn storing_all(self, sessions: Seq<Session>) -> State
        decreases sessions.len(),
    {
        if sessions.len() == 0 {
            self
        } else {
            self.storing_all(sessions.drop_last()).storing(sessions.last())
        }
    }

    /// The current session was established later than the session for `index`, and is another one.
    pub open spec fn current_is_newer_than(self, index: int) -> bool {
        &&& slot(self.current) != slot(index)
        &&& self.session_for(self.current) matches Some(current)
        &&& self.session_for(index) matches Some(other)
        &&& clock::is_later(current.established_at, other.established_at)
    }

    /// The session for `index` becomes the current one, unless the current one is newer.
    pub open spec fn selecting(self, index: int) -> State {
        if self.current_is_newer_than(index) {
            self
        } else {
            State { current: index, ..self }
        }
    }

    /// The current session is one of the two, and the other one is not later. Where one of them is
    /// missing, nothing is said.
    pub open spec fn uses_newer_of(self, a: Option<Session>, b: Option<Session>) -> bool {
        a is Some && b is Some ==> {
            &&& self.session_for(self.current) matches Some(used)
            &&& used == a->0 || used == b->0
            &&& used == a->0 || !clock::is_later(a->0.established_at, used.established_at)
            &&& used == b->0 || !clock::is_later(b->0.established_at, used.established_at)
        }
    }

    /// The slots that hold a session, the current one first.
    pub open spec fn recent_slots(self) -> Seq<int> {
        slots_back_from(self.current).filter(|s: int| self.sessions[s] is Some)
    }

    /// There is a current session and packets may be sent with it.
    pub open spec fn can_send(self, ready: Readiness) -> bool {
        self.session_for(self.current) is Some && (ready.should_use || ready.is_responder)
    }

    /// A handshake is in progress and is not to be started over.
    pub open spec fn awaits_handshake(self, force_resend: bool) -> bool {
        self.handshake.status.in_progress && !force_resend
    }

    /// After it was decided whether a handshake is initiated.
    pub open spec fn initiating(self, force_resend: bool, now: Instant) -> State {
        if !self.awaits_handshake(force_resend) && self.handshake.status.expired {
            self.with_event(TimerEvent::Clear(now))
        } else {
            self
        }
    }

    /// The request for a handshake initiation.
    pub open spec fn initiation(
        self,
        force_resend: bool,
        retry: Option<Seq<u8>>,
        now: Instant,
    ) -> Request {
        if self.awaits_handshake(force_resend) {
            Request::Done
        } else {
            Request::Initiate { starting_new: !self.handshake.status.in_progress, retry, now }
        }
    }

    /// After it was decided how `packet` is sent.
    pub open spec fn encapsulating(self, packet: Seq<u8>, ready: Readiness, now: Instant) -> State {
        if self.can_send(ready) {
            self
        } else {
            self.enqueued(packet).initiating(false, now)
        }
    }

    /// The request by which `packet` is sent, or a session for it is asked for.
    pub open spec fn encapsulation(
        self,
        packet: Seq<u8>,
        queued: bool,
        ready: Readiness,
        now: Instant,
    ) -> Request {
        if self.can_send(ready) {
            Request::Seal { slot: slot(self.current), payload: packet, queued, now }
        } else {
            self.initiation(
                false,
                if queued {
                    Some(packet)
                } else {
                    None
                },
                now,
            )
        }
    }

    /// After it was decided how the oldest packet of the queue is sent.
    pub open spec fn sending_queued(self, ready: Readiness, now: Instant) -> State {
        if self.queue.len() == 0 {
            self
        } else {
            self.dequeued().encapsulating(self.queue.first(), ready, now)
        }
    }

    /// The request by which the oldest packet of the queue is sent.
    pub open spec fn queued_encapsulation(self, ready: Readiness, now: Instant) -> Request {
        if self.queue.len() == 0 {
            Request::Done
        } else {
            self.dequeued().encapsulation(self.queue.first(), true, ready, now)
        }
    }

    /// After a datagram came in: an empty one asks for the queue to be served.
    pub open spec fn decapsulating(
        self,
        datagram: Seq<u8>,
        ready: Readiness,
        now: Instant,
    ) -> State {
        if datagram.len() == 0 {
            self.sending_queued(ready, now)
        } else {
            self
        }
    }

    /// The request by which a datagram is dealt with.
    pub open spec fn decapsulation(
        self,
        src_addr: Option<Address>,
        datagram: Seq<u8>,
        ready: Readiness,
        now: Instant,
    ) -> Request {
        if datagram.len() == 0 {
            self.queued_encapsulation(ready, now)
        } else {
            Request::Verify { src_addr, datagram, now }
        }
    }

    /// After a packet was sealed and sent.
    pub open spec fn sent(self, payload: Seq<u8>, now: Instant) -> State {
        let ticked = self.ticked(TimerName::TimeLastPacketSent, now);
        let ticked = if payload.len() == 0 {
            ticked
        } else {
            ticked.ticked(TimerName::TimeLastDataPacketSent, now)
        };
        State { tx_bytes: self.tx_bytes + payload.len(), ..ticked }
    }

    /// After `n` packets of the queue were sealed and sent, one after the other.
    pub open spec fn served(self, n: nat, ready: Readiness, now: Instant) -> State
        decreases n,
    {
        if n == 0 {
            self
        } else {
            let before = self.served((n - 1) as nat, ready, now);
            before.sending_queued(ready, now).sent(before.queue.first(), now)
        }
    }

    /// After a packet could not be sealed or a handshake could not be initiated: a packet that came
    /// out of the queue returns to it.
    pub open spec fn not_sent(self, retry: Option<Seq<u8>>) -> State {
        match retry {
            Some(packet) => self.requeued(packet),
            None => self,
        }
    }

    /// What that comes to: the error is reported, unless a later call will try again.
    pub open spec fn not_sent_outcome(retry: Option<Seq<u8>>, e: WireGuardError) -> Outcome {
        match retry {
            Some(packet) => Outcome::Done,
            None => Outcome::Error(e),
        }
    }

    /// After a handshake initiation was sent.
    pub open spec fn initiated(self, starting_new: bool, now: Instant) -> State {
        let started = if starting_new {
            self.ticked(TimerName::TimeLastHandshakeStarted, now)
        } else {
            self
        };
        started.ticked(TimerName::TimeLastPacketSent, now)
    }

    /// The request by which a packet that passed the rate limiter is handled.
    pub open spec fn handling(self, message: Message, now: Instant) -> Request {
        match message {
            Message::HandshakeInit { .. } => Request::ReceiveInit { message, now },
            Message::HandshakeResponse { .. } => Request::ReceiveResponse { message, now },
            Message::CookieReply { .. } => Request::ReceiveCookieReply { message, now },
            Message::Data { receiver_idx, .. } => if self.session_for(receiver_idx as int) is Some {
                Request::Open { slot: slot(receiver_idx as int), message, now }
            } else {
                Request::Fail(WireGuardError::NoCurrentSession)
            },
        }
    }

    /// After an initiation of the peer was answered and `session` established.
    pub open spec fn responded(self, session: Session, now: Instant) -> State {
        self.storing(session).ticked(TimerName::TimeLastPacketReceived, now).ticked(
            TimerName::TimeLastPacketSent,
            now,
        ).with_event(TimerEvent::SessionEstablished { is_initiator: false, at: now })
    }

    /// After the peer answered an initiation, `session` was established and a keepalive sealed with
    /// it.
    pub open spec fn established(self, session: Session, now: Instant) -> State {
        self.storing(session).ticked(TimerName::TimeLastPacketReceived, now).with_event(
            TimerEvent::SessionEstablished { is_initiator: true, at: now },
        ).selecting(session.local_index as int)
    }

    /// After a data packet for the session with `index` was opened and `payload` found in it.
    pub open spec fn received(self, index: int, payload: Seq<u8>, now: Instant) -> State {
        self.selecting(index).ticked(TimerName::TimeLastPacketReceived, now).delivering(payload, now)
    }

    /// After the IP packet in `payload`, if there is one, was handed to the tunnel interface.
    pub open spec fn delivering(self, payload: Seq<u8>, now: Instant) -> State {
        if ip::holds_ip_packet(payload) {
            State {
                rx_bytes: self.rx_bytes + ip::declared_len(payload),
                ..self.ticked(TimerName::TimeLastDataPacketReceived, now)
            }
        } else {
            self
        }
    }

    /// After the private key was replaced.
    pub open spec fn rekeyed(
        self,
        static_private: [u8; 32],
        static_public: [u8; 32],
        rate_limiter: Option<Arc<RateLimiter>>,
        now: Instant,
    ) -> State {
        State {
            handshake: Handshake { static_private, static_public, ..self.handshake },
            sessions: no_sessions(),
            timers: TimerSettings { should_reset_rr: rate_limiter is None, ..self.timers },
            rate_limiter: limiter_or_own(rate_limiter, static_public, now),
            ..self
        }
    }
}

/// The number of bytes in all packets together.
pub open spec fn total_len(packets: Seq<Seq<u8>>) -> nat
    decreases packets.len(),
{
    if packets.len() == 0 {
        0
    } else {
        total_len(packets.drop_last()) + packets.last().len()
    }
}

/// The index of the first session of a tunnel: the low 24 bits of the index of the tunnel, and room
/// for 256 sessions.
pub open spec fn first_session_index(index: u32) -> u32 {
    (index * 0x100 % 0x1_0000_0000) as u32
}

/// The handshake of a new tunnel.
pub open spec fn new_handshake(
    static_private: [u8; 32],
    static_public: [u8; 32],
    peer_static_public: [u8; 32],
    preshared_key: Option<[u8; 32]>,
    index: u32,
    now: Instant,
) -> Handshake {
    Handshake {
        static_private,
        static_public,
        peer_static_public,
        first_index: first_session_index(index),
        preshared_key,
        created_at: now,
        status: HandshakeStatus { in_progress: false, expired: false, last_rtt: None },
    }
}

/// The given rate limiter, or a new one for the given key.
pub open spec fn limiter_or_own(
    given: Option<Arc<RateLimiter>>,
    public_key: [u8; 32],
    now: Instant,
) -> RateLimiter {
    match given {
        Some(limiter) => *limiter,
        None => RateLimiter { public_key, limit: PEER_HANDSHAKE_RATE_LIMIT, created_at: now },
    }
}

/// What the payload of an opened data packet comes to. An empty payload is a keepalive and no error.
pub open spec fn delivery(payload: Seq<u8>) -> Outcome {
    if payload.len() == 0 {
        Outcome::Done
    } else if ip::holds_ip_packet(payload) {
        Outcome::WriteToTunnel(ip::ip_packet(payload), ip::source(payload)->0)
    } else {
        Outcome::Error(WireGuardError::InvalidPacket)
    }
}

} // verus!

//! The tunnel.
use std::collections::VecDeque;
use std::sync::Arc;
use std::time::Instant;
use vstd::prelude::*;

use crate::clock;
use crate::errors::WireGuardError;
use crate::handshake::Handshake;
use crate::handshake::HandshakeStatus;
use crate::ip;
use crate::ip::IpAddr;
use crate::ip::Ipv4Addr;
use crate::ip::Ipv6Addr;
use crate::keys;
use crate::model;
use crate::model::InitiationRequest;
use crate::model::OpenRequest;
use crate::model::Outcome;
use crate::model::Readiness;
use crate::model::Request;
use crate::model::SealRequest;
use crate::model::State;
use crate::model::MAX_QUEUE_DEPTH;
use crate::model::N_SESSIONS;
use crate::model::PEER_HANDSHAKE_RATE_LIMIT;
use crate::packet;
use crate::packet::HandshakeInit;
use crate::packet::HandshakeResponse;
use crate::packet::Message;
use crate::packet::Packet;
use crate::packet::PacketCookieReply;
use crate::packet::PacketData;
use crate::rate_limiter::RateLimiter;
use crate::session::Session;
use crate::timers::TimerEvent;
use crate::timers::TimerName;
use crate::timers::TimerSettings;
use crate::timers::Timers;

verus! {

/// What the caller of a tunnel has to do with the outcome of a call.
#[derive(Debug)]
pub enum TunnResult<'a> {
    Done,
    Error(WireGuardError),
    WriteToNetwork(&'a mut [u8]),
    WriteToTunnelV4(&'a mut [u8], Ipv4Addr),
    WriteToTunnelV6(&'a mut [u8], Ipv6Addr),
}

impl<'a> View for TunnResult<'a> {
    type V = Outcome;

    open spec fn view(&self) -> Outcome {
        match self {
            TunnResult::Done => Outcome::Done,
            TunnResult::Error(e) => Outcome::Error(*e),
            TunnResult::WriteToNetwork(p) => Outcome::WriteToNetwork((*p)@),
            TunnResult::WriteToTunnelV4(p, a) => Outcome::WriteToTunnel((*p)@, IpAddr::V4(*a)@),
            TunnResult::WriteToTunnelV6(p, a) => Outcome::WriteToTunnel((*p)@, IpAddr::V6(*a)@),
        }
    }
}

impl<'a> vstd::std_specs::convert::FromSpecImpl<WireGuardError> for TunnResult<'a> {
    open spec fn obeys_from_spec() -> bool {
        true
    }

    open spec fn from_spec(err: WireGuardError) -> TunnResult<'a> {
        TunnResult::Error(err)
    }
}

impl<'a> From<WireGuardError> for TunnResult<'a> {
    fn from(err: WireGuardError) -> (r: TunnResult<'a>) {
        TunnResult::Error(err)
    }
}

/// A packet of the tunnel interface that is to be sent.
#[derive(Debug)]
enum Payload<'p> {
    /// The caller just handed it in.
    Direct(&'p [u8]),
    /// It had to wait in the queue.
    Queued(Vec<u8>),
}

impl<'p> Payload<'p> {
    spec fn packet(self) -> Seq<u8> {
        match self {
            Payload::Direct(p) => p@,
            Payload::Queued(p) => p@,
        }
    }

    fn bytes(&self) -> (b: &[u8])
        ensures
            b@ == self.packet(),
    {
        match self {
            Payload::Direct(p) => p,
            Payload::Queued(p) => p.as_slice(),
        }
    }
}

/// The request to seal a packet with the session in a slot.
#[derive(Debug)]
pub struct Seal<'p> {
    slot: usize,
    payload: Payload<'p>,
    now: Instant,
}

impl<'p> View for Seal<'p> {
    type V = SealRequest;

    closed spec fn view(&self) -> SealRequest {
        SealRequest {
            slot: self.slot as int,
            payload: self.payload.packet(),
            queued: self.payload is Queued,
            now: self.now,
        }
    }
}

impl<'p> Seal<'p> {
    /// The slot of the session to seal with.
    pub fn slot(&self) -> (slot: usize)
        ensures
            slot == self@.slot,
    {
        self.slot
    }

    /// The packet to seal.
    pub fn payload(&self) -> (b: &[u8])
        ensures
            b@ == self@.payload,
    {
        self.payload.bytes()
    }
}

/// The request to format a handshake initiation.
#[derive(Debug)]
pub struct Initiation {
    /// No other handshake is in progress.
    starting_new: bool,
    /// The queued packet on whose behalf a session is wanted.
    retry: Option<Vec<u8>>,
    now: Instant,
}

impl View for Initiation {
    type V = InitiationRequest;

    closed spec fn view(&self) -> InitiationRequest {
        InitiationRequest {
            starting_new: self.starting_new,
            retry: bytes_of(self.retry),
            now: self.now,
        }
    }
}

impl Initiation {
    /// No other handshake is in progress.
    pub fn starting_new(&self) -> (b: bool)
        ensures
            b == self@.starting_new,
    {
        self.starting_new
    }

    /// When the initiation was asked for.
    pub fn now(&self) -> (at: Instant)
        ensures
            at == self@.now,
    {
        self.now
    }
}

/// The request to open a data packet with the session in a slot.
#[derive(Debug)]
pub struct Open<'p> {
    slot: usize,
    packet: PacketData<'p>,
    now: Instant,
}

impl<'p> View for Open<'p> {
    type V = OpenRequest;

    closed spec fn view(&self) -> OpenRequest {
        OpenRequest {
            slot: self.slot as int,
            receiver_idx: self.packet.receiver_idx,
            message: self.packet.message(),
            now: self.now,
        }
    }
}

/// The session that a request to open addresses is the one that its packet names.
pub proof fn law_open_request_names_its_session(open: Open<'_>)
    ensures
        open@.message matches Message::Data { receiver_idx, .. } && receiver_idx == open@.receiver_idx,
{
}

impl<'p> Open<'p> {
    /// The slot of the session to open with.
    pub fn slot(&self) -> (slot: usize)
        ensures
            slot == self@.slot,
    {
        self.slot
    }

    /// The packet to open.
    pub fn packet(&self) -> (packet: PacketData<'p>)
        ensures
            packet.message() == self@.message,
            packet.receiver_idx == self@.receiver_idx,
    {
        self.packet
    }
}

/// What the program around a tunnel has to do before a call is complete.
#[derive(Debug)]
pub enum Action<'p> {
    /// Nothing: the call is complete.
    Done,
    /// Nothing: the call has failed.
    Fail(WireGuardError),
    /// Seal a packet, then call [`Tunn::data_sealed`].
    Seal(Seal<'p>),
    /// Format a handshake initiation, then call [`Tunn::initiation_formatted`].
    Initiate(Initiation),
    /// Ask the rate limiter about a datagram, then call [`Tunn::datagram_verified`].
    Verify { src_addr: Option<IpAddr>, datagram: &'p [u8], now: Instant },
    /// Call [`Tunn::send_cookie`].
    SendCookie(&'p [u8]),
    /// Let the handshake answer an initiation, then call [`Tunn::handle_handshake_init`].
    ReceiveInit { init: HandshakeInit<'p>, now: Instant },
    /// Let the handshake take a response and seal an empty packet with the session that it gives,
    /// then call [`Tunn::handle_handshake_response`].
    ReceiveResponse { response: HandshakeResponse<'p>, now: Instant },
    /// Let the handshake take a cookie, then call [`Tunn::handle_cookie_reply`].
    ReceiveCookieReply { reply: PacketCookieReply<'p>, now: Instant },
    /// Open a data packet, then call [`Tunn::data_opened`].
    Open(Open<'p>),
}

impl<'p> View for Action<'p> {
    type V = Request;

    open spec fn view(&self) -> Request {
        match self {
            Action::Done => Request::Done,
            Action::Fail(e) => Request::Fail(*e),
            Action::Seal(s) => Request::Seal {
                slot: s@.slot,
                payload: s@.payload,
                queued: s@.queued,
                now: s@.now,
            },
            Action::Initiate(i) => Request::Initiate {
                starting_new: i@.starting_new,
                retry: i@.retry,
                now: i@.now,
            },
            Action::Verify { src_addr, datagram, now } => Request::Verify {
                src_addr: address_of(*src_addr),
                datagram: datagram@,
                now: *now,
            },
            Action::SendCookie(c) => Request::SendCookie(c@),
            Action::ReceiveInit { init, now } => Request::ReceiveInit {
                message: init.message(),
                now: *now,
            },
            Action::ReceiveResponse { response, now } => Request::ReceiveResponse {
                message: response.message(),
                now: *now,
            },
            Action::ReceiveCookieReply { reply, now } => Request::ReceiveCookieReply {
                message: reply.message(),
                now: *now,
            },
            Action::Open(o) => Request::Open {
                slot: o@.slot,
                message: o@.message,
                now: o@.now,
            },
        }
    }
}

/// The bytes of a packet, if there is one.
pub open spec fn bytes_of(packet: Option<Vec<u8>>) -> Option<Seq<u8>> {
    match packet {
        Some(p) => Some(p@),
        None => None,
    }
}

/// The model of an address, if there is one.
pub open spec fn address_of(addr: Option<IpAddr>) -> Option<ip::Address> {
    match addr {
        Some(a) => Some(a@),
        None => None,
    }
}

/// `state` is that of a new tunnel.
pub open spec fn is_new(
    state: State,
    static_private: [u8; 32],
    peer_static_public: [u8; 32],
    preshared_key: Option<[u8; 32]>,
    persistent_keepalive: Option<u16>,
    index: u32,
    rate_limiter: Option<Arc<RateLimiter>>,
    rng_seed: u64,
    now: Instant,
) -> bool {
    let static_public = state.handshake.static_public;
    &&& static_public@ == keys::x25519_public(static_private@)
    &&& state == State::initial(
        model::new_handshake(
            static_private,
            static_public,
            peer_static_public,
            preshared_key,
            index,
            now,
        ),
        TimerSettings {
            persistent_keepalive,
            should_reset_rr: rate_limiter is None,
            rng_seed,
            created_at: now,
        },
        model::limiter_or_own(rate_limiter, static_public, now),
    )
}

/// What the rate limiter says of a datagram.
#[derive(Debug)]
pub enum Verification<'p> {
    /// It is to be handled.
    Accepted(Packet<'p>),
    /// Its sender is to be told a cookie first.
    Cookie(&'p [u8]),
    /// It is to be dropped.
    Rejected(WireGuardError),
}

/// Tunnel represents a point-to-point WireGuard connection
pub struct Tunn {
    /// The handshake currently in progress
    handshake: Handshake,
    /// The N_SESSIONS most recent sessions, index is session id modulo N_SESSIONS
    sessions: [Option<Session>; N_SESSIONS],
    /// Index of most recently used session
    current: usize,
    /// Queue to store blocked packets
    packet_queue: VecDeque<Vec<u8>>,
    /// Keeps tabs on the expiring timers
    timers: Timers,
    tx_bytes: usize,
    rx_bytes: usize,
    rate_limiter: Arc<RateLimiter>,
}

impl View for Tunn {
    type V = State;

    closed spec fn view(&self) -> State {
        State {
            handshake: self.handshake,
            sessions: self.sessions@,
            current: self.current as int,
            queue: self.packet_queue@.map_values(|p: Vec<u8>| p@),
            timers: self.timers.settings,
            events: self.timers.events@,
            tx_bytes: self.tx_bytes as int,
            rx_bytes: self.rx_bytes as int,
            rate_limiter: *self.rate_limiter,
        }
    }
}

impl Tunn {
    /// Every tunnel is well-formed at all times. What may unwind, such as growing a queue, is
    /// therefore done on a part that was taken out of the tunnel.
    #[verifier::type_invariant]
    pub open spec fn is_well_formed(self) -> bool {
        self@.well_formed()
    }

    pub fn parse_incoming_packet(src: &[u8]) -> (r: Result<Packet<'_>, WireGuardError>)
        ensures
            r matches Ok(p) ==> packet::parsed(src@) == Some(p@),
            r matches Err(e) ==> packet::parsed(src@) is None && e == WireGuardError::InvalidPacket,
    {
        packet::parse(src)
    }

    pub fn is_expired(&self) -> (r: bool)
        ensures
            r == self@.handshake.status.expired,
    {
        self.handshake.status.expired
    }

    pub fn dst_address(packet: &[u8]) -> (a: Option<IpAddr>)
        ensures
            address_of(a) == ip::destination(packet@),
    {
        ip::read_destination(packet)
    }

    /// Create a new tunnel using own private key and the peer public key
    pub fn new(
        static_private: [u8; 32],
        peer_static_public: [u8; 32],
        preshared_key: Option<[u8; 32]>,
        persistent_keepalive: Option<u16>,
        index: u32,
        rate_limiter: Option<Arc<RateLimiter>>,
    ) -> (t: Tunn)
        ensures
            exists|seed: u64, now: Instant| #[trigger]
                is_new(
                    t@,
                    static_private,
                    peer_static_public,
                    preshared_key,
                    persistent_keepalive,
                    index,
                    rate_limiter,
                    seed,
                    now,
                ),
            t@.well_formed(),
    {
        let seed: u64 = keys::random_seed();
        let now = clock::now();
        Self::new_at(
            static_private,
            peer_static_public,
            preshared_key,
            persistent_keepalive,
            index,
            rate_limiter,
            seed,
            now,
        )
    }

    /// Create a new tunnel using own private key and the peer public key
    pub fn new_at(
        static_private: [u8; 32],
        peer_static_public: [u8; 32],
        preshared_key: Option<[u8; 32]>,
        persistent_keepalive: Option<u16>,
        index: u32,
        rate_limiter: Option<Arc<RateLimiter>>,
        rng_seed: u64,
        now: Instant,
    ) -> (t: Tunn)
        ensures
            is_new(
                t@,
                static_private,
                peer_static_public,
                preshared_key,
                persistent_keepalive,
                index,
                rate_limiter,
                rng_seed,
                now,
            ),
            t@.well_formed(),
    {
        let static_public = keys::public_key(&static_private);
        let should_reset_rr = rate_limiter.is_none();
        let rate_limiter = match rate_limiter {
            Some(limiter) => limiter,
            None => Arc::new(RateLimiter::new_at(&static_public, PEER_HANDSHAKE_RATE_LIMIT, now)),
        };
        assert((index << 8) as int == index * 0x100 % 0x1_0000_0000) by (bit_vector);
        let t = Tunn {
            handshake: Handshake::new(
                static_private,
                static_public,
                peer_static_public,
                index << 8,
                preshared_key,
                now,
            ),
            sessions: [None; N_SESSIONS],
            current: 0,
            tx_bytes: 0,
            rx_bytes: 0,
            packet_queue: VecDeque::new(),
            timers: Timers::new(persistent_keepalive, should_reset_rr, rng_seed, now),
            rate_limiter,
        };
        assert(t@.sessions =~= model::no_sessions());
        assert(t@.queue =~= Seq::empty());
        t
    }

    /// Update the private key and clear existing sessions
    pub fn set_static_private(
        &mut self,
        static_private: [u8; 32],
        static_public: [u8; 32],
        rate_limiter: Option<Arc<RateLimiter>>,
    )
        ensures
            exists|now: Instant|
                final(self)@ == #[trigger] old(self)@.rekeyed(
                    static_private,
                    static_public,
                    rate_limiter,
                    now,
                ),
            final(self)@.well_formed(),
    {
        let now = clock::now();
        self.set_static_private_at(static_private, static_public, rate_limiter, now)
    }

    /// Update the private key and clear existing sessions
    pub fn set_static_private_at(
        &mut self,
        static_private: [u8; 32],
        static_public: [u8; 32],
        rate_limiter: Option<Arc<RateLimiter>>,
        now: Instant,
    )
        ensures
            final(self)@ == old(self)@.rekeyed(static_private, static_public, rate_limiter, now),
            final(self)@.well_formed(),
    {
        proof {
            use_type_invariant(&*self);
        }
        self.timers.settings.should_reset_rr = rate_limiter.is_none();
        self.rate_limiter =
        match rate_limiter {
            Some(limiter) => limiter,
            None => Arc::new(RateLimiter::new_at(&static_public, PEER_HANDSHAKE_RATE_LIMIT, now)),
        };
        self.handshake.static_private = static_private;
        self.handshake.static_public = static_public;
        self.sessions = [None; N_SESSIONS];
        assert(self@.sessions =~= model::no_sessions());
    }

    /// Update the index of the currently used session, if needed
    pub fn set_current_session(&mut self, new_idx: usize)
        requires
            new_idx == old(self)@.current || old(self)@.session_for(new_idx as int) is Some,
        ensures
            final(self)@ == old(self)@.selecting(new_idx as int),
            final(self)@.uses_newer_of(
                old(self)@.session_for(old(self)@.current),
                old(self)@.session_for(new_idx as int),
            ),
            final(self)@.well_formed(),
    {
        proof {
            use_type_invariant(&*self);
        }
        let cur_idx: usize = self.current;
        if cur_idx == new_idx {
            // There is nothing to do, already using this session, this is the common case
            return;
        }
        if let Some(new) = self.sessions[new_idx % N_SESSIONS] {
            if let Some(current) = self.sessions[cur_idx % N_SESSIONS] {
                if clock::later(&current.established_at, &new.established_at) {
                    // The current session is "newer" than the new one, don't update.
                    return;
                }
            }
            self.current = new_idx;
        }
    }

    /// Push packet to the back of the queue
    pub fn queue_packet(&mut self, packet: &[u8])
        ensures
            final(self)@ == old(self)@.enqueued(packet@),
            final(self)@.well_formed(),
    {
        proof {
            use_type_invariant(&*self);
        }
        if self.packet_queue.len() < MAX_QUEUE_DEPTH {
            // Drop if too many are already in queue
            let mut queue = VecDeque::new();
            std::mem::swap(&mut queue, &mut self.packet_queue);
            queue.push_back(vstd::slice::slice_to_vec(packet));
            self.packet_queue = queue;
            assert(self@.queue =~= old(self)@.queue.push(packet@));
        }
    }

    /// Push packet to the front of the queue
    pub fn requeue_packet(&mut self, packet: Vec<u8>)
        ensures
            final(self)@ == old(self)@.requeued(packet@),
            final(self)@.well_formed(),
    {
        proof {
            use_type_invariant(&*self);
        }
        if self.packet_queue.len() < MAX_QUEUE_DEPTH {
            // Drop if too many are already in queue
            let mut queue = VecDeque::new();
            std::mem::swap(&mut queue, &mut self.packet_queue);
            queue.push_front(packet);
            self.packet_queue = queue;
            assert(self@.queue =~= seq![packet@] + old(self)@.queue);
        }
    }

    /// Take the oldest packet out of the queue
    pub fn dequeue_packet(&mut self) -> (packet: Option<Vec<u8>>)
        ensures
            final(self)@ == old(self)@.dequeued(),
            packet is None <==> old(self)@.queue.len() == 0,
            packet matches Some(p) ==> p@ == old(self)@.queue.first(),
            final(self)@.well_formed(),
    {
        proof {
            use_type_invariant(&*self);
        }
        let mut queue = VecDeque::new();
        std::mem::swap(&mut queue, &mut self.packet_queue);
        let packet = queue.pop_front();
        self.packet_queue = queue;
        assert(packet is Some ==> self@.queue =~= old(self)@.queue.drop_first());
        packet
    }

    /// Encapsulate a single packet from the tunnel interface, at the current time. `judge` is asked
    /// once, for that time, whether the current session may be used.
    pub fn encapsulate<'p, F: FnOnce(Instant) -> Readiness>(&mut self, src: &'p [u8], judge: F) -> (a:
        Action<'p>)
        requires
            forall|now: Instant| #[trigger] judge.requires((now,)),
        ensures
            exists|now: Instant, ready: Readiness|
                #![trigger old(self)@.encapsulating(src@, ready, now)]
                {
                    &&& judge.ensures((now,), ready)
                    &&& final(self)@ == old(self)@.encapsulating(src@, ready, now)
                    &&& a@ == old(self)@.encapsulation(src@, false, ready, now)
                },
            final(self)@.well_formed(),
    {
        let now = clock::now();
        let ready = judge(now);
        self.encapsulate_at(src, ready, now)
    }

    /// Encapsulate a single packet from the tunnel interface.
    ///
    /// The packet is sealed with the current session, if that may be used. If not, it is queued for
    /// future retry, and a new handshake is initiated if none is in progress.
    pub fn encapsulate_at<'p>(&mut self, src: &'p [u8], ready: Readiness, now: Instant) -> (a: Action<
        'p,
    >)
        ensures
            final(self)@ == old(self)@.encapsulating(src@, ready, now),
            a@ == old(self)@.encapsulation(src@, false, ready, now),
            final(self)@.well_formed(),
    {
        proof {
            use_type_invariant(&*self);
        }
        self.encapsulate_payload(Payload::Direct(src), ready, now)
    }

    fn encapsulate_payload<'p>(
        &mut self,
        payload: Payload<'p>,
        ready: Readiness,
        now: Instant,
    ) -> (a: Action<'p>)
        ensures
            final(self)@ == old(self)@.encapsulating(payload.packet(), ready, now),
            a@ == old(self)@.encapsulation(payload.packet(), payload is Queued, ready, now),
    {
        let slot: usize = self.current % N_SESSIONS;
        if self.sessions[slot].is_some() && (ready.should_use || ready.is_responder) {
            // Send the packet using an established session
            return Action::Seal(Seal { slot, payload, now });
        }
        // If there is no session, queue the packet for future retry
        self.queue_packet(payload.bytes());
        let retry = match payload {
            Payload::Direct(_) => None,
            Payload::Queued(packet) => Some(packet),
        };
        // Initiate a new handshake if none is in progress
        self.initiate(false, retry, now)
    }

    /// Completes the sending of a packet, once it was sealed or could not be sealed.
    pub fn data_sealed<'a>(
        &mut self,
        seal: Seal<'_>,
        sealed: Result<&'a mut [u8], WireGuardError>,
    ) -> (r: TunnResult<'a>)
        requires
            sealed is Ok ==> old(self)@.tx_bytes + seal@.payload.len() <= usize::MAX,
        ensures
            sealed matches Ok(p) ==> {
                &&& final(self)@ == old(self)@.sent(seal@.payload, seal@.now)
                &&& r@ == Outcome::WriteToNetwork(p@)
                &&& r matches TunnResult::WriteToNetwork(q) && final(q)@ == final(p)@
            },
            sealed matches Err(e) ==> {
                &&& final(self)@ == old(self)@.not_sent(seal@.retry())
                &&& r@ == State::not_sent_outcome(seal@.retry(), e)
            },
            final(self)@.well_formed(),
    {
        proof {
            use_type_invariant(&*self);
        }
        match sealed {
            Ok(packet) => {
                self.timer_tick(TimerName::TimeLastPacketSent, seal.now);
                // Exclude Keepalive packets from timer update.
                let len: usize = seal.payload.bytes().len();
                if len != 0 {
                    self.timer_tick(TimerName::TimeLastDataPacketSent, seal.now);
                }
                self.tx_bytes = self.tx_bytes + len;
                TunnResult::WriteToNetwork(packet)
            },
            Err(e) => match seal.payload {
                Payload::Direct(_) => TunnResult::Error(e),
                Payload::Queued(packet) => {
                    // On error, return packet to the queue
                    self.requeue_packet(packet);
                    TunnResult::Done
                },
            },
        }
    }

    /// Receives a UDP datagram from the network at the current time. `judge` is asked once, for that
    /// time, whether the current session may be used.
    pub fn decapsulate<'p, F: FnOnce(Instant) -> Readiness>(
        &mut self,
        src_addr: Option<IpAddr>,
        datagram: &'p [u8],
        judge: F,
    ) -> (a: Action<'p>)
        requires
            forall|now: Instant| #[trigger] judge.requires((now,)),
        ensures
            exists|now: Instant, ready: Readiness|
                #![trigger old(self)@.decapsulating(datagram@, ready, now)]
                {
                    &&& judge.ensures((now,), ready)
                    &&& final(self)@ == old(self)@.decapsulating(datagram@, ready, now)
                    &&& a@ == old(self)@.decapsulation(
                        address_of(src_addr),
                        datagram@,
                        ready,
                        now,
                    )
                },
            final(self)@.well_formed(),
    {
        let now = clock::now();
        let ready = judge(now);
        self.decapsulate_at(src_addr, datagram, ready, now)
    }

    /// Receives a UDP datagram from the network. An empty datagram asks for a packet of the queue to
    /// be sent.
    ///
    /// If the call comes to [`TunnResult::WriteToNetwork`], it should be repeated with an empty
    /// datagram until it comes to [`TunnResult::Done`]. If batch processing packets, it is OK to
    /// defer until last packet is processed.
    pub fn decapsulate_at<'p>(
        &mut self,
        src_addr: Option<IpAddr>,
        datagram: &'p [u8],
        ready: Readiness,
        now: Instant,
    ) -> (a: Action<'p>)
        ensures
            final(self)@ == old(self)@.decapsulating(datagram@, ready, now),
            a@ == old(self)@.decapsulation(address_of(src_addr), datagram@, ready, now),
            final(self)@.well_formed(),
    {
        proof {
            use_type_invariant(&*self);
        }
        if datagram.is_empty() {
            // Indicates a repeated call
            return self.send_queued_packet(ready, now);
        }
        Action::Verify { src_addr, datagram, now }
    }

    /// Goes on with a datagram once the rate limiter has seen it.
    pub fn datagram_verified<'p>(&self, verification: Verification<'p>, now: Instant) -> (a: Action<
        'p,
    >)
        ensures
            a@ == match verification {
                Verification::Accepted(packet) => self@.handling(packet@, now),
                Verification::Cookie(cookie) => Request::SendCookie(cookie@),
                Verification::Rejected(e) => Request::Fail(e),
            },
    {
        match verification {
            Verification::Accepted(packet) => self.handle_verified_packet(packet, now),
            Verification::Cookie(cookie) => Action::SendCookie(cookie),
            Verification::Rejected(e) => Action::Fail(e),
        }
    }

    /// Copies a cookie to the front of `dst` and sends it.
    pub fn send_cookie<'a>(cookie: &[u8], dst: &'a mut [u8]) -> (r: TunnResult<'a>)
        requires
            cookie@.len() <= old(dst)@.len(),
        ensures
            r@ == Outcome::WriteToNetwork(cookie@),
            r matches TunnResult::WriteToNetwork(p) && final(dst)@ == final(p)@ + old(
                dst,
            )@.skip(cookie@.len() as int),
    {
        let len: usize = cookie.len();
        for i in 0..len
            invariant
                len == cookie@.len(),
                dst@.len() == old(dst)@.len(),
                len <= dst@.len(),
                dst@.subrange(0, i as int) =~= cookie@.subrange(0, i as int),
                dst@.skip(len as int) =~= old(dst)@.skip(len as int),
        {
            dst[i] = cookie[i];
        }
        assert(cookie@.subrange(0, len as int) =~= cookie@);
        let (head, _tail) = dst.split_at_mut(len);
        TunnResult::WriteToNetwork(head)
    }

    /// Hands a packet that passed the rate limiter to the handshake or to a session.
    pub fn handle_verified_packet<'p>(&self, packet: Packet<'p>, now: Instant) -> (a: Action<'p>)
        ensures
            a@ == self@.handling(packet@, now),
    {
        match packet {
            Packet::HandshakeInit(init) => Action::ReceiveInit { init, now },
            Packet::HandshakeResponse(response) => Action::ReceiveResponse { response, now },
            Packet::PacketCookieReply(reply) => Action::ReceiveCookieReply { reply, now },
            Packet::PacketData(packet) => self.handle_data(packet, now),
        }
    }

    /// Completes the handling of an initiation of the peer. `received` is the response to it in the
    /// buffer that it was formatted to, and the session that it establishes.
    pub fn handle_handshake_init<'a>(
        &mut self,
        received: Result<(&'a mut [u8], Session), WireGuardError>,
        now: Instant,
    ) -> (r: TunnResult<'a>)
        ensures
            received matches Ok((p, session)) ==> {
                &&& final(self)@ == old(self)@.responded(session, now)
                &&& r@ == Outcome::WriteToNetwork(p@)
                &&& r matches TunnResult::WriteToNetwork(q) && final(q)@ == final(p)@
            },
            received matches Err(e) ==> final(self)@ == old(self)@ && r@ == Outcome::Error(e),
            final(self)@.well_formed(),
    {
        proof {
            use_type_invariant(&*self);
        }
        match received {
            Ok((packet, session)) => {
                // Store new session in ring buffer
                self.sessions[session.slot()] = Some(session);
                self.timer_tick(TimerName::TimeLastPacketReceived, now);
                self.timer_tick(TimerName::TimeLastPacketSent, now);
                // New session established, we are not the initiator
                self.timer_tick_session_established(false, now);
                TunnResult::WriteToNetwork(packet)
            },
            Err(e) => TunnResult::from(e),
        }
    }

    /// Completes the handling of the peer's response to an initiation. `received` is the session that
    /// it establishes and a keepalive that was sealed with it, in the buffer that it was sealed to.
    pub fn handle_handshake_response<'a>(
        &mut self,
        received: Result<(Session, Result<&'a mut [u8], WireGuardError>), WireGuardError>,
        now: Instant,
    ) -> (r: TunnResult<'a>)
        ensures
            received matches Ok((session, Ok(p))) ==> {
                &&& final(self)@ == old(self)@.established(session, now)
                &&& final(self)@.uses_newer_of(
                    old(self)@.storing(session).session_for(old(self)@.current),
                    Some(session),
                )
                &&& r@ == Outcome::WriteToNetwork(p@)
                &&& r matches TunnResult::WriteToNetwork(q) && final(q)@ == final(p)@
            },
            received matches Ok((session, Err(e))) ==> final(self)@ == old(self)@ && r@
                == Outcome::Error(e),
            received matches Err(e) ==> final(self)@ == old(self)@ && r@ == Outcome::Error(e),
            final(self)@.well_formed(),
    {
        proof {
            use_type_invariant(&*self);
        }
        match received {
            Ok((session, Ok(keepalive_packet))) => {
                // Store new session in ring buffer
                let l_idx: usize = session.local_index;
                self.sessions[session.slot()] = Some(session);
                self.timer_tick(TimerName::TimeLastPacketReceived, now);
                // New session established, we are the initiator
                self.timer_tick_session_established(true, now);
                self.set_current_session(l_idx);
                // Send a keepalive as a response
                TunnResult::WriteToNetwork(keepalive_packet)
            },
            Ok((_, Err(e))) => TunnResult::from(e),
            Err(e) => TunnResult::from(e),
        }
    }

    /// Completes the handling of a cookie.
    pub fn handle_cookie_reply<'a>(
        &mut self,
        received: Result<(), WireGuardError>,
        now: Instant,
    ) -> (r: TunnResult<'a>)
        ensures
            received is Ok ==> {
                &&& final(self)@ == old(self)@.ticked(TimerName::TimeLastPacketReceived, now)
                &&& r@ == Outcome::Done
            },
            received matches Err(e) ==> final(self)@ == old(self)@ && r@ == Outcome::Error(e),
            final(self)@.well_formed(),
    {
        proof {
            use_type_invariant(&*self);
        }
        match received {
            Ok(_) => {
                self.timer_tick(TimerName::TimeLastPacketReceived, now);
                TunnResult::Done
            },
            Err(e) => TunnResult::from(e),
        }
    }

    /// Finds the session that a data packet addresses.
    fn handle_data<'p>(&self, packet: PacketData<'p>, now: Instant) -> (a: Action<'p>)
        ensures
            a@ == self@.handling(packet.message(), now),
    {
        let r_idx: usize = packet.receiver_idx as usize;
        let slot: usize = r_idx % N_SESSIONS;
        // Get the (probably) right session
        if self.sessions[slot].is_some() {
            Action::Open(Open { slot, packet, now })
        } else {
            Action::Fail(WireGuardError::NoCurrentSession)
        }
    }

    /// Completes the handling of a data packet, once its session has opened it or rejected it.
    pub fn data_opened<'a>(
        &mut self,
        open: Open<'_>,
        opened: Result<&'a mut [u8], WireGuardError>,
    ) -> (r: TunnResult<'a>)
        requires
            opened matches Ok(p) ==> ip::holds_ip_packet(p@) ==> old(self)@.rx_bytes
                + ip::declared_len(p@) <= usize::MAX,
        ensures
            opened matches Ok(p) ==> (old(self)@.session_for(
                open@.receiver_idx as int,
            ) is Some ==> {
                &&& final(self)@ == old(self)@.received(
                    open@.receiver_idx as int,
                    p@,
                    open@.now,
                )
                &&& final(self)@.uses_newer_of(
                    old(self)@.session_for(old(self)@.current),
                    old(self)@.session_for(open@.receiver_idx as int),
                )
                &&& r@ == model::delivery(p@)
                &&& r matches TunnResult::WriteToTunnelV4(q, _) ==> final(p)@ == final(q)@ + p@.skip(
                    q@.len() as int,
                )
                &&& r matches TunnResult::WriteToTunnelV6(q, _) ==> final(p)@ == final(q)@ + p@.skip(
                    q@.len() as int,
                )
                &&& r is Done || r is Error ==> final(p)@ == p@
            }),
            opened matches Err(e) ==> (old(self)@.session_for(
                open@.receiver_idx as int,
            ) is Some ==> final(self)@ == old(self)@ && r@ == Outcome::Error(e)),
            old(self)@.session_for(open@.receiver_idx as int) is None ==> final(self)@ == old(
                self,
            )@ && r@ == Outcome::Error(WireGuardError::NoCurrentSession),
            final(self)@.well_formed(),
    {
        proof {
            use_type_invariant(&*self);
        }
        let r_idx: usize = open.packet.receiver_idx as usize;
        if self.sessions[r_idx % N_SESSIONS].is_none() {
            return TunnResult::Error(WireGuardError::NoCurrentSession);
        }
        match opened {
            Ok(decapsulated_packet) => {
                self.set_current_session(r_idx);
                self.timer_tick(TimerName::TimeLastPacketReceived, open.now);
                self.validate_decapsulated_packet(decapsulated_packet, open.now)
            },
            Err(e) => TunnResult::from(e),
        }
    }

    /// Formats a new handshake initiation message at the current time.
    pub fn format_handshake_initiation<'p>(&mut self, force_resend: bool) -> (a: Action<'p>)
        ensures
            exists|now: Instant| #![trigger old(self)@.initiating(force_resend, now)]
                {
                    &&& final(self)@ == old(self)@.initiating(force_resend, now)
                    &&& a@ == old(self)@.initiation(force_resend, None, now)
                },
            final(self)@.well_formed(),
    {
        let now = clock::now();
        self.format_handshake_initiation_at(force_resend, now)
    }

    /// Formats a new handshake initiation message. If force_resend is true will send
    /// a new handshake, even if a handshake is already in progress (for example when a handshake
    /// times out)
    pub fn format_handshake_initiation_at<'p>(
        &mut self,
        force_resend: bool,
        now: Instant,
    ) -> (a: Action<'p>)
        ensures
            final(self)@ == old(self)@.initiating(force_resend, now),
            a@ == old(self)@.initiation(force_resend, None, now),
            final(self)@.well_formed(),
    {
        proof {
            use_type_invariant(&*self);
        }
        self.initiate(force_resend, None, now)
    }

    fn initiate<'p>(
        &mut self,
        force_resend: bool,
        retry: Option<Vec<u8>>,
        now: Instant,
    ) -> (a: Action<'p>)
        ensures
            final(self)@ == old(self)@.initiating(force_resend, now),
            a@ == old(self)@.initiation(force_resend, bytes_of(retry), now),
    {
        if self.handshake.status.in_progress && !force_resend {
            return Action::Done;
        }
        if self.handshake.status.expired {
            self.record(TimerEvent::Clear(now));
        }
        let starting_new = !self.handshake.status.in_progress;
        Action::Initiate(Initiation { starting_new, retry, now })
    }

    /// Completes a handshake initiation, once it was formatted or could not be formatted.
    pub fn initiation_formatted<'a>(
        &mut self,
        initiation: Initiation,
        formatted: Result<&'a mut [u8], WireGuardError>,
    ) -> (r: TunnResult<'a>)
        ensures
            formatted matches Ok(p) ==> {
                &&& final(self)@ == old(self)@.initiated(initiation@.starting_new, initiation@.now)
                &&& r@ == Outcome::WriteToNetwork(p@)
                &&& r matches TunnResult::WriteToNetwork(q) && final(q)@ == final(p)@
            },
            formatted matches Err(e) ==> {
                &&& final(self)@ == old(self)@.not_sent(initiation@.retry)
                &&& r@ == State::not_sent_outcome(initiation@.retry, e)
            },
            final(self)@.well_formed(),
    {
        proof {
            use_type_invariant(&*self);
        }
        match formatted {
            Ok(packet) => {
                if initiation.starting_new {
                    self.timer_tick(TimerName::TimeLastHandshakeStarted, initiation.now);
                }
                self.timer_tick(TimerName::TimeLastPacketSent, initiation.now);
                TunnResult::WriteToNetwork(packet)
            },
            Err(e) => match initiation.retry {
                None => TunnResult::Error(e),
                Some(packet) => {
                    // On error, return packet to the queue
                    self.requeue_packet(packet);
                    TunnResult::Done
                },
            },
        }
    }

    /// Check if an IP packet is v4 or v6, truncate to the length indicated by the length field
    /// Returns the truncated packet and the source IP as TunnResult
    pub fn validate_decapsulated_packet<'a>(&mut self, packet: &'a mut [u8], now: Instant) -> (r:
        TunnResult<'a>)
        requires
            ip::holds_ip_packet(old(packet)@) ==> old(self)@.rx_bytes + ip::declared_len(
                old(packet)@,
            ) <= usize::MAX,
        ensures
            final(self)@ == old(self)@.delivering(old(packet)@, now),
            r@ == model::delivery(old(packet)@),
            r matches TunnResult::WriteToTunnelV4(q, _) ==> final(packet)@ == final(q)@ + old(
                packet,
            )@.skip(q@.len() as int),
            r matches TunnResult::WriteToTunnelV6(q, _) ==> final(packet)@ == final(q)@ + old(
                packet,
            )@.skip(q@.len() as int),
            r is Done || r is Error ==> final(packet)@ == old(packet)@,
            final(self)@.well_formed(),
    {
        proof {
            use_type_invariant(&*self);
        }
        if packet.len() == 0 {
            return TunnResult::Done; // This is keepalive, and not an error
        }
        match ip::read_length_and_source(packet) {
            None => TunnResult::Error(WireGuardError::InvalidPacket),
            Some((computed_len, src_ip_address)) => {
                if computed_len > packet.len() {
                    return TunnResult::Error(WireGuardError::InvalidPacket);
                }
                self.timer_tick(TimerName::TimeLastDataPacketReceived, now);
                self.rx_bytes = self.rx_bytes + computed_len;
                let (head, _tail) = packet.split_at_mut(computed_len);
                match src_ip_address {
                    IpAddr::V4(addr) => TunnResult::WriteToTunnelV4(head, addr),
                    IpAddr::V6(addr) => TunnResult::WriteToTunnelV6(head, addr),
                }
            },
        }
    }

    /// Get a packet from the queue, and try to encapsulate it
    fn send_queued_packet<'p>(&mut self, ready: Readiness, now: Instant) -> (a: Action<'p>)
        ensures
            final(self)@ == old(self)@.sending_queued(ready, now),
            a@ == old(self)@.queued_encapsulation(ready, now),
    {
        match self.dequeue_packet() {
            Some(packet) => self.encapsulate_payload(Payload::Queued(packet), ready, now),
            None => Action::Done,
        }
    }

    /// Keeps an event for the timers.
    fn record(&mut self, event: TimerEvent)
        ensures
            final(self)@ == old(self)@.with_event(event),
    {
        proof {
            use_type_invariant(&*self);
        }
        let mut events = Vec::new();
        std::mem::swap(&mut events, &mut self.timers.events);
        events.push(event);
        self.timers.events = events;
    }

    fn timer_tick(&mut self, name: TimerName, now: Instant)
        ensures
            final(self)@ == old(self)@.ticked(name, now),
    {
        self.record(TimerEvent::Tick(name, now))
    }

    fn timer_tick_session_established(&mut self, is_initiator: bool, now: Instant)
        ensures
            final(self)@ == old(self)@.with_event(
                TimerEvent::SessionEstablished { is_initiator, at: now },
            ),
    {
        self.record(TimerEvent::SessionEstablished { is_initiator, at: now })
    }

    /// Tells the tunnel how far the handshake has come.
    pub fn set_handshake_status(&mut self, status: HandshakeStatus)
        ensures
            final(self)@ == old(self)@.with_status(status),
            final(self)@.well_formed(),
    {
        proof {
            use_type_invariant(&*self);
        }
        self.handshake.status = status;
    }

    /// Hands out what happened since the last call, in the order in which it happened.
    pub fn take_timer_events(&mut self) -> (events: Vec<TimerEvent>)
        ensures
            events@ == old(self)@.events,
            final(self)@ == (State { events: Seq::empty(), ..old(self)@ }),
            final(self)@.well_formed(),
    {
        proof {
            use_type_invariant(&*self);
        }
        let mut events = Vec::new();
        std::mem::swap(&mut events, &mut self.timers.events);
        events
    }

    /// The slots that hold a session, beginning with the current one and going back from there.
    pub fn recent_slots(&self) -> (slots: Vec<usize>)
        ensures
            slots@.map_values(|s: usize| s as int) == self@.recent_slots(),
    {
        let mut slots: Vec<usize> = Vec::new();
        let current: usize = self.current % N_SESSIONS;
        let ghost back = model::slots_back_from(self@.current);
        assert(back.take(0) =~= Seq::empty());
        for i in 0..N_SESSIONS
            invariant
                current == model::slot(self@.current),
                current < N_SESSIONS,
                back == model::slots_back_from(self@.current),
                slots@.map_values(|s: usize| s as int) =~= back.take(i as int).filter(
                    |s: int| self@.sessions[s] is Some,
                ),
        {
            let slot: usize = (current + N_SESSIONS - i) % N_SESSIONS;
            assert(slot == back[i as int]);
            assert(back.take(i + 1).drop_last() =~= back.take(i as int));
            assert(back.take(i + 1).last() == slot);
            reveal(Seq::filter);
            if self.sessions[slot].is_some() {
                slots.push(slot);
            }
        }
        assert(back.take(N_SESSIONS as int) =~= back);
        slots
    }

    /// The index of the current session.
    pub fn current_index(&self) -> (index: usize)
        ensures
            index == self@.current,
    {
        self.current
    }

    /// The slot of the current session.
    pub fn current_slot(&self) -> (slot: usize)
        ensures
            slot == model::slot(self@.current),
            slot == self@.current % 8,
    {
        self.current % N_SESSIONS
    }

    /// The session in a slot.
    pub fn session(&self, slot: usize) -> (session: Option<Session>)
        requires
            slot < N_SESSIONS,
        ensures
            session == self@.sessions[slot as int],
    {
        self.sessions[slot]
    }

    /// The parameters and the status of the handshake.
    pub fn handshake(&self) -> (handshake: Handshake)
        ensures
            handshake == self@.handshake,
    {
        self.handshake
    }

    /// With what the timers are set up.
    pub fn timer_settings(&self) -> (settings: TimerSettings)
        ensures
            settings == self@.timers,
    {
        self.timers.settings
    }

    /// The rate limiter that guards the handshakes.
    pub fn rate_limiter(&self) -> (limiter: &Arc<RateLimiter>)
        ensures
            **limiter == self@.rate_limiter,
    {
        &self.rate_limiter
    }

    /// Data bytes sent
    pub fn tx_bytes(&self) -> (n: usize)
        ensures
            n == self@.tx_bytes,
    {
        self.tx_bytes
    }

    /// Data bytes received
    pub fn rx_bytes(&self) -> (n: usize)
        ensures
            n == self@.rx_bytes,
    {
        self.rx_bytes
    }

    /// The number of packets that wait for a session.
    pub fn queue_len(&self) -> (n: usize)
        ensures
            n == self@.queue.len(),
    {
        self.packet_queue.len()
    }
}

} // verus!

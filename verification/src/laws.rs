//! What holds of every tunnel.
use std::sync::Arc;
use std::time::Instant;
use vstd::prelude::*;

use crate::clock;
use crate::errors::WireGuardError;
use crate::handshake::HandshakeStatus;
use crate::ip;
use crate::ip::Address;
use crate::model;
use crate::model::Outcome;
use crate::model::Readiness;
use crate::model::Request;
use crate::model::State;
use crate::model::MAX_QUEUE_DEPTH;
use crate::model::N_SESSIONS;
use crate::packet;
use crate::packet::Message;
use crate::rate_limiter::RateLimiter;
use crate::session::Session;
use crate::timers::TimerEvent;
use crate::timers::TimerName;
use crate::tunn;

verus! {

/// A message is read back from the bytes it was written to, whatever authentication codes follow it.
pub proof fn law_written_message_is_read_back(m: Message, macs: Seq<u8>)
    requires
        packet::has_field_lengths(m),
        macs.len() == packet::macs_len(m),
    ensures
        packet::parsed(packet::written(m, macs)) == Some(m),
{
    let b = packet::written(m, macs);
    match m {
        Message::HandshakeInit { sender_idx, ephemeral, encrypted_static, encrypted_timestamp } => {
            assert(b.subrange(0, 4) =~= packet::le_bytes(packet::HANDSHAKE_INIT));
            packet::lemma_le32(b, 0, packet::HANDSHAKE_INIT);
            assert(b.subrange(4, 8) =~= packet::le_bytes(sender_idx));
            packet::lemma_le32(b, 4, sender_idx);
            assert(b.subrange(8, 40) =~= ephemeral);
            assert(b.subrange(40, 88) =~= encrypted_static);
            assert(b.subrange(88, 116) =~= encrypted_timestamp);
        },
        Message::HandshakeResponse { sender_idx, receiver_idx, ephemeral, encrypted_nothing } => {
            assert(b.subrange(0, 4) =~= packet::le_bytes(packet::HANDSHAKE_RESP));
            packet::lemma_le32(b, 0, packet::HANDSHAKE_RESP);
            assert(b.subrange(4, 8) =~= packet::le_bytes(sender_idx));
            packet::lemma_le32(b, 4, sender_idx);
            assert(b.subrange(8, 12) =~= packet::le_bytes(receiver_idx));
            packet::lemma_le32(b, 8, receiver_idx);
            assert(b.subrange(12, 44) =~= ephemeral);
            assert(b.subrange(44, 60) =~= encrypted_nothing);
        },
        Message::CookieReply { receiver_idx, nonce, encrypted_cookie } => {
            assert(b.subrange(0, 4) =~= packet::le_bytes(packet::COOKIE_REPLY));
            packet::lemma_le32(b, 0, packet::COOKIE_REPLY);
            assert(b.subrange(4, 8) =~= packet::le_bytes(receiver_idx));
            packet::lemma_le32(b, 4, receiver_idx);
            assert(b.subrange(8, 32) =~= nonce);
            assert(b.subrange(32, 64) =~= encrypted_cookie);
        },
        Message::Data { receiver_idx, counter, sealed } => {
            assert(b.subrange(0, 4) =~= packet::le_bytes(packet::DATA));
            packet::lemma_le32(b, 0, packet::DATA);
            assert(b.subrange(4, 8) =~= packet::le_bytes(receiver_idx));
            packet::lemma_le32(b, 4, receiver_idx);
            assert(b.subrange(8, 12) =~= packet::le_bytes((counter % 0x1_0000_0000) as u32));
            packet::lemma_le32(b, 8, (counter % 0x1_0000_0000) as u32);
            assert(b.subrange(12, 16) =~= packet::le_bytes((counter / 0x1_0000_0000) as u32));
            packet::lemma_le32(b, 12, (counter / 0x1_0000_0000) as u32);
            assert(b.subrange(16, b.len() as int) =~= sealed);
        },
    }
}

/// A datagram that is read as a message is what that message is written to: nothing but the
/// authentication codes at its end is lost.
pub proof fn law_read_message_is_written_back(b: Seq<u8>, m: Message)
    requires
        packet::parsed(b) == Some(m),
    ensures
        packet::has_field_lengths(m),
        b == packet::written(m, b.skip(b.len() - packet::macs_len(m))),
{
    let macs = b.skip(b.len() - packet::macs_len(m));
    packet::lemma_le32(b, 4, packet::le32(b, 4) as u32);
    match m {
        Message::HandshakeInit { .. } => {
            packet::lemma_le32(b, 0, packet::HANDSHAKE_INIT);
            assert(b =~= b.subrange(0, 4) + b.subrange(4, 8) + b.subrange(8, 40) + b.subrange(
                40,
                88,
            ) + b.subrange(88, 116) + macs);
        },
        Message::HandshakeResponse { .. } => {
            packet::lemma_le32(b, 0, packet::HANDSHAKE_RESP);
            packet::lemma_le32(b, 8, packet::le32(b, 8) as u32);
            assert(b =~= b.subrange(0, 4) + b.subrange(4, 8) + b.subrange(8, 12) + b.subrange(
                12,
                44,
            ) + b.subrange(44, 60) + macs);
        },
        Message::CookieReply { .. } => {
            packet::lemma_le32(b, 0, packet::COOKIE_REPLY);
            assert(b =~= b.subrange(0, 4) + b.subrange(4, 8) + b.subrange(8, 32) + b.subrange(
                32,
                64,
            ) + macs);
        },
        Message::Data { counter, .. } => {
            packet::lemma_le32(b, 0, packet::DATA);
            packet::lemma_le32(b, 8, packet::le32(b, 8) as u32);
            packet::lemma_le32(b, 12, packet::le32(b, 12) as u32);
            assert(counter % 0x1_0000_0000 == packet::le32(b, 8));
            assert(counter / 0x1_0000_0000 == packet::le32(b, 12));
            assert(b =~= b.subrange(0, 4) + b.subrange(4, 8) + b.subrange(8, 12) + b.subrange(
                12,
                16,
            ) + b.subrange(16, b.len() as int) + macs);
        },
    }
}

/// What is handed to the tunnel interface is the front of the payload, as long as its header says.
pub proof fn law_delivered_packet_is_front_of_payload(payload: Seq<u8>)
    ensures
        model::delivery(payload) matches Outcome::WriteToTunnel(p, a) ==> {
            &&& p.is_prefix_of(payload)
            &&& p.len() == ip::declared_len(payload)
            &&& ip::source(payload) == Some(a)
        },
{
}

/// An IP packet that is as long as its header says is handed on whole, whatever it holds.
pub proof fn law_whole_packet_is_delivered(p: Seq<u8>)
    requires
        ip::is_ipv4(p) || ip::is_ipv6(p),
        ip::declared_len(p) == p.len(),
    ensures
        model::delivery(p) == Outcome::WriteToTunnel(p, ip::source(p)->0),
{
    assert(ip::ip_packet(p) =~= p);
}

/// A packet that was delivered and is handed in again is delivered whole, from the same address, if
/// it was not cut to less than a header.
pub proof fn law_delivered_packet_is_delivered_again(p: Seq<u8>, q: Seq<u8>, a: Address)
    requires
        model::delivery(p) == Outcome::WriteToTunnel(q, a),
        a is V6 || q.len() >= ip::IPV4_MIN_HEADER_SIZE,
    ensures
        model::delivery(q) == Outcome::WriteToTunnel(q, a),
{
    assert(ip::source(q) == ip::source(p)) by {
        if ip::is_ipv4(p) {
            assert(ip::field(q, ip::IPV4_SRC_IP_OFF, ip::IPV4_IP_SZ) =~= ip::field(
                p,
                ip::IPV4_SRC_IP_OFF,
                ip::IPV4_IP_SZ,
            ));
        } else {
            assert(ip::field(q, ip::IPV6_SRC_IP_OFF, ip::IPV6_IP_SZ) =~= ip::field(
                p,
                ip::IPV6_SRC_IP_OFF,
                ip::IPV6_IP_SZ,
            ));
        }
    }
    law_whole_packet_is_delivered(q);
}

/// An IP packet that one tunnel sends is what the other one hands to its interface, if the session
/// of the other one opens what the session of the first one sealed. Both count its length.
pub proof fn law_packet_crosses_the_tunnel(
    sender: State,
    receiver: State,
    p: Seq<u8>,
    ready: Readiness,
    datagram: Seq<u8>,
    receiver_idx: u32,
    counter: u64,
    sealed: Seq<u8>,
    now: Instant,
)
    requires
        ip::is_ipv4(p) || ip::is_ipv6(p),
        ip::declared_len(p) == p.len(),
        sender.can_send(ready),
        packet::parsed(datagram) == Some(Message::Data { receiver_idx, counter, sealed }),
        receiver.session_for(receiver_idx as int) is Some,
    ensures
        sender.encapsulating(p, ready, now) == sender,
        sender.encapsulation(p, false, ready, now) == (Request::Seal {
            slot: model::slot(sender.current),
            payload: p,
            queued: false,
            now,
        }),
        sender.sent(p, now).tx_bytes == sender.tx_bytes + p.len(),
        receiver.handling(Message::Data { receiver_idx, counter, sealed }, now) == (Request::Open {
            slot: model::slot(receiver_idx as int),
            message: Message::Data { receiver_idx, counter, sealed },
            now,
        }),
        receiver.received(receiver_idx as int, p, now).rx_bytes == receiver.rx_bytes + p.len(),
        model::delivery(p) == Outcome::WriteToTunnel(p, ip::source(p)->0),
{
    law_whole_packet_is_delivered(p);
}

/// A keepalive is neither counted nor taken for data, on either side.
pub proof fn law_keepalive_is_not_data(state: State, index: int, now: Instant)
    ensures
        state.sent(Seq::empty(), now) == state.ticked(TimerName::TimeLastPacketSent, now),
        state.received(index, Seq::empty(), now) == state.selecting(index).ticked(
            TimerName::TimeLastPacketReceived,
            now,
        ),
        model::delivery(Seq::empty()) == Outcome::Done,
{
}

/// A payload that is no IP packet is reported and not counted.
pub proof fn law_invalid_payload_is_not_counted(state: State, payload: Seq<u8>, now: Instant)
    requires
        payload.len() > 0,
        !ip::holds_ip_packet(payload),
    ensures
        model::delivery(payload) == Outcome::Error(WireGuardError::InvalidPacket),
        state.delivering(payload, now) == state,
{
}

/// A datagram changes nothing before it has passed the rate limiter and the handshake or a session
/// has accepted it.
pub proof fn law_datagram_is_checked_first(
    state: State,
    src_addr: Option<Address>,
    datagram: Seq<u8>,
    ready: Readiness,
    now: Instant,
)
    requires
        datagram.len() > 0,
    ensures
        state.decapsulating(datagram, ready, now) == state,
        state.decapsulation(src_addr, datagram, ready, now) == (Request::Verify {
            src_addr,
            datagram,
            now,
        }),
{
}

/// A packet whose bytes do not begin with a whole IP header has neither a source nor a destination;
/// any other packet has both, of one family.
pub proof fn law_addresses_come_from_whole_headers(packet: Seq<u8>)
    ensures
        ip::is_ipv4(packet) <==> (ip::source(packet) matches Some(a) && a is V4),
        ip::is_ipv4(packet) <==> (ip::destination(packet) matches Some(a) && a is V4),
        ip::is_ipv6(packet) <==> (ip::source(packet) matches Some(a) && a is V6),
        ip::is_ipv6(packet) <==> (ip::destination(packet) matches Some(a) && a is V6),
{
}

/// A new tunnel is well-formed.
pub proof fn law_new_tunnel_is_well_formed(
    state: State,
    static_private: [u8; 32],
    peer_static_public: [u8; 32],
    preshared_key: Option<[u8; 32]>,
    persistent_keepalive: Option<u16>,
    index: u32,
    rate_limiter: Option<Arc<RateLimiter>>,
    rng_seed: u64,
    now: Instant,
)
    requires
        tunn::is_new(
            state,
            static_private,
            peer_static_public,
            preshared_key,
            persistent_keepalive,
            index,
            rate_limiter,
            rng_seed,
            now,
        ),
    ensures
        state.well_formed(),
{
}

/// Every operation leaves a well-formed tunnel well-formed: a session is only ever found in the slot
/// of its index, and the queue never outgrows its limit.
pub proof fn law_operations_keep_tunnel_well_formed(
    state: State,
    packet: Seq<u8>,
    retry: Option<Seq<u8>>,
    datagram: Seq<u8>,
    session: Session,
    index: int,
    ready: Readiness,
    force_resend: bool,
    starting_new: bool,
    status: HandshakeStatus,
    static_private: [u8; 32],
    static_public: [u8; 32],
    rate_limiter: Option<Arc<RateLimiter>>,
    now: Instant,
)
    requires
        state.well_formed(),
    ensures
        state.encapsulating(packet, ready, now).well_formed(),
        state.sent(packet, now).well_formed(),
        state.not_sent(retry).well_formed(),
        state.initiating(force_resend, now).well_formed(),
        state.initiated(starting_new, now).well_formed(),
        state.decapsulating(datagram, ready, now).well_formed(),
        state.responded(session, now).well_formed(),
        state.established(session, now).well_formed(),
        state.ticked(TimerName::TimeLastPacketReceived, now).well_formed(),
        state.received(index, packet, now).well_formed(),
        state.rekeyed(static_private, static_public, rate_limiter, now).well_formed(),
        state.with_status(status).well_formed(),
{
}

/// A tunnel finds a session that it has just stored, and still finds those in the other slots. The
/// session that is N_SESSIONS indices older has made way.
pub proof fn law_stored_session_is_found(state: State, session: Session, other: int)
    requires
        state.well_formed(),
    ensures
        state.storing(session).session_for(session.local_index as int) == Some(session),
        state.storing(session).session_for(session.local_index - N_SESSIONS) == Some(session),
        model::slot(other) != model::slot(session.local_index as int) ==> state.storing(
            session,
        ).session_for(other) == state.session_for(other),
{
}

/// The last N_SESSIONS sessions are all found, if their indices count up.
pub proof fn law_recent_sessions_are_found(state: State, sessions: Seq<Session>, i: int)
    requires
        state.well_formed(),
        sessions.len() <= N_SESSIONS,
        forall|j: int|
            0 <= j < sessions.len() ==> (#[trigger] sessions[j]).local_index
                == sessions[0].local_index + j,
        0 <= i < sessions.len(),
    ensures
        state.storing_all(sessions).session_for(sessions[i].local_index as int) == Some(sessions[i]),
        state.storing_all(sessions).well_formed(),
    decreases sessions.len(),
{
    let before = sessions.drop_last();
    if before.len() > 0 {
        assert forall|j: int| 0 <= j < before.len() implies (#[trigger] before[j]).local_index
            == before[0].local_index + j by {
            assert(before[j] == sessions[j]);
        }
        if i < before.len() {
            law_recent_sessions_are_found(state, before, i);
            law_stored_session_is_found(
                state.storing_all(before),
                sessions.last(),
                sessions[i].local_index as int,
            );
        } else {
            law_recent_sessions_are_found(state, before, 0);
            law_stored_session_is_found(state.storing_all(before), sessions.last(), 0);
        }
    } else {
        assert(state.storing_all(before) == state);
        law_stored_session_is_found(state, sessions.last(), 0);
    }
}

/// The tunnel never leaves a session for an older one.
pub proof fn law_current_session_never_gets_older(state: State, index: int)
    ensures
        ({
            let next = state.selecting(index);
            model::slot(next.current) != model::slot(state.current) ==> {
                ||| state.session_for(state.current) is None
                ||| state.session_for(next.current) is None
                ||| !clock::is_later(
                    state.session_for(state.current)->0.established_at,
                    state.session_for(next.current)->0.established_at,
                )
            }
        }),
{
}

/// Of the current session and the one that is selected, the later one is used. Of two that were
/// established at one time, it is the selected one.
pub proof fn law_later_session_is_used(state: State, index: int, current: Session, selected: Session)
    requires
        state.session_for(state.current) == Some(current),
        state.session_for(index) == Some(selected),
    ensures
        ({
            let next = state.selecting(index);
            let later = clock::is_later(current.established_at, selected.established_at);
            next.session_for(next.current) == Some(
                if later {
                    current
                } else {
                    selected
                },
            )
        }),
{
}

/// To select a session changes nothing but which one is current, and to select it again changes
/// nothing.
pub proof fn law_selecting_twice_is_selecting_once(state: State, index: int)
    ensures
        state.selecting(index).selecting(index) == state.selecting(index),
        state.selecting(index) == (State {
            current: state.selecting(index).current,
            ..state
        }),
{
}

/// A session that this tunnel initiated is used at once, unless a newer one is in use.
pub proof fn law_initiated_session_is_used(state: State, session: Session, now: Instant)
    requires
        state.well_formed(),
        match state.session_for(state.current) {
            Some(current) => {
                ||| model::slot(state.current) == model::slot(session.local_index as int)
                ||| !clock::is_later(current.established_at, session.established_at)
            },
            None => true,
        },
    ensures
        state.established(session, now).current == session.local_index,
        state.established(session, now).session_for(session.local_index as int) == Some(session),
        forall|ready: Readiness| #[trigger]
            state.established(session, now).can_send(ready) == (ready.should_use
                || ready.is_responder),
{
}

/// A session that the peer initiated is not used before the peer has used it: the current session
/// stays the same one, unless the new one took its slot.
pub proof fn law_responder_waits_for_first_packet(state: State, session: Session, now: Instant)
    requires
        state.well_formed(),
    ensures
        state.responded(session, now).current == state.current,
        model::slot(session.local_index as int) != model::slot(state.current) ==> state.responded(
            session,
            now,
        ).session_for(state.current) == state.session_for(state.current),
{
}

/// The first packet that is opened with a session makes that session the current one, unless a newer
/// one is in use, so that the answers are sealed with it.
pub proof fn law_opened_packet_confirms_session(
    state: State,
    index: int,
    payload: Seq<u8>,
    now: Instant,
    ready: Readiness,
)
    requires
        state.session_for(index) is Some,
        !state.current_is_newer_than(index),
    ensures
        state.received(index, payload, now).current == index,
        state.received(index, payload, now).can_send(ready) == (ready.should_use
            || ready.is_responder),
{
}

/// After a handshake both sides can send: the initiator at once, the responder after the keepalive
/// that the initiator sends. The keepalive itself is not delivered.
pub proof fn law_handshake_lets_both_sides_send(
    initiator: State,
    responder: State,
    of_initiator: Session,
    of_responder: Session,
    now: Instant,
    ready: Readiness,
)
    requires
        initiator.well_formed(),
        responder.well_formed(),
        !initiator.storing(of_initiator).current_is_newer_than(of_initiator.local_index as int),
        !responder.storing(of_responder).current_is_newer_than(of_responder.local_index as int),
        ready.should_use || ready.is_responder,
    ensures
        initiator.established(of_initiator, now).can_send(ready),
        initiator.established(of_initiator, now).session_for(
            initiator.established(of_initiator, now).current,
        ) == Some(of_initiator),
        ({
            let answered = responder.responded(of_responder, now);
            let confirmed = answered.received(
                of_responder.local_index as int,
                Seq::empty(),
                now,
            );
            &&& confirmed.can_send(ready)
            &&& confirmed.session_for(confirmed.current) == Some(of_responder)
            &&& confirmed.rx_bytes == responder.rx_bytes
        }),
        model::delivery(Seq::empty()) == Outcome::Done,
{
}

/// A session that is almost expired is given up by the side that initiated it, which asks for a new
/// handshake and lets the packet wait. The other side still uses it.
pub proof fn law_initiator_replaces_old_session(state: State, packet: Seq<u8>, now: Instant)
    requires
        state.session_for(state.current) is Some,
        !state.handshake.status.in_progress,
        state.queue.len() < MAX_QUEUE_DEPTH,
    ensures
        ({
            let initiator = Readiness { should_use: false, is_responder: false };
            &&& state.encapsulation(packet, false, initiator, now) == (Request::Initiate {
                starting_new: true,
                retry: None,
                now,
            })
            &&& state.encapsulating(packet, initiator, now).queue == state.queue.push(packet)
        }),
        state.encapsulation(
            packet,
            false,
            (Readiness { should_use: false, is_responder: true }),
            now,
        ) is Seal,
{
}

/// No operation takes back an event that the timers were not told of, or a byte that was counted.
pub proof fn law_operations_only_add(
    state: State,
    packet: Seq<u8>,
    retry: Option<Seq<u8>>,
    datagram: Seq<u8>,
    session: Session,
    index: int,
    ready: Readiness,
    force_resend: bool,
    starting_new: bool,
    static_private: [u8; 32],
    static_public: [u8; 32],
    rate_limiter: Option<Arc<RateLimiter>>,
    now: Instant,
)
    ensures
        state.only_grows_to(state.encapsulating(packet, ready, now)),
        state.only_grows_to(state.sent(packet, now)),
        state.only_grows_to(state.not_sent(retry)),
        state.only_grows_to(state.initiating(force_resend, now)),
        state.only_grows_to(state.initiated(starting_new, now)),
        state.only_grows_to(state.decapsulating(datagram, ready, now)),
        state.only_grows_to(state.responded(session, now)),
        state.only_grows_to(state.established(session, now)),
        state.only_grows_to(state.ticked(TimerName::TimeLastPacketReceived, now)),
        state.only_grows_to(state.received(index, packet, now)),
        state.only_grows_to(
            state.rekeyed(static_private, static_public, rate_limiter, now),
        ),
{
}

/// Whatever the peer sends and the tunnel accepts starts the receive timer anew.
pub proof fn law_accepted_datagram_restarts_receive_timer(
    state: State,
    session: Session,
    index: int,
    payload: Seq<u8>,
    now: Instant,
)
    ensures
        ({
            let tick = TimerEvent::Tick(TimerName::TimeLastPacketReceived, now);
            let at = state.events.len() as int;
            &&& state.responded(session, now).events[at] == tick
            &&& state.established(session, now).events[at] == tick
            &&& state.received(index, payload, now).events[at] == tick
        }),
{
}

/// A packet of the caller that cannot be sealed is reported as an error and not queued.
pub proof fn law_unsealed_packet_of_caller_is_reported(state: State, e: WireGuardError)
    ensures
        state.not_sent(None) == state,
        State::not_sent_outcome(None, e) == Outcome::Error(e),
{
}

/// After the private key was replaced no session is left: nothing is sealed or opened before a new
/// handshake. The queue and the counters are kept.
pub proof fn law_new_key_clears_sessions(
    state: State,
    static_private: [u8; 32],
    static_public: [u8; 32],
    rate_limiter: Option<Arc<RateLimiter>>,
    now: Instant,
    index: int,
    ready: Readiness,
    receiver_idx: u32,
    counter: u64,
    sealed: Seq<u8>,
)
    ensures
        ({
            let next = state.rekeyed(static_private, static_public, rate_limiter, now);
            &&& next.session_for(index) is None
            &&& !next.can_send(ready)
            &&& next.handling(Message::Data { receiver_idx, counter, sealed }, now)
                == Request::Fail(WireGuardError::NoCurrentSession)
            &&& next.queue == state.queue
            &&& next.tx_bytes == state.tx_bytes
            &&& next.rx_bytes == state.rx_bytes
        }),
{
}

/// A tunnel resets its rate limiter exactly if it has made it itself, and then the limiter guards the
/// public key of the tunnel.
pub proof fn law_own_limiter_guards_own_key(
    state: State,
    static_private: [u8; 32],
    static_public: [u8; 32],
    rate_limiter: Option<Arc<RateLimiter>>,
    now: Instant,
)
    ensures
        ({
            let next = state.rekeyed(static_private, static_public, rate_limiter, now);
            &&& next.timers.should_reset_rr == rate_limiter is None
            &&& rate_limiter is None ==> next.rate_limiter.public_key
                == next.handshake.static_public
            &&& rate_limiter matches Some(shared) ==> next.rate_limiter == *shared
        }),
{
}

/// Tunnels whose indices differ and fit in 24 bits never share the index of a session, as long as
/// none of them counts more than 256 sessions.
pub proof fn law_tunnels_have_sessions_of_their_own(index_a: u32, index_b: u32, i: u8, j: u8)
    requires
        index_a < 0x100_0000,
        index_b < 0x100_0000,
        index_a != index_b,
    ensures
        model::first_session_index(index_a) + i != model::first_session_index(index_b) + j,
{
}

/// The queue is served in the order in which it was filled.
pub proof fn law_queue_is_first_in_first_out(state: State, packet: Seq<u8>)
    requires
        state.queue.len() < MAX_QUEUE_DEPTH,
    ensures
        state.queue.len() == 0 ==> state.enqueued(packet).queue.first() == packet
            && state.enqueued(packet).dequeued() == state,
        state.queue.len() > 0 ==> state.enqueued(packet).queue.first() == state.queue.first()
            && state.enqueued(packet).dequeued() == state.dequeued().enqueued(packet),
{
    if state.queue.len() == 0 {
        assert(state.enqueued(packet).dequeued().queue =~= state.queue);
    } else {
        assert(state.enqueued(packet).dequeued().queue =~= state.dequeued().enqueued(packet).queue);
    }
}

/// A full queue takes no packet.
pub proof fn law_full_queue_drops_packet(state: State, packet: Seq<u8>)
    requires
        state.queue.len() >= MAX_QUEUE_DEPTH,
    ensures
        state.enqueued(packet) == state,
        state.requeued(packet) == state,
{
}

/// A queue that is not full takes a packet, at its back or at its front. It never outgrows its limit,
/// and nothing but the queue changes.
pub proof fn law_queue_takes_packets_up_to_its_limit(state: State, packet: Seq<u8>)
    requires
        state.queue.len() <= MAX_QUEUE_DEPTH,
    ensures
        state.queue.len() < MAX_QUEUE_DEPTH ==> {
            &&& state.enqueued(packet).queue == state.queue.push(packet)
            &&& state.requeued(packet).queue == seq![packet] + state.queue
        },
        state.queue.len() == MAX_QUEUE_DEPTH ==> {
            &&& state.enqueued(packet).queue == state.queue
            &&& state.requeued(packet).queue == state.queue
        },
        state.enqueued(packet).queue.len() <= MAX_QUEUE_DEPTH,
        state.requeued(packet).queue.len() <= MAX_QUEUE_DEPTH,
        state.enqueued(packet) == (State { queue: state.enqueued(packet).queue, ..state }),
        state.requeued(packet) == (State { queue: state.requeued(packet).queue, ..state }),
{
}

/// A packet that was put to the front of a queue with room for it is the next to leave, and the tunnel
/// is then as it was.
pub proof fn law_dequeueing_undoes_requeueing(state: State, packet: Seq<u8>)
    requires
        state.queue.len() < MAX_QUEUE_DEPTH,
    ensures
        state.requeued(packet).queue.first() == packet,
        state.requeued(packet).dequeued() == state,
{
    assert(state.requeued(packet).dequeued().queue =~= state.queue);
}

/// A packet that was taken out of the queue and put back leaves the tunnel as it was.
pub proof fn law_requeueing_undoes_dequeueing(state: State)
    requires
        state.well_formed(),
        state.queue.len() > 0,
    ensures
        state.dequeued().requeued(state.queue.first()) == state,
{
    assert(state.dequeued().requeued(state.queue.first()).queue =~= state.queue);
}

/// If a queued packet cannot be sealed, the tunnel is as it was and the caller is told that nothing
/// is to be done.
pub proof fn law_unsealed_packet_stays_in_queue(
    state: State,
    ready: Readiness,
    now: Instant,
    e: WireGuardError,
)
    requires
        state.well_formed(),
        state.queue.len() > 0,
        state.can_send(ready),
    ensures
        state.queued_encapsulation(ready, now) == (Request::Seal {
            slot: model::slot(state.current),
            payload: state.queue.first(),
            queued: true,
            now,
        }),
        state.sending_queued(ready, now).not_sent(Some(state.queue.first())) == state,
        State::not_sent_outcome(Some(state.queue.first()), e) == Outcome::Done,
{
    law_requeueing_undoes_dequeueing(state);
}

/// No queued packet is lost for want of a session: one that cannot be sent goes to the back of the
/// queue, and the others keep their order. If the initiation on its behalf fails too, it also returns
/// to the front, so that it waits twice; only where the queue was full it has no room there.
pub proof fn law_waiting_packets_are_kept(state: State, ready: Readiness, now: Instant)
    requires
        state.well_formed(),
        state.queue.len() > 0,
        !state.can_send(ready),
    ensures
        ({
            let first = state.queue.first();
            let rotated = state.queue.drop_first().push(first);
            let waiting = state.sending_queued(ready, now);
            let failed = waiting.not_sent(Some(first));
            &&& waiting.queue == rotated
            &&& failed.queue == (if state.queue.len() < MAX_QUEUE_DEPTH {
                seq![first] + rotated
            } else {
                rotated
            })
            &&& forall|i: int|
                0 <= i < state.queue.len() ==> failed.queue.contains(#[trigger] state.queue[i])
        }),
{
    let first = state.queue.first();
    let waiting = state.sending_queued(ready, now);
    let failed = waiting.not_sent(Some(first));
    assert forall|i: int| 0 <= i < state.queue.len() implies failed.queue.contains(
        #[trigger] state.queue[i],
    ) by {
        let n: int = if state.queue.len() < MAX_QUEUE_DEPTH {
            1
        } else {
            0
        };
        if i == 0 {
            assert(failed.queue[n + waiting.queue.len() - 1] == first);
        } else {
            assert(failed.queue[n + i - 1] == state.queue[i]);
        }
    }
}

/// A packet is either sealed with the current session or queued, never both, and it is only lost if
/// the queue is full.
pub proof fn law_packet_is_sealed_or_queued(
    state: State,
    packet: Seq<u8>,
    ready: Readiness,
    now: Instant,
)
    ensures
        state.can_send(ready) ==> {
            &&& state.encapsulation(packet, false, ready, now) is Seal
            &&& state.encapsulating(packet, ready, now).queue == state.queue
        },
        !state.can_send(ready) ==> {
            &&& !(state.encapsulation(packet, false, ready, now) is Seal)
            &&& state.queue.len() < MAX_QUEUE_DEPTH ==> state.encapsulating(
                packet,
                ready,
                now,
            ).queue == state.queue.push(packet)
        },
{
}

/// While a handshake is in progress, packets without a session only wait: no second initiation is
/// asked for, and no timer is touched.
pub proof fn law_one_handshake_at_a_time(
    state: State,
    packet: Seq<u8>,
    ready: Readiness,
    now: Instant,
)
    requires
        state.handshake.status.in_progress,
        !state.can_send(ready),
    ensures
        state.encapsulation(packet, false, ready, now) == Request::Done,
        state.encapsulating(packet, ready, now) == state.enqueued(packet),
        state.initiation(false, None, now) == Request::Done,
        state.initiating(false, now) == state,
{
}

/// A forced initiation is always asked for. It restarts the handshake timer only if no handshake was
/// in progress.
pub proof fn law_forced_initiation_is_asked_for(state: State, now: Instant)
    ensures
        state.initiation(true, None, now) == (Request::Initiate {
            starting_new: !state.handshake.status.in_progress,
            retry: None,
            now,
        }),
        state.initiated(false, now).events == state.events.push(
            TimerEvent::Tick(TimerName::TimeLastPacketSent, now),
        ),
{
}

/// The timers are cleared exactly when a handshake is initiated after one that was given up.
pub proof fn law_timers_are_cleared_after_expiry(state: State, force_resend: bool, now: Instant)
    ensures
        state.initiating(force_resend, now).events == (if state.handshake.status.expired
            && state.initiation(force_resend, None, now) is Initiate {
            state.events.push(TimerEvent::Clear(now))
        } else {
            state.events
        }),
{
}

/// Repeated calls with an empty datagram send the whole queue, the oldest packet first, and then come
/// to an end: while the session may be used and every packet can be sealed, the `n`th call asks for
/// the `n`th packet, and the call after the last one has nothing to do.
pub proof fn law_repeated_calls_send_the_queue(
    state: State,
    src_addr: Option<Address>,
    n: nat,
    ready: Readiness,
    now: Instant,
)
    requires
        state.can_send(ready),
        n <= state.queue.len(),
    ensures
        state.served(n, ready, now).queue == state.queue.skip(n as int),
        state.served(n, ready, now).current == state.current,
        state.served(n, ready, now).sessions == state.sessions,
        state.served(n, ready, now).tx_bytes == state.tx_bytes + model::total_len(
            state.queue.take(n as int),
        ),
        n < state.queue.len() ==> state.served(n, ready, now).decapsulation(
            src_addr,
            Seq::empty(),
            ready,
            now,
        ) == (Request::Seal {
            slot: model::slot(state.current),
            payload: state.queue[n as int],
            queued: true,
            now,
        }),
        n == state.queue.len() ==> state.served(n, ready, now).decapsulation(
            src_addr,
            Seq::empty(),
            ready,
            now,
        ) == Request::Done,
    decreases n,
{
    if n == 0 {
        assert(state.queue.skip(0) =~= state.queue);
    } else {
        let m = (n - 1) as nat;
        law_repeated_calls_send_the_queue(state, src_addr, m, ready, now);
        assert(state.queue.skip(m as int).drop_first() =~= state.queue.skip(n as int));
        assert(state.queue.take(n as int).drop_last() =~= state.queue.take(m as int));
    }
}

/// The slots that hold a session are listed once each, the current one first.
pub proof fn law_recent_slots_are_the_occupied_ones(state: State)
    requires
        state.well_formed(),
    ensures
        state.recent_slots().no_duplicates(),
        forall|s: int| #[trigger]
            state.recent_slots().contains(s) <==> 0 <= s < N_SESSIONS && state.sessions[s] is Some,
        state.session_for(state.current) is Some ==> state.recent_slots().len() > 0
            && state.recent_slots().first() == model::slot(state.current),
{
    let back = model::slots_back_from(state.current);
    let occupied = |s: int| state.sessions[s] is Some;
    assert forall|i: int, j: int| 0 <= i < back.len() && 0 <= j < back.len() && i != j implies back[i]
        != back[j] by {
        lemma_slots_differ(state.current, i, j);
    }
    lemma_filtered(back, occupied);
    assert forall|s: int| #[trigger]
        state.recent_slots().contains(s) <==> 0 <= s < N_SESSIONS && state.sessions[s] is Some by {
        if 0 <= s < N_SESSIONS {
            let i = model::slot(state.current - s);
            assert(back[i] == s);
        }
    }
}

/// Going back fewer than N_SESSIONS slots leads to different slots.
proof fn lemma_slots_differ(index: int, i: int, j: int)
    requires
        0 <= i < N_SESSIONS,
        0 <= j < N_SESSIONS,
        i != j,
    ensures
        model::slot(index - i) != model::slot(index - j),
{
}

/// What a filter leaves of a sequence without duplicates.
proof fn lemma_filtered(s: Seq<int>, keep: spec_fn(int) -> bool)
    requires
        s.no_duplicates(),
    ensures
        s.filter(keep).no_duplicates(),
        forall|x: int| #[trigger] s.filter(keep).contains(x) <==> s.contains(x) && keep(x),
        s.len() > 0 && keep(s.first()) ==> s.filter(keep).len() > 0 && s.filter(keep).first()
            == s.first(),
    decreases s.len(),
{
    reveal(Seq::filter);
    if s.len() > 0 {
        let front = s.drop_last();
        lemma_filtered(front, keep);
        let kept = front.filter(keep);
        assert forall|x: int| #[trigger] s.filter(keep).contains(x) <==> s.contains(x) && keep(x) by {
            assert(s =~= front.push(s.last()));
            if s.contains(x) && keep(x) {
                if x == s.last() {
                    assert(s.filter(keep).last() == x);
                } else {
                    assert(front.contains(x));
                    assert(kept.contains(x));
                    let k = choose|k: int| 0 <= k < kept.len() && kept[k] == x;
                    assert(s.filter(keep)[k] == x);
                }
            }
            if s.filter(keep).contains(x) {
                let k = choose|k: int| 0 <= k < s.filter(keep).len() && s.filter(keep)[k] == x;
                if k < kept.len() {
                    assert(kept[k] == x);
                    assert(kept.contains(x));
                    assert(front.contains(x));
                    let m = choose|m: int| 0 <= m < front.len() && front[m] == x;
                    assert(s[m] == x);
                } else {
                    assert(s[s.len() - 1] == x);
                }
            }
        }
        if keep(s.last()) {
            assert(!front.contains(s.last()));
            assert(!kept.contains(s.last()));
        }
    }
}

} // verus!

//! What each step of a tunnel does, stated on the fields of its state alone.
use std::sync::Arc;
use std::time::Instant;
use vstd::prelude::*;

use crate::clock;
use crate::errors::WireGuardError;
use crate::handshake::Handshake;
use crate::handshake::HandshakeStatus;
use crate::ip::Address;
use crate::ip::IpAddr;
use crate::ip::Ipv4Addr;
use crate::ip::Ipv6Addr;
use crate::keys;
use crate::model;
use crate::model::Outcome;
use crate::model::Readiness;
use crate::model::Request;
use crate::model::SealRequest;
use crate::model::State;
use crate::packet::HandshakeInit;
use crate::packet::HandshakeResponse;
use crate::packet::Message;
use crate::packet::PacketCookieReply;
use crate::rate_limiter::RateLimiter;
use crate::session::Session;
use crate::timers::TimerEvent;
use crate::timers::TimerName;
use crate::timers::TimerSettings;
use crate::tunn;
use crate::tunn::Action;
use crate::tunn::Initiation;
use crate::tunn::Open;
use crate::tunn::Seal;
use crate::tunn::TunnResult;

verus! {

/// A new tunnel has the keys that it was given and the public key that belongs to its own. It has no
/// session, no packet and no event, and has counted nothing. The indices of its sessions begin with
/// the low 24 bits of its own index. It has the given rate limiter, or one of its own for its public
/// key, which lets ten handshakes per second through and which its timers reset.
pub proof fn law_what_a_new_tunnel_is(
    state: State,
    static_private: [u8; 32],
    peer_static_public: [u8; 32],
    preshared_key: Option<[u8; 32]>,
    persistent_keepalive: Option<u16>,
    index: u32,
    rate_limiter: Option<Arc<RateLimiter>>,
    rng_seed: u64,
    now: Instant,
)
    requires
        tunn::is_new(
            state,
            static_private,
            peer_static_public,
            preshared_key,
            persistent_keepalive,
            index,
            rate_limiter,
            rng_seed,
            now,
        ),
    ensures
        state.handshake.static_private == static_private,
        state.handshake.static_public@ == keys::x25519_public(static_private@),
        state.handshake.peer_static_public == peer_static_public,
        state.handshake.preshared_key == preshared_key,
        state.handshake.first_index == 256 * (index % 0x100_0000),
        state.handshake.created_at == now,
        state.handshake.status == (HandshakeStatus {
            in_progress: false,
            expired: false,
            last_rtt: None,
        }),
        state.sessions.len() == 8,
        forall|i: int| 0 <= i < 8 ==> #[trigger] state.sessions[i] is None,
        state.current == 0,
        state.queue.len() == 0,
        state.events.len() == 0,
        state.tx_bytes == 0,
        state.rx_bytes == 0,
        state.timers == (TimerSettings {
            persistent_keepalive,
            should_reset_rr: rate_limiter is None,
            rng_seed,
            created_at: now,
        }),
        rate_limiter matches Some(given) ==> state.rate_limiter == *given,
        rate_limiter is None ==> state.rate_limiter == (RateLimiter {
            public_key: state.handshake.static_public,
            limit: 10,
            created_at: now,
        }),
{
}

/// A tunnel is well-formed exactly if its ring has eight slots, every session is in the slot that its
/// index leaves modulo eight, and no more than 256 packets wait.
pub proof fn law_what_well_formed_means(state: State)
    ensures
        state.well_formed() <==> {
            &&& state.sessions.len() == 8
            &&& forall|i: int|
                0 <= i < 8 && (#[trigger] state.sessions[i]) is Some
                    ==> state.sessions[i]->0.local_index as int % 8 == i
            &&& state.queue.len() <= 256
        },
{
}

/// A session is looked for in the slot that its index leaves modulo eight.
pub proof fn law_where_a_session_is_looked_for(state: State, index: int)
    ensures
        model::slot(index) == index % 8,
        state.session_for(index) == state.sessions[index % 8],
{
}

/// A session that is stored replaces what was in its slot, and nothing else.
pub proof fn law_what_storing_does(state: State, session: Session)
    ensures
        state.storing(session) == (State {
            sessions: state.sessions.update(session.local_index as int % 8, Some(session)),
            ..state
        }),
{
}

/// The session that is selected becomes the current one, unless the current one is in another slot
/// and was established later.
pub proof fn law_what_selecting_does(state: State, index: int)
    ensures
        ({
            let current = state.sessions[state.current % 8];
            let selected = state.sessions[index % 8];
            let stays = state.current % 8 != index % 8 && current is Some && selected is Some
                && clock::is_later(current->0.established_at, selected->0.established_at);
            &&& stays ==> state.selecting(index) == state
            &&& !stays ==> state.selecting(index) == (State { current: index, ..state })
        }),
{
}

/// What it means that the newer one of two sessions is used.
pub proof fn law_what_newer_means(state: State, a: Session, b: Session)
    requires
        state.uses_newer_of(Some(a), Some(b)),
    ensures
        state.sessions[state.current % 8] == Some(a) || state.sessions[state.current % 8] == Some(b),
        state.sessions[state.current % 8] == Some(a) && a != b ==> !clock::is_later(
            b.established_at,
            a.established_at,
        ),
        state.sessions[state.current % 8] == Some(b) && a != b ==> !clock::is_later(
            a.established_at,
            b.established_at,
        ),
{
}

/// The recent slots are those that hold a session, in the order in which they lie behind that of the
/// current session.
pub proof fn law_what_recent_slots_are(state: State)
    ensures
        forall|i: int|
            0 <= i < state.recent_slots().len() ==> {
                let s = #[trigger] state.recent_slots()[i];
                0 <= s < 8 && state.sessions[s] is Some
            },
        forall|s: int|
            0 <= s < 8 && #[trigger] state.sessions[s] is Some ==> state.recent_slots().contains(s),
        forall|i: int, j: int|
            0 <= i < j < state.recent_slots().len() ==> (state.current
                - #[trigger] state.recent_slots()[i]) % 8 < (state.current
                - #[trigger] state.recent_slots()[j]) % 8,
{
    let back = model::slots_back_from(state.current);
    let occupied = |s: int| state.sessions[s] is Some;
    assert forall|i: int| 0 <= i < back.len() implies (state.current - #[trigger] back[i]) % 8 == i by {
        lemma_distance(state.current, i);
    }
    lemma_kept_in_order(back, occupied, state.current);
    assert forall|s: int| 0 <= s < 8 && #[trigger] state.sessions[s] is Some implies
        state.recent_slots().contains(s) by {
        let i = (state.current - s) % 8;
        assert(back[i] == s);
    }
}

/// Going back `i` slots and looking from there leads forward `i` slots.
proof fn lemma_distance(index: int, i: int)
    requires
        0 <= i < 8,
    ensures
        (index - (index - i) % 8) % 8 == i,
{
}

/// A filter keeps what it should, in the order in which it was.
proof fn lemma_kept_in_order(s: Seq<int>, keep: spec_fn(int) -> bool, index: int)
    requires
        forall|i: int| 0 <= i < s.len() ==> (index - #[trigger] s[i]) % 8 == i && 0 <= s[i] < 8,
    ensures
        forall|i: int|
            0 <= i < s.filter(keep).len() ==> {
                let x = #[trigger] s.filter(keep)[i];
                keep(x) && 0 <= x < 8 && 0 <= (index - x) % 8 < s.len()
            },
        forall|i: int|
            0 <= i < s.len() && keep(#[trigger] s[i]) ==> s.filter(keep).contains(s[i]),
        forall|i: int, j: int|
            0 <= i < j < s.filter(keep).len() ==> (index - #[trigger] s.filter(keep)[i]) % 8 < (index
                - #[trigger] s.filter(keep)[j]) % 8,
    decreases s.len(),
{
    reveal(Seq::filter);
    if s.len() > 0 {
        let front = s.drop_last();
        assert forall|i: int| 0 <= i < front.len() implies (index - #[trigger] front[i]) % 8 == i && 0
            <= front[i] < 8 by {
            assert(front[i] == s[i]);
        }
        lemma_kept_in_order(front, keep, index);
        let kept = front.filter(keep);
        assert((index - s[s.len() - 1]) % 8 == s.len() - 1);
        assert forall|i: int| 0 <= i < s.len() && keep(#[trigger] s[i]) implies s.filter(
            keep,
        ).contains(s[i]) by {
            if i < front.len() {
                assert(front[i] == s[i]);
                assert(kept.contains(s[i]));
                let k = choose|k: int| 0 <= k < kept.len() && kept[k] == s[i];
                assert(s.filter(keep)[k] == s[i]);
            } else {
                assert(s.filter(keep).last() == s[i]);
            }
        }
        assert forall|i: int| 0 <= i < s.filter(keep).len() implies ({
            let x = #[trigger] s.filter(keep)[i];
            keep(x) && 0 <= x < 8 && 0 <= (index - x) % 8 < s.len()
        }) by {
            if i < kept.len() {
                assert(s.filter(keep)[i] == kept[i]);
            }
        }
        assert forall|i: int, j: int| 0 <= i < j < s.filter(keep).len() implies (index
            - #[trigger] s.filter(keep)[i]) % 8 < (index - #[trigger] s.filter(keep)[j]) % 8 by {
            assert(s.filter(keep)[i] == kept[i]);
            if j < kept.len() {
                assert(s.filter(keep)[j] == kept[j]);
            }
        }
    }
}

/// The back of the queue takes a packet while fewer than 256 wait, and the front does too. The packet
/// is kept as it is. Nothing else of the tunnel changes.
pub proof fn law_what_queueing_does(state: State, packet: Seq<u8>)
    ensures
        state.queue.len() < 256 ==> {
            &&& state.enqueued(packet) == (State { queue: state.queue.push(packet), ..state })
            &&& state.requeued(packet) == (State { queue: seq![packet] + state.queue, ..state })
        },
        state.queue.len() >= 256 ==> {
            &&& state.enqueued(packet) == state
            &&& state.requeued(packet) == state
        },
        state.queue.len() > 0 ==> state.dequeued() == (State {
            queue: state.queue.drop_first(),
            ..state
        }),
        state.queue.len() == 0 ==> state.dequeued() == state,
{
}

/// An event joins those that the timers were not told of, and nothing else changes.
pub proof fn law_what_an_event_does(
    state: State,
    event: TimerEvent,
    name: TimerName,
    status: HandshakeStatus,
    now: Instant,
)
    ensures
        state.with_event(event) == (State { events: state.events.push(event), ..state }),
        state.ticked(name, now) == (State {
            events: state.events.push(TimerEvent::Tick(name, now)),
            ..state
        }),
        state.with_status(status) == (State {
            handshake: Handshake { status, ..state.handshake },
            ..state
        }),
{
}

/// A handshake initiation is asked for, whatever sessions there are, unless a handshake is in progress
/// and none is forced. It is a new handshake exactly if none was in progress.
pub proof fn law_when_an_initiation_is_asked_for(
    state: State,
    force_resend: bool,
    retry: Option<Seq<u8>>,
    now: Instant,
)
    ensures
        state.handshake.status.in_progress && !force_resend <==> state.initiation(
            force_resend,
            retry,
            now,
        ) == Request::Done,
        !(state.handshake.status.in_progress && !force_resend) <==> state.initiation(
            force_resend,
            retry,
            now,
        ) == (Request::Initiate {
            starting_new: !state.handshake.status.in_progress,
            retry,
            now,
        }),
{
}

/// Before an initiation that is asked for after a handshake was given up, the timers are cleared. No
/// other field changes, and no other call clears the timers.
pub proof fn law_what_initiating_changes(state: State, force_resend: bool, now: Instant)
    ensures
        ({
            let asked = force_resend || !state.handshake.status.in_progress;
            &&& asked && state.handshake.status.expired ==> state.initiating(force_resend, now) == (
            State { events: state.events.push(TimerEvent::Clear(now)), ..state })
            &&& !(asked && state.handshake.status.expired) ==> state.initiating(force_resend, now)
                == state
        }),
{
}

/// A packet may be sent exactly if there is a session in the slot of the current index and it is
/// young enough, or the peer has to renew it.
pub proof fn law_when_a_packet_may_be_sent(state: State, ready: Readiness)
    ensures
        state.can_send(ready) <==> {
            &&& state.sessions[state.current % 8] is Some
            &&& ready.should_use || ready.is_responder
        },
{
}

/// With a session that may be used, a packet of any length is to be sealed with that session, and the
/// tunnel is unchanged.
pub proof fn law_packet_with_usable_session(
    state: State,
    packet: Seq<u8>,
    queued: bool,
    ready: Readiness,
    now: Instant,
)
    requires
        state.sessions[state.current % 8] is Some,
        ready.should_use || ready.is_responder,
    ensures
        state.encapsulation(packet, queued, ready, now) == (Request::Seal {
            slot: state.current % 8,
            payload: packet,
            queued,
            now,
        }),
        state.encapsulating(packet, ready, now) == state,
{
}

/// Without a session that may be used, a packet of any length waits in the queue, if that has room. A
/// handshake is initiated exactly if none is in progress. If a packet that was queued before cannot
/// even have that, it is to return to the queue.
pub proof fn law_packet_without_usable_session(
    state: State,
    packet: Seq<u8>,
    queued: bool,
    ready: Readiness,
    now: Instant,
)
    requires
        state.sessions[state.current % 8] is None || !ready.should_use && !ready.is_responder,
    ensures
        !state.handshake.status.in_progress ==> state.encapsulation(packet, queued, ready, now) == (
        Request::Initiate {
            starting_new: true,
            retry: if queued {
                Some(packet)
            } else {
                None
            },
            now,
        }),
        state.handshake.status.in_progress ==> state.encapsulation(packet, queued, ready, now)
            == Request::Done,
        state.encapsulating(packet, ready, now) == (State {
            queue: if state.queue.len() < 256 {
                state.queue.push(packet)
            } else {
                state.queue
            },
            events: if state.handshake.status.expired && !state.handshake.status.in_progress {
                state.events.push(TimerEvent::Clear(now))
            } else {
                state.events
            },
            ..state
        }),
{
}

/// An empty datagram takes the oldest packet, whatever it holds, out of the queue and asks for it to
/// be sealed with the session that may be used. Without a packet nothing is done.
pub proof fn law_queue_with_usable_session(
    state: State,
    src_addr: Option<Address>,
    ready: Readiness,
    now: Instant,
)
    requires
        state.sessions[state.current % 8] is Some,
        ready.should_use || ready.is_responder,
    ensures
        state.queue.len() > 0 ==> {
            &&& state.decapsulation(src_addr, Seq::empty(), ready, now) == (Request::Seal {
                slot: state.current % 8,
                payload: state.queue[0],
                queued: true,
                now,
            })
            &&& state.decapsulating(Seq::empty(), ready, now) == (State {
                queue: state.queue.drop_first(),
                ..state
            })
        },
{
}

/// With an empty queue an empty datagram asks for nothing and changes nothing, whatever sessions
/// there are.
pub proof fn law_empty_queue_asks_for_nothing(
    state: State,
    src_addr: Option<Address>,
    ready: Readiness,
    now: Instant,
)
    requires
        state.queue.len() == 0,
    ensures
        state.decapsulation(src_addr, Seq::empty(), ready, now) == Request::Done,
        state.decapsulating(Seq::empty(), ready, now) == state,
        state.queued_encapsulation(ready, now) == Request::Done,
        state.sending_queued(ready, now) == state,
{
}

/// Without a session that may be used, an empty datagram moves the oldest packet to the back of the
/// queue. A handshake is initiated on its behalf exactly if none is in progress.
pub proof fn law_queue_without_usable_session(
    state: State,
    src_addr: Option<Address>,
    ready: Readiness,
    now: Instant,
)
    requires
        0 < state.queue.len() <= 256,
        state.sessions[state.current % 8] is None || !ready.should_use && !ready.is_responder,
    ensures
        !state.handshake.status.in_progress ==> state.decapsulation(
            src_addr,
            Seq::empty(),
            ready,
            now,
        ) == (Request::Initiate { starting_new: true, retry: Some(state.queue[0]), now }),
        state.handshake.status.in_progress ==> state.decapsulation(
            src_addr,
            Seq::empty(),
            ready,
            now,
        ) == Request::Done,
        state.decapsulating(Seq::empty(), ready, now) == (State {
            queue: state.queue.drop_first().push(state.queue[0]),
            events: if state.handshake.status.expired && !state.handshake.status.in_progress {
                state.events.push(TimerEvent::Clear(now))
            } else {
                state.events
            },
            ..state
        }),
{
}

/// A datagram with at least one byte is shown to the rate limiter whole, together with the address
/// that it came from. Nothing of the tunnel changes, whatever its state.
pub proof fn law_datagram_is_shown_to_the_rate_limiter(
    state: State,
    src_addr: Option<Address>,
    datagram: Seq<u8>,
    ready: Readiness,
    now: Instant,
)
    requires
        datagram.len() > 0,
    ensures
        state.decapsulation(src_addr, datagram, ready, now) == (Request::Verify {
            src_addr,
            datagram,
            now,
        }),
        state.decapsulating(datagram, ready, now) == state,
{
}

/// A packet that was sent is counted with all its bytes, and the send timer starts anew. The data
/// timer does so too, exactly if the packet has a byte. Nothing else changes.
pub proof fn law_what_sending_changes(state: State, payload: Seq<u8>, now: Instant)
    ensures
        state.sent(payload, now) == (State {
            tx_bytes: state.tx_bytes + payload.len(),
            events: if payload.len() == 0 {
                state.events.push(TimerEvent::Tick(TimerName::TimeLastPacketSent, now))
            } else {
                state.events.push(TimerEvent::Tick(TimerName::TimeLastPacketSent, now)).push(
                    TimerEvent::Tick(TimerName::TimeLastDataPacketSent, now),
                )
            },
            ..state
        }),
{
}

/// What cannot be sent and came out of the queue returns to its front as it is, and the caller is told
/// nothing. What the caller handed in is reported with the error that it met, and changes nothing.
pub proof fn law_what_a_failure_to_send_does(state: State, packet: Seq<u8>, e: WireGuardError)
    ensures
        state.queue.len() < 256 ==> state.not_sent(Some(packet)) == (State {
            queue: seq![packet] + state.queue,
            ..state
        }),
        state.queue.len() >= 256 ==> state.not_sent(Some(packet)) == state,
        state.not_sent(None) == state,
        State::not_sent_outcome(Some(packet), e) == Outcome::Done,
        State::not_sent_outcome(None, e) == Outcome::Error(e),
{
}

/// A packet returns to the queue exactly if it came out of it.
pub proof fn law_what_returns_to_the_queue(seal: SealRequest)
    ensures
        seal.queued ==> seal.retry() == Some(seal.payload),
        !seal.queued ==> seal.retry() == None::<Seq<u8>>,
{
}

/// An initiation that was sent starts the send timer anew; that of a new handshake starts the
/// handshake timer anew before that. Nothing else changes.
pub proof fn law_what_an_initiation_changes(state: State, now: Instant)
    ensures
        state.initiated(false, now) == (State {
            events: state.events.push(TimerEvent::Tick(TimerName::TimeLastPacketSent, now)),
            ..state
        }),
        state.initiated(true, now) == (State {
            events: state.events.push(
                TimerEvent::Tick(TimerName::TimeLastHandshakeStarted, now),
            ).push(TimerEvent::Tick(TimerName::TimeLastPacketSent, now)),
            ..state
        }),
{
}

/// A handshake message or a cookie reply that passed the rate limiter goes to the handshake as it is,
/// whatever sessions and packets the tunnel has: a peer can renew a session at any time.
pub proof fn law_handshake_messages_go_to_the_handshake(state: State, m: Message, now: Instant)
    ensures
        m is HandshakeInit <==> state.handling(m, now) == (Request::ReceiveInit { message: m, now }),
        m is HandshakeResponse <==> state.handling(m, now) == (Request::ReceiveResponse {
            message: m,
            now,
        }),
        m is CookieReply <==> state.handling(m, now) == (Request::ReceiveCookieReply {
            message: m,
            now,
        }),
{
}

/// A data packet goes to the session in the slot that the index in it leaves modulo eight, whichever
/// session is current. It is refused exactly if that slot is empty.
pub proof fn law_data_goes_to_its_session(
    state: State,
    receiver_idx: u32,
    counter: u64,
    sealed: Seq<u8>,
    now: Instant,
)
    ensures
        ({
            let message = Message::Data { receiver_idx, counter, sealed };
            let slot = receiver_idx as int % 8;
            &&& state.sessions[slot] is Some <==> state.handling(message, now) == (Request::Open {
                slot,
                message,
                now,
            })
            &&& state.sessions[slot] is None <==> state.handling(message, now) == Request::Fail(
                WireGuardError::NoCurrentSession,
            )
        }),
{
}

/// After an initiation of the peer was answered, the new session is in its slot, next to the others,
/// and the timers are told in this order that a packet came, that one was sent and that the peer has
/// established a session. The session in use, the queue, the counters and the rest stay.
pub proof fn law_what_a_response_changes(state: State, session: Session, now: Instant)
    ensures
        state.responded(session, now) == (State {
            sessions: state.sessions.update(session.local_index as int % 8, Some(session)),
            events: state.events.push(
                TimerEvent::Tick(TimerName::TimeLastPacketReceived, now),
            ).push(TimerEvent::Tick(TimerName::TimeLastPacketSent, now)).push(
                TimerEvent::SessionEstablished { is_initiator: false, at: now },
            ),
            ..state
        }),
{
}

/// After the peer has answered an initiation, the new session is in its slot, next to the others, and
/// the timers are told that a packet came and that this side has established a session. The new
/// session is the current one, unless the current one is in another slot and was established later.
pub proof fn law_what_an_established_session_changes(state: State, session: Session, now: Instant)
    requires
        state.sessions.len() == 8,
    ensures
        ({
            let current = state.sessions[state.current % 8];
            let stays = state.current % 8 != session.local_index as int % 8 && current is Some
                && clock::is_later(current->0.established_at, session.established_at);
            state.established(session, now) == (State {
                sessions: state.sessions.update(session.local_index as int % 8, Some(session)),
                events: state.events.push(
                    TimerEvent::Tick(TimerName::TimeLastPacketReceived, now),
                ).push(TimerEvent::SessionEstablished { is_initiator: true, at: now }),
                current: if stays {
                    state.current
                } else {
                    session.local_index as int
                },
                ..state
            })
        }),
{
}

/// After a data packet was opened, its session is the current one, unless the current one is in
/// another slot and was established later. The receive timer starts anew. If the payload holds a
/// whole IP packet, its declared length is counted and the data timer starts anew too. Nothing else
/// changes.
pub proof fn law_what_a_data_packet_changes(state: State, index: int, p: Seq<u8>, now: Instant)
    ensures
        ({
            let current = state.sessions[state.current % 8];
            let selected = state.sessions[index % 8];
            let stays = state.current % 8 != index % 8 && current is Some && selected is Some
                && clock::is_later(current->0.established_at, selected->0.established_at);
            let v4 = p.len() >= 20 && 0x40 <= p[0] < 0x50 && p[2] * 256 + p[3] <= p.len();
            let v6 = p.len() >= 40 && 0x60 <= p[0] < 0x70 && p[4] * 256 + p[5] + 40 <= p.len();
            let came = state.events.push(TimerEvent::Tick(TimerName::TimeLastPacketReceived, now));
            state.received(index, p, now) == (State {
                current: if stays {
                    state.current
                } else {
                    index
                },
                events: if v4 || v6 {
                    came.push(TimerEvent::Tick(TimerName::TimeLastDataPacketReceived, now))
                } else {
                    came
                },
                rx_bytes: state.rx_bytes + (if v4 {
                    p[2] * 256 + p[3]
                } else if v6 {
                    p[4] * 256 + p[5] + 40
                } else {
                    0
                }),
                ..state
            })
        }),
{
}

/// What is delivered is counted as long as the header says, and the data timer starts anew. A payload
/// that is not delivered changes nothing.
pub proof fn law_what_delivering_changes(state: State, p: Seq<u8>, now: Instant)
    ensures
        ({
            let v4 = p.len() >= 20 && 0x40 <= p[0] < 0x50 && p[2] * 256 + p[3] <= p.len();
            let v6 = p.len() >= 40 && 0x60 <= p[0] < 0x70 && p[4] * 256 + p[5] + 40 <= p.len();
            &&& v4 || v6 ==> state.delivering(p, now) == (State {
                events: state.events.push(
                    TimerEvent::Tick(TimerName::TimeLastDataPacketReceived, now),
                ),
                rx_bytes: state.rx_bytes + (if v4 {
                    p[2] * 256 + p[3]
                } else {
                    p[4] * 256 + p[5] + 40
                }),
                ..state
            })
            &&& !v4 && !v6 ==> state.delivering(p, now) == state
        }),
{
}

/// What is delivered of a payload and what is counted of it agree: the counter grows by the
/// length of what is delivered, and by nothing if nothing is delivered.
pub proof fn law_counted_is_what_is_delivered(state: State, index: int, p: Seq<u8>, now: Instant)
    ensures
        state.received(index, p, now).rx_bytes == state.rx_bytes + (match model::delivery(p) {
            Outcome::WriteToTunnel(q, a) => q.len(),
            _ => 0,
        }),
{
}

/// The handshake has the new keys after they were replaced, whether the rate limiter is shared or
/// not, and keeps the rest. No slot of the ring holds a session. The rate limiter is the given one or
/// one of the tunnel's own for the new public key, and only the latter is reset by the timers.
/// Everything else stays.
pub proof fn law_what_a_new_key_changes(
    state: State,
    static_private: [u8; 32],
    static_public: [u8; 32],
    rate_limiter: Option<Arc<RateLimiter>>,
    now: Instant,
)
    ensures
        ({
            let next = state.rekeyed(static_private, static_public, rate_limiter, now);
            &&& next.handshake.static_private == static_private
            &&& next.handshake.static_public == static_public
            &&& next.handshake == (Handshake { static_private, static_public, ..state.handshake })
            &&& next.sessions.len() == 8
            &&& forall|i: int| 0 <= i < 8 ==> #[trigger] next.sessions[i] is None
            &&& next.timers == (TimerSettings {
                should_reset_rr: rate_limiter is None,
                ..state.timers
            })
            &&& rate_limiter matches Some(given) ==> next.rate_limiter == *given
            &&& rate_limiter is None ==> next.rate_limiter == (RateLimiter {
                public_key: static_public,
                limit: 10,
                created_at: now,
            })
            &&& next.current == state.current
            &&& next.queue == state.queue
            &&& next.events == state.events
            &&& next.tx_bytes == state.tx_bytes
            &&& next.rx_bytes == state.rx_bytes
        }),
{
}

/// Of two keys that were set one after the other the second one holds, as if it alone had been set.
pub proof fn law_last_key_holds(
    state: State,
    first_private: [u8; 32],
    first_public: [u8; 32],
    first_limiter: Option<Arc<RateLimiter>>,
    second_private: [u8; 32],
    second_public: [u8; 32],
    second_limiter: Option<Arc<RateLimiter>>,
    earlier: Instant,
    now: Instant,
)
    ensures
        state.rekeyed(first_private, first_public, first_limiter, earlier).rekeyed(
            second_private,
            second_public,
            second_limiter,
            now,
        ) == state.rekeyed(second_private, second_public, second_limiter, now),
{
}

/// Which action stands for which request. Nothing of an action is hidden in its request, and no two
/// kinds of action share one.
pub proof fn law_actions_show_their_requests(
    e: WireGuardError,
    seal: Seal<'_>,
    initiation: Initiation,
    open: Open<'_>,
    src_addr: Option<IpAddr>,
    datagram: &[u8],
    init: HandshakeInit<'_>,
    response: HandshakeResponse<'_>,
    reply: PacketCookieReply<'_>,
    now: Instant,
)
    ensures
        Action::Done@ == Request::Done,
        Action::Fail(e)@ == Request::Fail(e),
        Action::Seal(seal)@ == (Request::Seal {
            slot: seal@.slot,
            payload: seal@.payload,
            queued: seal@.queued,
            now: seal@.now,
        }),
        Action::Initiate(initiation)@ == (Request::Initiate {
            starting_new: initiation@.starting_new,
            retry: initiation@.retry,
            now: initiation@.now,
        }),
        Action::Open(open)@ == (Request::Open {
            slot: open@.slot,
            message: open@.message,
            now: open@.now,
        }),
        (Action::Verify { src_addr, datagram, now })@ == (Request::Verify {
            src_addr: match src_addr {
                Some(a) => Some(a@),
                None => None,
            },
            datagram: datagram@,
            now,
        }),
        Action::SendCookie(datagram)@ == Request::SendCookie(datagram@),
        (Action::ReceiveInit { init, now })@ == (Request::ReceiveInit {
            message: Message::HandshakeInit {
                sender_idx: init.sender_idx,
                ephemeral: init.unencrypted_ephemeral@,
                encrypted_static: init.encrypted_static@,
                encrypted_timestamp: init.encrypted_timestamp@,
            },
            now,
        }),
        (Action::ReceiveResponse { response, now })@ == (Request::ReceiveResponse {
            message: Message::HandshakeResponse {
                sender_idx: response.sender_idx,
                receiver_idx: response.receiver_idx,
                ephemeral: response.unencrypted_ephemeral@,
                encrypted_nothing: response.encrypted_nothing@,
            },
            now,
        }),
        (Action::ReceiveCookieReply { reply, now })@ == (Request::ReceiveCookieReply {
            message: Message::CookieReply {
                receiver_idx: reply.receiver_idx,
                nonce: reply.nonce@,
                encrypted_cookie: reply.encrypted_cookie@,
            },
            now,
        }),
{
}

/// Which result stands for which outcome.
pub proof fn law_results_show_their_outcomes(
    r: TunnResult<'_>,
    e: WireGuardError,
    v4: Ipv4Addr,
    v6: Ipv6Addr,
    packet: Vec<u8>,
)
    ensures
        r@ == Outcome::Done <==> r is Done,
        r@ == Outcome::Error(e) <==> (r matches TunnResult::Error(reported) && reported == e),
        r matches TunnResult::WriteToNetwork(p) ==> r@ == Outcome::WriteToNetwork(p@),
        r matches TunnResult::WriteToTunnelV4(p, a) ==> r@ == Outcome::WriteToTunnel(
            p@,
            Address::V4(a.octets@),
        ),
        r matches TunnResult::WriteToTunnelV6(p, a) ==> r@ == Outcome::WriteToTunnel(
            p@,
            Address::V6(a.octets@),
        ),
        tunn::address_of(None) == None::<Address>,
        tunn::address_of(Some(IpAddr::V4(v4))) == Some(Address::V4(v4.octets@)),
        tunn::address_of(Some(IpAddr::V6(v6))) == Some(Address::V6(v6.octets@)),
        tunn::bytes_of(None) == None::<Seq<u8>>,
        tunn::bytes_of(Some(packet)) == Some(packet@),
{
}

} // verus!

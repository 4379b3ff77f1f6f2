//! The parts of a tunnel, one at a time.

use noise::errors::WireGuardError;
use noise::handshake::HandshakeStatus;
use noise::ip::IpAddr;
use noise::ip::Ipv4Addr;
use noise::ip::Ipv6Addr;
use noise::model::Readiness;
use noise::packet::Packet;
use noise::packet::PacketData;
use noise::rate_limiter::RateLimiter;
use noise::session::Session;
use noise::timers::TimerEvent;
use noise::timers::TimerName;
use noise::tunn::Action;
use noise::tunn::Open;
use noise::tunn::Tunn;
use noise::tunn::TunnResult;
use noise::tunn::Verification;
use std::sync::Arc;
use std::time::Duration;
use std::time::Instant;

const READY: Readiness = Readiness {
    should_use: true,
    is_responder: false,
};

const IDLE: HandshakeStatus = HandshakeStatus {
    in_progress: false,
    expired: false,
    last_rtt: None,
};

fn tunnel(now: Instant) -> Tunn {
    Tunn::new_at([1; 32], [2; 32], None, None, 7, None, 3, now)
}

/// Stores a session as the responder does.
fn store(t: &mut Tunn, local_index: usize, established_at: Instant) {
    let session = Session {
        local_index,
        established_at,
    };
    let mut dst = [0u8; 92];
    t.handle_handshake_init(Ok((&mut dst, session)), established_at);
}

/// The request to open a data packet for a session that the tunnel has.
fn data_for(t: &Tunn, receiver_idx: u32, now: Instant) -> Open<'static> {
    let packet = PacketData {
        receiver_idx,
        counter: 0,
        encrypted_encapsulated_packet: &[],
    };
    match t.handle_verified_packet(Packet::PacketData(packet), now) {
        Action::Open(open) => open,
        other => panic!("Expected `Open` but was {:?}", other),
    }
}

fn open<'a>(
    t: &mut Tunn,
    receiver_idx: u32,
    now: Instant,
    opened: Result<&'a mut [u8], WireGuardError>,
) -> TunnResult<'a> {
    let request = data_for(t, receiver_idx, now);
    t.data_opened(request, opened)
}

fn names(events: Vec<TimerEvent>) -> Vec<String> {
    events
        .iter()
        .map(|e| match e {
            TimerEvent::Tick(name, _) => format!("{:?}", name),
            TimerEvent::SessionEstablished { is_initiator, .. } => {
                format!("SessionEstablished({})", is_initiator)
            }
            TimerEvent::Clear(_) => format!("Clear"),
        })
        .collect()
}

fn hex(s: &str) -> [u8; 32] {
    let mut out = [0u8; 32];
    for i in 0..32 {
        out[i] = u8::from_str_radix(&s[2 * i..2 * i + 2], 16).unwrap();
    }
    out
}

fn ipv4_packet(len: u16, actual: usize) -> Vec<u8> {
    let mut p = vec![0u8; actual];
    p[0] = 0x45;
    p[2..4].copy_from_slice(&len.to_be_bytes());
    p[12..16].copy_from_slice(&[10, 0, 0, 1]);
    p[16..20].copy_from_slice(&[10, 0, 0, 2]);
    p
}

fn ipv6_packet(payload_len: u16, actual: usize) -> Vec<u8> {
    let mut p = vec![0u8; actual];
    p[0] = 0x60;
    p[4..6].copy_from_slice(&payload_len.to_be_bytes());
    for i in 0..16 {
        p[8 + i] = i as u8;
        p[24 + i] = 0xf0 + i as u8;
    }
    p
}

#[test]
fn init_is_taken_apart() {
    let mut b: Vec<u8> = (0..148u32).map(|i| i as u8).collect();
    b[..4].copy_from_slice(&[1, 0, 0, 0]);
    let Ok(Packet::HandshakeInit(p)) = Tunn::parse_incoming_packet(&b) else {
        panic!("no initiation")
    };
    assert_eq!(p.sender_idx, 0x0706_0504);
    assert_eq!(p.unencrypted_ephemeral[..], b[8..40]);
    assert_eq!(p.encrypted_static, &b[40..88]);
    assert_eq!(p.encrypted_timestamp, &b[88..116]);
}

#[test]
fn response_is_taken_apart() {
    let mut b: Vec<u8> = (0..92).collect();
    b[..4].copy_from_slice(&[2, 0, 0, 0]);
    let Ok(Packet::HandshakeResponse(p)) = Tunn::parse_incoming_packet(&b) else {
        panic!("no response")
    };
    assert_eq!(p.sender_idx, 0x0706_0504);
    assert_eq!(p.receiver_idx, 0x0b0a_0908);
    assert_eq!(p.unencrypted_ephemeral[..], b[12..44]);
    assert_eq!(p.encrypted_nothing, &b[44..60]);
}

#[test]
fn cookie_reply_is_taken_apart() {
    let mut b: Vec<u8> = (0..64).collect();
    b[..4].copy_from_slice(&[3, 0, 0, 0]);
    let Ok(Packet::PacketCookieReply(p)) = Tunn::parse_incoming_packet(&b) else {
        panic!("no cookie reply")
    };
    assert_eq!(p.receiver_idx, 0x0706_0504);
    assert_eq!(p.nonce, &b[8..32]);
    assert_eq!(p.encrypted_cookie, &b[32..64]);
}

#[test]
fn data_is_taken_apart() {
    let mut b: Vec<u8> = (0..40).collect();
    b[..4].copy_from_slice(&[4, 0, 0, 0]);
    let Ok(Packet::PacketData(p)) = Tunn::parse_incoming_packet(&b) else {
        panic!("no data")
    };
    assert_eq!(p.receiver_idx, 0x0706_0504);
    assert_eq!(p.counter, 0x0f0e_0d0c_0b0a_0908);
    assert_eq!(p.encrypted_encapsulated_packet, &b[16..]);
}

#[test]
fn other_datagrams_are_invalid() {
    for (kind, len) in [
        (1u8, 147usize),
        (1, 149),
        (2, 91),
        (2, 93),
        (3, 63),
        (3, 65),
        (4, 31),
        (0, 64),
        (5, 64),
        (1, 4),
    ] {
        let mut b = vec![0u8; len];
        b[0] = kind;
        assert!(
            matches!(Tunn::parse_incoming_packet(&b), Err(WireGuardError::InvalidPacket)),
            "{} {}",
            kind,
            len
        );
    }
    for len in 0..4 {
        assert!(matches!(
            Tunn::parse_incoming_packet(&[1, 0, 0, 0][..len]),
            Err(WireGuardError::InvalidPacket)
        ));
    }
}

#[test]
fn reserved_bytes_must_be_zero() {
    for i in 1..4 {
        let mut b = [0u8; 64];
        b[0] = 3;
        assert!(Tunn::parse_incoming_packet(&b).is_ok());
        b[i] = 1;
        assert!(matches!(
            Tunn::parse_incoming_packet(&b),
            Err(WireGuardError::InvalidPacket)
        ));
    }
}

#[test]
fn destination_addresses() {
    assert_eq!(
        Tunn::dst_address(&ipv4_packet(20, 20)),
        Some(IpAddr::V4(Ipv4Addr { octets: [10, 0, 0, 2] }))
    );
    let mut octets = [0u8; 16];
    for i in 0..16 {
        octets[i] = 0xf0 + i as u8;
    }
    assert_eq!(
        Tunn::dst_address(&ipv6_packet(0, 40)),
        Some(IpAddr::V6(Ipv6Addr { octets }))
    );
    assert_eq!(Tunn::dst_address(&[]), None);
    assert_eq!(Tunn::dst_address(&ipv4_packet(20, 20)[..19]), None);
    assert_eq!(Tunn::dst_address(&ipv6_packet(0, 40)[..39]), None);
    assert_eq!(Tunn::dst_address(&[0x55; 60]), None);
}

/// The key pair of Alice in RFC 7748, section 6.1.
#[test]
fn public_key_is_derived() {
    let private = hex("77076d0a7318a57d3c16c17251b26645df4c2f87ebc0992ab177fba51db92c2a");
    let t = Tunn::new_at(private, [2; 32], None, None, 7, None, 3, Instant::now());
    let public = hex("8520f0098930a754748b7ddcb43ef75a0dbf3a0d26381af4eba4a98eaa9b4e6a");
    assert_eq!(t.handshake().static_public, public);
    assert_eq!(t.handshake().static_private, private);
}

#[test]
fn new_tunnel_is_empty() {
    let now = Instant::now();
    let t = Tunn::new_at([1; 32], [2; 32], Some([4; 32]), Some(25), 0x0100_0005, None, 3, now);
    let h = t.handshake();
    assert_eq!(h.first_index, 0x500);
    assert_eq!(h.peer_static_public, [2; 32]);
    assert_eq!(h.preshared_key, Some([4; 32]));
    assert_eq!(h.created_at, now);
    assert_eq!(h.status, IDLE);
    assert!(!t.is_expired());
    assert_eq!(t.timer_settings().persistent_keepalive, Some(25));
    assert!(t.timer_settings().should_reset_rr);
    assert_eq!(t.timer_settings().rng_seed, 3);
    assert_eq!(t.timer_settings().created_at, now);
    assert_eq!(t.rate_limiter().public_key, h.static_public);
    assert_eq!(t.rate_limiter().limit, 10);
    assert_eq!(t.rate_limiter().created_at, now);
    assert_eq!(t.recent_slots(), Vec::<usize>::new());
    assert_eq!((t.tx_bytes(), t.rx_bytes(), t.queue_len()), (0, 0, 0));
}

#[test]
fn shared_limiter_is_kept() {
    let now = Instant::now();
    let shared = Arc::new(RateLimiter::new_at(&[9; 32], 100, now));
    let t = Tunn::new_at([1; 32], [2; 32], None, None, 7, Some(shared.clone()), 3, now);
    assert!(Arc::ptr_eq(t.rate_limiter(), &shared));
    assert!(!t.timer_settings().should_reset_rr);
}

#[test]
fn new_reads_clock_and_draws_seed() {
    let before = Instant::now();
    let a = Tunn::new([1; 32], [2; 32], None, None, 7, None);
    let b = Tunn::new([1; 32], [2; 32], None, None, 7, None);
    let after = Instant::now();
    assert!(before <= a.handshake().created_at && a.handshake().created_at <= after);
    assert_eq!(a.handshake().created_at, a.timer_settings().created_at);
    assert_ne!(a.timer_settings().rng_seed, b.timer_settings().rng_seed);
}

#[test]
fn new_key_clears_sessions() {
    let now = Instant::now();
    let mut t = tunnel(now);
    for i in 0..8 {
        store(&mut t, i, now);
    }
    t.set_static_private_at([5; 32], [6; 32], None, now);
    assert_eq!(t.recent_slots(), Vec::<usize>::new());
    assert_eq!(t.handshake().static_private, [5; 32]);
    assert_eq!(t.handshake().static_public, [6; 32]);
    assert_eq!(t.rate_limiter().public_key, [6; 32]);
    assert!(t.timer_settings().should_reset_rr);
    let shared = Arc::new(RateLimiter::new_at(&[9; 32], 100, now));
    t.set_static_private([7; 32], [8; 32], Some(shared.clone()));
    assert!(Arc::ptr_eq(t.rate_limiter(), &shared));
    assert!(!t.timer_settings().should_reset_rr);
    assert!(matches!(t.encapsulate_at(&[1], READY, now), Action::Initiate(_)));
}

#[test]
fn packet_is_sealed_with_current_session() {
    let now = Instant::now();
    let mut t = tunnel(now);
    let session = Session {
        local_index: 0x70b,
        established_at: now,
    };
    let mut dst = [0u8; 32];
    t.handle_handshake_response(Ok((session, Ok(&mut dst))), now);
    assert_eq!(t.current_slot(), 3);
    assert_eq!(t.session(3).unwrap().local_index, 0x70b);
    assert_eq!(
        names(t.take_timer_events()),
        ["TimeLastPacketReceived", "SessionEstablished(true)"]
    );

    let Action::Seal(seal) = t.encapsulate_at(&[1, 2, 3], READY, now) else {
        panic!("no seal")
    };
    assert_eq!(seal.slot(), 3);
    assert_eq!(seal.payload(), [1, 2, 3]);
    let mut sealed = [9u8; 5];
    let TunnResult::WriteToNetwork(p) = t.data_sealed(seal, Ok(&mut sealed)) else {
        panic!("not sent")
    };
    assert_eq!(p, [9; 5]);
    assert_eq!(t.tx_bytes(), 3);
    assert_eq!(
        names(t.take_timer_events()),
        ["TimeLastPacketSent", "TimeLastDataPacketSent"]
    );

    let Action::Seal(keepalive) = t.encapsulate(&[], |_| READY) else {
        panic!("no seal")
    };
    t.data_sealed(keepalive, Ok(&mut sealed));
    assert_eq!(t.tx_bytes(), 3);
    assert_eq!(names(t.take_timer_events()), ["TimeLastPacketSent"]);
    assert_eq!(t.queue_len(), 0);
}

#[test]
fn session_that_is_not_ready_is_not_used() {
    let now = Instant::now();
    for (should_use, is_responder, used) in [
        (false, false, false),
        (false, true, true),
        (true, false, true),
        (true, true, true),
    ] {
        let mut t = tunnel(now);
        store(&mut t, 0, now);
        let ready = Readiness {
            should_use,
            is_responder,
        };
        let sealed = matches!(t.encapsulate_at(&[1], ready, now), Action::Seal(_));
        assert_eq!(sealed, used);
        assert_eq!(t.queue_len(), if used { 0 } else { 1 });
    }
}

#[test]
fn direct_packet_that_is_not_sealed_is_reported() {
    let now = Instant::now();
    let mut t = tunnel(now);
    store(&mut t, 0, now);
    let Action::Seal(seal) = t.encapsulate_at(&[1], READY, now) else {
        panic!("no seal")
    };
    assert!(matches!(
        t.data_sealed(seal, Err(WireGuardError::Component(4))),
        TunnResult::Error(WireGuardError::Component(4))
    ));
    assert_eq!(t.queue_len(), 0);
    assert_eq!(t.tx_bytes(), 0);
}

#[test]
fn queued_packet_that_is_not_sealed_returns() {
    let now = Instant::now();
    let mut t = tunnel(now);
    t.encapsulate_at(&[1], READY, now);
    t.encapsulate_at(&[2], READY, now);
    store(&mut t, 0, now);
    for _ in 0..3 {
        let Action::Seal(seal) = t.decapsulate_at(None, &[], READY, now) else {
            panic!("no seal")
        };
        assert_eq!(seal.payload(), [1]);
        assert_eq!(t.queue_len(), 1);
        assert!(matches!(
            t.data_sealed(seal, Err(WireGuardError::Component(4))),
            TunnResult::Done
        ));
        assert_eq!(t.queue_len(), 2);
    }
}

#[test]
fn full_queue_drops_packets() {
    let now = Instant::now();
    let mut t = tunnel(now);
    for i in 0..300u32 {
        t.encapsulate_at(&i.to_be_bytes(), READY, now);
    }
    assert_eq!(t.queue_len(), 256);
    store(&mut t, 0, now);
    for i in 0..256u32 {
        let Action::Seal(seal) = t.decapsulate(None, &[], |_| READY) else {
            panic!("no seal")
        };
        assert_eq!(seal.payload(), i.to_be_bytes());
    }
    assert!(matches!(t.decapsulate_at(None, &[], READY, now), Action::Done));
}

/// Without a session the oldest packet goes to the back of the queue. If the initiation for it
/// fails, it is put to the front as well.
#[test]
fn waiting_packets_take_turns() {
    let now = Instant::now();
    let mut t = tunnel(now);
    t.encapsulate_at(&[1], READY, now);
    t.encapsulate_at(&[2], READY, now);
    let Action::Initiate(initiation) = t.decapsulate_at(None, &[], READY, now) else {
        panic!("no initiation")
    };
    assert_eq!(t.queue_len(), 2);
    assert!(matches!(
        t.initiation_formatted(initiation, Err(WireGuardError::Component(4))),
        TunnResult::Done
    ));
    assert_eq!(t.queue_len(), 3);
    store(&mut t, 0, now);
    for expected in [1u8, 2, 1] {
        let Action::Seal(seal) = t.decapsulate_at(None, &[], READY, now) else {
            panic!("no seal")
        };
        assert_eq!(seal.payload(), [expected]);
    }
}

#[test]
fn one_handshake_at_a_time() {
    let now = Instant::now();
    let mut t = tunnel(now);
    let Action::Initiate(initiation) = t.encapsulate_at(&[1], READY, now) else {
        panic!("no initiation")
    };
    assert!(initiation.starting_new());
    assert_eq!(initiation.now(), now);
    let mut dst = [0u8; 148];
    assert!(matches!(
        t.initiation_formatted(initiation, Ok(&mut dst)),
        TunnResult::WriteToNetwork(_)
    ));
    assert_eq!(
        names(t.take_timer_events()),
        ["TimeLastHandshakeStarted", "TimeLastPacketSent"]
    );
    t.set_handshake_status(HandshakeStatus {
        in_progress: true,
        ..IDLE
    });
    assert!(matches!(t.encapsulate_at(&[2], READY, now), Action::Done));
    assert!(matches!(t.format_handshake_initiation_at(false, now), Action::Done));
    assert_eq!(t.queue_len(), 2);

    let Action::Initiate(forced) = t.format_handshake_initiation(true) else {
        panic!("no initiation")
    };
    assert!(!forced.starting_new());
    t.initiation_formatted(forced, Ok(&mut dst));
    assert_eq!(names(t.take_timer_events()), ["TimeLastPacketSent"]);
}

#[test]
fn failed_initiation_is_reported() {
    let now = Instant::now();
    let mut t = tunnel(now);
    let Action::Initiate(initiation) = t.format_handshake_initiation_at(false, now) else {
        panic!("no initiation")
    };
    assert!(matches!(
        t.initiation_formatted(initiation, Err(WireGuardError::Component(4))),
        TunnResult::Error(WireGuardError::Component(4))
    ));
    assert_eq!(names(t.take_timer_events()), Vec::<String>::new());
}

#[test]
fn expired_handshake_clears_timers() {
    let now = Instant::now();
    let mut t = tunnel(now);
    t.set_handshake_status(HandshakeStatus {
        expired: true,
        last_rtt: Some(12),
        ..IDLE
    });
    assert!(t.is_expired());
    assert_eq!(t.handshake().status.last_rtt, Some(12));
    assert!(matches!(t.format_handshake_initiation_at(false, now), Action::Initiate(_)));
    assert_eq!(names(t.take_timer_events()), ["Clear"]);
}

#[test]
fn verification_decides() {
    let now = Instant::now();
    let mut t = tunnel(now);
    let datagram = [1u8; 10];
    let src = Some(IpAddr::V4(Ipv4Addr { octets: [1, 2, 3, 4] }));
    let Action::Verify {
        src_addr,
        datagram: same,
        now: at,
    } = t.decapsulate_at(src, &datagram, READY, now)
    else {
        panic!("not verified")
    };
    assert_eq!((src_addr, same, at), (src, &datagram[..], now));
    assert!(matches!(
        t.datagram_verified(Verification::Rejected(WireGuardError::Component(2)), now),
        Action::Fail(WireGuardError::Component(2))
    ));
    let Action::SendCookie(cookie) = t.datagram_verified(Verification::Cookie(&[7; 64]), now) else {
        panic!("no cookie")
    };
    let mut dst = [0u8; 100];
    let TunnResult::WriteToNetwork(sent) = Tunn::send_cookie(cookie, &mut dst) else {
        panic!("not sent")
    };
    assert_eq!(sent, [7; 64]);
    assert_eq!(dst[64..], [0; 36]);
}

#[test]
fn verified_packets_go_their_ways() {
    let now = Instant::now();
    let t = tunnel(now);
    let mut b = [0u8; 148];
    b[0] = 1;
    let init = Tunn::parse_incoming_packet(&b).unwrap();
    assert!(matches!(t.handle_verified_packet(init, now), Action::ReceiveInit { .. }));
    b[0] = 2;
    let response = Tunn::parse_incoming_packet(&b[..92]).unwrap();
    assert!(matches!(t.handle_verified_packet(response, now), Action::ReceiveResponse { .. }));
    b[0] = 3;
    let reply = Tunn::parse_incoming_packet(&b[..64]).unwrap();
    assert!(matches!(t.handle_verified_packet(reply, now), Action::ReceiveCookieReply { .. }));
    b[0] = 4;
    let data = Tunn::parse_incoming_packet(&b).unwrap();
    assert!(matches!(
        t.handle_verified_packet(data, now),
        Action::Fail(WireGuardError::NoCurrentSession)
    ));
}

#[test]
fn data_goes_to_the_session_it_addresses() {
    let now = Instant::now();
    let mut t = tunnel(now);
    store(&mut t, 0x705, now);
    let packet = PacketData {
        receiver_idx: 0x705,
        counter: 1,
        encrypted_encapsulated_packet: &[0; 16],
    };
    let Action::Open(open) = t.handle_verified_packet(Packet::PacketData(packet), now) else {
        panic!("not opened")
    };
    assert_eq!(open.slot(), 5);
    assert_eq!(open.packet().counter, 1);
    assert_eq!(open.packet().receiver_idx, 0x705);
}

#[test]
fn cookie_reply_ticks_timer() {
    let now = Instant::now();
    let mut t = tunnel(now);
    assert!(matches!(t.handle_cookie_reply(Ok(()), now), TunnResult::Done));
    assert_eq!(names(t.take_timer_events()), ["TimeLastPacketReceived"]);
    assert!(matches!(
        t.handle_cookie_reply(Err(WireGuardError::Component(3)), now),
        TunnResult::Error(WireGuardError::Component(3))
    ));
    assert_eq!(names(t.take_timer_events()), Vec::<String>::new());
}

#[test]
fn responder_waits_for_first_packet() {
    let now = Instant::now();
    let mut t = tunnel(now);
    store(&mut t, 0x701, now);
    assert_eq!(
        names(t.take_timer_events()),
        [
            "TimeLastPacketReceived",
            "TimeLastPacketSent",
            "SessionEstablished(false)"
        ]
    );
    assert_eq!(t.current_slot(), 0);
    assert!(matches!(t.encapsulate_at(&[1], READY, now), Action::Initiate(_)));
    open(&mut t, 0x701, now, Ok(&mut []));
    assert_eq!(t.current_slot(), 1);
    assert!(matches!(t.encapsulate_at(&[1], READY, now), Action::Seal(_)));
}

#[test]
fn failed_handshakes_store_nothing() {
    let now = Instant::now();
    let mut t = tunnel(now);
    let session = Session {
        local_index: 1,
        established_at: now,
    };
    assert!(matches!(
        t.handle_handshake_init(Err(WireGuardError::Component(1)), now),
        TunnResult::Error(WireGuardError::Component(1))
    ));
    assert!(matches!(
        t.handle_handshake_response(Err(WireGuardError::Component(2)), now),
        TunnResult::Error(WireGuardError::Component(2))
    ));
    assert!(matches!(
        t.handle_handshake_response(Ok((session, Err(WireGuardError::Component(3)))), now),
        TunnResult::Error(WireGuardError::Component(3))
    ));
    assert_eq!(t.recent_slots(), Vec::<usize>::new());
    assert_eq!(names(t.take_timer_events()), Vec::<String>::new());
}

#[test]
fn newer_session_stays_current() {
    let now = Instant::now();
    let later = now + Duration::from_secs(1);
    let mut t = tunnel(now);
    store(&mut t, 1, now);
    store(&mut t, 2, later);
    open(&mut t, 1, now, Ok(&mut []));
    assert_eq!(t.current_slot(), 1);
    open(&mut t, 2, later, Ok(&mut []));
    assert_eq!(t.current_slot(), 2);
    open(&mut t, 1, later, Ok(&mut []));
    assert_eq!(t.current_slot(), 2);
    store(&mut t, 3, later);
    open(&mut t, 3, later, Ok(&mut []));
    assert_eq!(t.current_slot(), 3);
}

#[test]
fn eight_sessions_are_kept() {
    let now = Instant::now();
    let mut t = tunnel(now);
    for i in 0x700..0x70a {
        store(&mut t, i, now + Duration::from_secs(i as u64));
        open(&mut t, i as u32, now, Ok(&mut []));
    }
    assert_eq!(t.recent_slots(), [1, 0, 7, 6, 5, 4, 3, 2]);
    for i in 0x702..0x70a {
        assert_eq!(t.session(i % 8).unwrap().local_index, i);
    }
}

#[test]
fn keepalive_is_not_delivered() {
    let now = Instant::now();
    let mut t = tunnel(now);
    store(&mut t, 0, now);
    t.take_timer_events();
    assert!(matches!(open(&mut t, 0, now, Ok(&mut [])), TunnResult::Done));
    assert_eq!(names(t.take_timer_events()), ["TimeLastPacketReceived"]);
    assert_eq!(t.rx_bytes(), 0);
}

#[test]
fn ipv4_packet_is_cut_to_its_length() {
    let now = Instant::now();
    let mut t = tunnel(now);
    store(&mut t, 0, now);
    t.take_timer_events();
    let mut p = ipv4_packet(0x0102, 300);
    let whole = p.clone();
    let TunnResult::WriteToTunnelV4(delivered, addr) = open(&mut t, 0, now, Ok(&mut p))
    else {
        panic!("not delivered")
    };
    assert_eq!(delivered, &whole[..0x0102]);
    assert_eq!(addr, Ipv4Addr { octets: [10, 0, 0, 1] });
    assert_eq!(t.rx_bytes(), 0x0102);
    assert_eq!(
        names(t.take_timer_events()),
        ["TimeLastPacketReceived", "TimeLastDataPacketReceived"]
    );
}

#[test]
fn ipv6_packet_is_cut_to_its_length() {
    let now = Instant::now();
    let mut t = tunnel(now);
    store(&mut t, 0, now);
    let mut p = ipv6_packet(5, 60);
    let whole = p.clone();
    let TunnResult::WriteToTunnelV6(delivered, addr) = open(&mut t, 0, now, Ok(&mut p))
    else {
        panic!("not delivered")
    };
    assert_eq!(delivered, &whole[..45]);
    assert_eq!(addr.octets, [0, 1, 2, 3, 4, 5, 6, 7, 8, 9, 10, 11, 12, 13, 14, 15]);
    assert_eq!(t.rx_bytes(), 45);
}

#[test]
fn malformed_payloads_are_invalid() {
    let now = Instant::now();
    let mut t = tunnel(now);
    store(&mut t, 0, now);
    for mut p in [
        ipv4_packet(21, 20),
        ipv4_packet(20, 20)[..19].to_vec(),
        ipv6_packet(1, 40),
        ipv6_packet(0, 40)[..39].to_vec(),
        vec![0x50; 60],
        vec![0],
    ] {
        assert!(matches!(
            open(&mut t, 0, now, Ok(&mut p)),
            TunnResult::Error(WireGuardError::InvalidPacket)
        ));
    }
    assert_eq!(t.rx_bytes(), 0);
}

#[test]
fn data_that_is_not_opened_changes_nothing() {
    let now = Instant::now();
    let mut t = tunnel(now);
    store(&mut t, 1, now);
    let late = data_for(&t, 1, now);
    t.set_static_private_at([5; 32], [6; 32], None, now);
    assert!(matches!(
        t.data_opened(late, Ok(&mut [])),
        TunnResult::Error(WireGuardError::NoCurrentSession)
    ));
    store(&mut t, 1, now);
    t.take_timer_events();
    assert!(matches!(
        open(&mut t, 1, now, Err(WireGuardError::Component(6))),
        TunnResult::Error(WireGuardError::Component(6))
    ));
    assert_eq!(t.current_slot(), 0);
    assert_eq!(names(t.take_timer_events()), Vec::<String>::new());
}

#[test]
fn events_carry_their_times() {
    let now = Instant::now();
    let mut t = tunnel(now);
    let at = now + Duration::from_secs(5);
    t.handle_cookie_reply(Ok(()), at);
    let events = t.take_timer_events();
    assert!(matches!(
        events[..],
        [TimerEvent::Tick(TimerName::TimeLastPacketReceived, when)] if when == at
    ));
}

#[test]
fn errors_convert_to_results() {
    assert!(matches!(
        TunnResult::from(WireGuardError::InvalidPacket),
        TunnResult::Error(WireGuardError::InvalidPacket)
    ));
}

#[test]
fn neighbouring_tunnels_have_indices_of_their_own() {
    let now = Instant::now();
    let a = Tunn::new_at([1; 32], [2; 32], None, None, 0xff_fffe, None, 3, now);
    let b = Tunn::new_at([1; 32], [2; 32], None, None, 0xff_ffff, None, 3, now);
    assert_eq!(a.handshake().first_index, 0xffff_fe00);
    assert_eq!(b.handshake().first_index, 0xffff_ff00);
    assert!(a.handshake().first_index + 255 < b.handshake().first_index);
}

#[test]
fn unchecked_datagram_changes_nothing() {
    let now = Instant::now();
    let mut t = tunnel(now);
    t.encapsulate_at(&[1], READY, now);
    store(&mut t, 0, now);
    t.take_timer_events();
    assert!(matches!(
        t.decapsulate_at(None, &[4; 50], READY, now),
        Action::Verify { .. }
    ));
    assert_eq!(t.queue_len(), 1);
    assert_eq!(t.current_slot(), 0);
    assert_eq!(names(t.take_timer_events()), Vec::<String>::new());
}

/// An IPv4 header may declare fewer bytes than it has itself.
#[test]
fn declared_length_may_be_short() {
    let now = Instant::now();
    let mut t = tunnel(now);
    store(&mut t, 0, now);
    let mut p = ipv4_packet(0, 20);
    let TunnResult::WriteToTunnelV4(delivered, _) = open(&mut t, 0, now, Ok(&mut p))
    else {
        panic!("not delivered")
    };
    assert!(delivered.is_empty());
    assert_eq!(t.rx_bytes(), 0);
}

#[test]
fn judge_is_asked_for_the_time_of_the_call() {
    let mut t = tunnel(Instant::now());
    let mut judged = None;
    let before = Instant::now();
    let Action::Initiate(initiation) = t.encapsulate(&[1], |now| {
        judged = Some(now);
        READY
    }) else {
        panic!("no initiation")
    };
    assert!(before <= initiation.now() && initiation.now() <= Instant::now());
    assert_eq!(judged, Some(initiation.now()));
}

/// The index that is current already is no error, though no session has it.
#[test]
fn current_index_may_be_selected_again() {
    let mut t = tunnel(Instant::now());
    t.set_current_session(0);
    assert_eq!(t.current_index(), 0);
    assert_eq!(t.recent_slots(), Vec::<usize>::new());
}

#[test]
fn later_session_is_used() {
    let now = Instant::now();
    let mut t = tunnel(now);
    store(&mut t, 0x701, now + Duration::from_secs(2));
    store(&mut t, 0x702, now + Duration::from_secs(1));
    store(&mut t, 0x703, now + Duration::from_secs(2));
    t.set_current_session(0x701);
    assert_eq!(t.current_index(), 0x701);
    t.set_current_session(0x702);
    assert_eq!(t.current_index(), 0x701);
    t.set_current_session(0x703);
    t.set_current_session(0x703);
    assert_eq!(t.current_index(), 0x703);
    assert_eq!(t.session(3).unwrap().slot(), 3);
}

#[test]
fn front_and_back_of_the_queue() {
    let mut t = tunnel(Instant::now());
    assert_eq!(t.dequeue_packet(), None);
    t.queue_packet(&[1]);
    t.queue_packet(&[2]);
    t.requeue_packet(vec![3]);
    assert_eq!(t.dequeue_packet(), Some(vec![3]));
    assert_eq!(t.dequeue_packet(), Some(vec![1]));
    t.requeue_packet(vec![1]);
    assert_eq!(t.dequeue_packet(), Some(vec![1]));
    assert_eq!(t.dequeue_packet(), Some(vec![2]));
    for i in 0..=255 {
        t.queue_packet(&[i]);
    }
    t.queue_packet(&[9, 9]);
    t.requeue_packet(vec![9, 9]);
    assert_eq!(t.queue_len(), 256);
    assert_eq!(t.dequeue_packet(), Some(vec![0]));
}

/// If the queue was full, a packet whose initiation fails is only at its back.
#[test]
fn waiting_packet_has_no_second_place_in_full_queue() {
    let now = Instant::now();
    let mut t = tunnel(now);
    for i in 0..=255 {
        t.queue_packet(&[i]);
    }
    let Action::Initiate(initiation) = t.decapsulate_at(None, &[], READY, now) else {
        panic!("no initiation")
    };
    t.initiation_formatted(initiation, Err(WireGuardError::Component(4)));
    assert_eq!(t.queue_len(), 256);
    for i in (1..=255).chain(0..=0) {
        assert_eq!(t.dequeue_packet(), Some(vec![i]));
    }
}

#[test]
fn delivered_packet_is_delivered_again() {
    let now = Instant::now();
    let mut t = tunnel(now);
    let mut p = ipv4_packet(30, 50);
    let TunnResult::WriteToTunnelV4(once, a) = t.validate_decapsulated_packet(&mut p, now) else {
        panic!("not delivered")
    };
    let first = once.to_vec();
    let TunnResult::WriteToTunnelV4(twice, b) = t.validate_decapsulated_packet(once, now) else {
        panic!("not delivered")
    };
    assert_eq!((first.as_slice(), a), (&*twice, b));
    assert_eq!(t.rx_bytes(), 60);
}

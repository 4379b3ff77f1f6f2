//! Two tunnels that talk to each other. The handshake and the sessions are stand-ins which use the
//! lengths and the headers of the wire format and no cryptography.

use noise::errors::WireGuardError;
use noise::handshake::HandshakeStatus;
use noise::ip::Ipv4Addr;
use noise::model::Readiness;
use noise::packet::Packet;
use noise::session::Session;
use noise::timers::TimerEvent;
use noise::tunn::Action;
use noise::tunn::Tunn;
use noise::tunn::TunnResult;
use noise::tunn::Verification;
use rand::rngs::OsRng;
use rand::RngCore;
use std::time::Duration;
use std::time::Instant;

const SHOULD_NOT_USE_AFTER_TIME: Duration = Duration::from_secs(165);

/// The keys of a stand-in session: whom it talks to, and since when.
#[derive(Clone, Copy)]
struct Keys {
    remote_index: u32,
    established_at: Instant,
}

struct Peer {
    tun: Tunn,
    next_index: u32,
    initiated: Option<u32>,
    sessions: [Option<Keys>; 8],
    is_responder: bool,
    counter: u64,
}

fn write_init(sender: u32, dst: &mut [u8]) -> &mut [u8] {
    dst[..148].fill(0);
    dst[0] = 1;
    dst[4..8].copy_from_slice(&sender.to_le_bytes());
    &mut dst[..148]
}

fn write_response(sender: u32, receiver: u32, dst: &mut [u8]) -> &mut [u8] {
    dst[..92].fill(0);
    dst[0] = 2;
    dst[4..8].copy_from_slice(&sender.to_le_bytes());
    dst[8..12].copy_from_slice(&receiver.to_le_bytes());
    &mut dst[..92]
}

fn write_data<'a>(receiver: u32, counter: u64, src: &[u8], dst: &'a mut [u8]) -> &'a mut [u8] {
    let len = 16 + src.len() + 16;
    dst[..len].fill(0);
    dst[0] = 4;
    dst[4..8].copy_from_slice(&receiver.to_le_bytes());
    dst[8..16].copy_from_slice(&counter.to_le_bytes());
    for (i, b) in src.iter().enumerate() {
        dst[16 + i] = b ^ 0x5a;
    }
    &mut dst[..len]
}

fn read_data<'a>(sealed: &[u8], dst: &'a mut [u8]) -> &'a mut [u8] {
    let len = sealed.len() - 16;
    for i in 0..len {
        dst[i] = sealed[i] ^ 0x5a;
    }
    &mut dst[..len]
}

impl Peer {
    fn new(tun: Tunn) -> Peer {
        let next_index = tun.handshake().first_index;
        Peer {
            tun,
            next_index,
            initiated: None,
            sessions: [None; 8],
            is_responder: false,
            counter: 0,
        }
    }

    fn index(&mut self) -> u32 {
        let index = self.next_index;
        self.next_index = index.wrapping_add(1);
        index
    }

    fn ready(&self, now: Instant) -> Readiness {
        let should_use = match self.sessions[self.tun.current_slot()] {
            Some(keys) => now.duration_since(keys.established_at) < SHOULD_NOT_USE_AFTER_TIME,
            None => false,
        };
        Readiness {
            should_use,
            is_responder: self.is_responder,
        }
    }

    fn sync(&mut self) {
        self.tun.set_handshake_status(HandshakeStatus {
            in_progress: self.initiated.is_some(),
            expired: false,
            last_rtt: None,
        });
        for event in self.tun.take_timer_events() {
            if let TimerEvent::SessionEstablished { is_initiator, .. } = event {
                self.is_responder = !is_initiator;
            }
        }
    }

    fn store(&mut self, local_index: u32, keys: Keys) -> Session {
        self.sessions[local_index as usize % 8] = Some(keys);
        Session {
            local_index: local_index as usize,
            established_at: keys.established_at,
        }
    }

    fn complete<'a>(tun: &mut Peer, action: Action<'_>, dst: &'a mut [u8]) -> TunnResult<'a> {
        let result = match action {
            Action::Done => TunnResult::Done,
            Action::Fail(e) => TunnResult::Error(e),
            Action::Seal(seal) => {
                let keys = tun.sessions[seal.slot()].unwrap();
                tun.counter += 1;
                let data = write_data(keys.remote_index, tun.counter, seal.payload(), dst);
                tun.tun.data_sealed(seal, Ok(data))
            }
            Action::Initiate(initiation) => {
                let index = tun.index();
                tun.initiated = Some(index);
                tun.tun
                    .initiation_formatted(initiation, Ok(write_init(index, dst)))
            }
            Action::Verify { datagram, now, .. } => {
                let verification = match Tunn::parse_incoming_packet(datagram) {
                    Ok(packet) => Verification::Accepted(packet),
                    Err(e) => Verification::Rejected(e),
                };
                let next = tun.tun.datagram_verified(verification, now);
                return Peer::complete(tun, next, dst);
            }
            Action::SendCookie(cookie) => Tunn::send_cookie(cookie, dst),
            Action::ReceiveInit { init, now } => {
                let local_index = tun.index();
                let keys = Keys {
                    remote_index: init.sender_idx,
                    established_at: now,
                };
                let session = tun.store(local_index, keys);
                let response = write_response(local_index, init.sender_idx, dst);
                tun.tun.handle_handshake_init(Ok((response, session)), now)
            }
            Action::ReceiveResponse { response, now } => {
                let received = match tun.initiated.take() {
                    Some(local_index) if local_index == response.receiver_idx => {
                        let keys = Keys {
                            remote_index: response.sender_idx,
                            established_at: now,
                        };
                        let session = tun.store(local_index, keys);
                        Ok((session, Ok(write_data(response.sender_idx, 0, &[], dst))))
                    }
                    _ => Err(WireGuardError::Component(1)),
                };
                tun.tun.handle_handshake_response(received, now)
            }
            Action::ReceiveCookieReply { now, .. } => tun.tun.handle_cookie_reply(Ok(()), now),
            Action::Open(open) => {
                let opened = read_data(open.packet().encrypted_encapsulated_packet, dst);
                tun.tun.data_opened(open, Ok(opened))
            }
        };
        tun.sync();
        result
    }

    fn encapsulate_at<'a>(&mut self, src: &[u8], dst: &'a mut [u8], now: Instant) -> TunnResult<'a> {
        let ready = self.ready(now);
        let action = self.tun.encapsulate_at(src, ready, now);
        Peer::complete(self, action, dst)
    }

    fn decapsulate_at<'a>(
        &mut self,
        datagram: &[u8],
        dst: &'a mut [u8],
        now: Instant,
    ) -> TunnResult<'a> {
        let ready = self.ready(now);
        let action = self.tun.decapsulate_at(None, datagram, ready, now);
        Peer::complete(self, action, dst)
    }

    fn format_handshake_initiation_at<'a>(
        &mut self,
        dst: &'a mut [u8],
        force_resend: bool,
        now: Instant,
    ) -> TunnResult<'a> {
        let action = self.tun.format_handshake_initiation_at(force_resend, now);
        Peer::complete(self, action, dst)
    }
}

fn unwrap_network(result: TunnResult<'_>) -> Vec<u8> {
    match result {
        TunnResult::WriteToNetwork(sent) => sent.to_vec(),
        other => panic!("Expected `WriteToNetwork` but was {:?}", other),
    }
}

fn create_two_tuns(now: Instant) -> (Peer, Peer) {
    let my_secret_key = x25519_dalek::StaticSecret::random_from_rng(OsRng);
    let my_public_key = x25519_dalek::PublicKey::from(&my_secret_key);
    let my_idx = OsRng.next_u32();

    let their_secret_key = x25519_dalek::StaticSecret::random_from_rng(OsRng);
    let their_public_key = x25519_dalek::PublicKey::from(&their_secret_key);
    let their_idx = OsRng.next_u32();

    let my_tun = Tunn::new_at(
        my_secret_key.to_bytes(),
        their_public_key.to_bytes(),
        None,
        None,
        my_idx,
        None,
        rand::random(),
        now,
    );

    let their_tun = Tunn::new_at(
        their_secret_key.to_bytes(),
        my_public_key.to_bytes(),
        None,
        None,
        their_idx,
        None,
        rand::random(),
        now,
    );

    assert_eq!(my_tun.handshake().static_public, my_public_key.to_bytes());
    assert_eq!(their_tun.handshake().static_public, their_public_key.to_bytes());
    assert_eq!(my_tun.handshake().peer_static_public, their_public_key.to_bytes());
    (Peer::new(my_tun), Peer::new(their_tun))
}

fn create_handshake_init(tun: &mut Peer, now: Instant) -> Vec<u8> {
    let mut dst = vec![0u8; 2048];
    unwrap_network(tun.format_handshake_initiation_at(&mut dst, false, now))
}

fn create_handshake_response(tun: &mut Peer, handshake_init: &[u8], now: Instant) -> Vec<u8> {
    let mut dst = vec![0u8; 2048];
    unwrap_network(tun.decapsulate_at(handshake_init, &mut dst, now))
}

fn parse_handshake_resp(tun: &mut Peer, handshake_resp: &[u8], now: Instant) -> Vec<u8> {
    let mut dst = vec![0u8; 2048];
    unwrap_network(tun.decapsulate_at(handshake_resp, &mut dst, now))
}

fn parse_keepalive(tun: &mut Peer, keepalive: &[u8], now: Instant) {
    let mut dst = vec![0u8; 2048];
    let keepalive = tun.decapsulate_at(keepalive, &mut dst, now);
    assert!(matches!(keepalive, TunnResult::Done));
}

fn create_two_tuns_and_handshake(now: Instant) -> (Peer, Peer) {
    let (mut my_tun, mut their_tun) = create_two_tuns(now);
    let init = create_handshake_init(&mut my_tun, now);
    let resp = create_handshake_response(&mut their_tun, &init, now);
    let keepalive = parse_handshake_resp(&mut my_tun, &resp, now);
    parse_keepalive(&mut their_tun, &keepalive, now);

    (my_tun, their_tun)
}

fn create_ipv4_udp_packet() -> Vec<u8> {
    let header =
        etherparse::PacketBuilder::ipv4([192, 168, 1, 2], [192, 168, 1, 3], 5).udp(5678, 23);
    let payload = [0, 1, 2, 3];
    let mut packet = Vec::<u8>::with_capacity(header.size(payload.len()));
    header.write(&mut packet, &payload).unwrap();
    packet
}

#[test]
fn create_two_tunnels_linked_to_eachother() {
    let now = Instant::now();

    let (_my_tun, _their_tun) = create_two_tuns(now);
}

#[test]
fn handshake_init() {
    let now = Instant::now();

    let (mut my_tun, _their_tun) = create_two_tuns(now);
    let init = create_handshake_init(&mut my_tun, now);
    let packet = Tunn::parse_incoming_packet(&init).unwrap();
    assert!(matches!(packet, Packet::HandshakeInit(_)));
}

#[test]
fn handshake_init_and_response() {
    let now = Instant::now();

    let (mut my_tun, mut their_tun) = create_two_tuns(now);
    let init = create_handshake_init(&mut my_tun, now);
    let resp = create_handshake_response(&mut their_tun, &init, now);
    let packet = Tunn::parse_incoming_packet(&resp).unwrap();
    assert!(matches!(packet, Packet::HandshakeResponse(_)));
}

#[test]
fn full_handshake() {
    let now = Instant::now();

    let (mut my_tun, mut their_tun) = create_two_tuns(now);
    let init = create_handshake_init(&mut my_tun, now);
    let resp = create_handshake_response(&mut their_tun, &init, now);
    let keepalive = parse_handshake_resp(&mut my_tun, &resp, now);
    let packet = Tunn::parse_incoming_packet(&keepalive).unwrap();
    assert!(matches!(packet, Packet::PacketData(_)));
}

/// If a tunnel is idle for close to 120s without sending a packet,
/// no new handshake is performed by the initiator.
/// This can lead to a race-condition where the sender sends a packet on an almost expired session
/// and by the time it is received, the session is expired.
#[test]
fn new_handshake_on_packet_for_session_that_is_about_to_expire() {
    let mut now = Instant::now();

    let (mut my_tun, _their_tun) = create_two_tuns_and_handshake(now);
    let mut my_dst = [0u8; 1024];

    now += SHOULD_NOT_USE_AFTER_TIME + Duration::from_secs(1);

    let sent_packet_buf = create_ipv4_udp_packet();
    let data = my_tun.encapsulate_at(&sent_packet_buf, &mut my_dst, now);

    let TunnResult::WriteToNetwork(data) = data else {
        panic!("Expected `WriteToNetwork`")
    };

    assert!(matches!(
        Tunn::parse_incoming_packet(data).unwrap(),
        Packet::HandshakeInit(_)
    ));
}

#[test]
fn responder_can_still_use_almost_expired_session() {
    let mut now = Instant::now();

    let (_initiator_tun, mut resonder_tun) = create_two_tuns_and_handshake(now);
    let mut responder_tun = [0u8; 1024];

    now += SHOULD_NOT_USE_AFTER_TIME + Duration::from_secs(1);

    let sent_packet_buf = create_ipv4_udp_packet();
    let data = resonder_tun.encapsulate_at(&sent_packet_buf, &mut responder_tun, now);

    let TunnResult::WriteToNetwork(data) = data else {
        panic!("Expected `WriteToNetwork`")
    };

    assert!(matches!(
        Tunn::parse_incoming_packet(data).unwrap(),
        Packet::PacketData(_)
    ));
}

#[test]
fn one_ip_packet() {
    let (mut my_tun, mut their_tun) = create_two_tuns_and_handshake(Instant::now());
    let mut my_dst = [0u8; 1024];
    let mut their_dst = [0u8; 1024];

    let sent_packet_buf = create_ipv4_udp_packet();

    let data = my_tun.encapsulate_at(&sent_packet_buf, &mut my_dst, Instant::now());
    let data = unwrap_network(data);

    let data = their_tun.decapsulate_at(&data, &mut their_dst, Instant::now());
    let TunnResult::WriteToTunnelV4(recv_packet_buf, addr) = data else {
        panic!("Expected `WriteToTunnelV4`")
    };
    assert_eq!(sent_packet_buf, recv_packet_buf);
    assert_eq!(addr, Ipv4Addr { octets: [192, 168, 1, 2] });
    assert_eq!(my_tun.tun.tx_bytes(), sent_packet_buf.len());
    assert_eq!(their_tun.tun.rx_bytes(), sent_packet_buf.len());
}

/// Packets that came before there was a session are sent in their order once there is one.
#[test]
fn queued_packets_follow_the_handshake() {
    let now = Instant::now();
    let (mut my_tun, mut their_tun) = create_two_tuns(now);
    let mut dst = [0u8; 1024];

    let init = unwrap_network(my_tun.encapsulate_at(&[1], &mut dst, now));
    assert!(matches!(my_tun.encapsulate_at(&[2, 2], &mut dst, now), TunnResult::Done));
    assert!(matches!(my_tun.encapsulate_at(&[3, 3, 3], &mut dst, now), TunnResult::Done));
    assert_eq!(my_tun.tun.queue_len(), 3);

    let resp = create_handshake_response(&mut their_tun, &init, now);
    let keepalive = parse_handshake_resp(&mut my_tun, &resp, now);
    parse_keepalive(&mut their_tun, &keepalive, now);

    for packet in [&[1u8][..], &[2, 2], &[3, 3, 3]] {
        let data = unwrap_network(my_tun.decapsulate_at(&[], &mut dst, now));
        let Packet::PacketData(data) = Tunn::parse_incoming_packet(&data).unwrap() else {
            panic!("Expected `PacketData`")
        };
        assert_eq!(read_data(data.encrypted_encapsulated_packet, &mut dst), packet);
    }
    assert!(matches!(my_tun.decapsulate_at(&[], &mut dst, now), TunnResult::Done));
    assert_eq!(my_tun.tun.tx_bytes(), 6);
}

/// A datagram that is no message is refused.
#[test]
fn garbage_is_refused() {
    let now = Instant::now();
    let (_my_tun, mut their_tun) = create_two_tuns(now);
    let mut dst = [0u8; 1024];
    assert!(matches!(
        their_tun.decapsulate_at(&[9; 100], &mut dst, now),
        TunnResult::Error(WireGuardError::InvalidPacket)
    ));
}

/// A response to a handshake that was not started is refused by the handshake.
#[test]
fn stray_response_is_refused() {
    let now = Instant::now();
    let (mut my_tun, _their_tun) = create_two_tuns(now);
    let mut resp = [0u8; 92];
    write_response(5, 6, &mut resp);
    let mut dst = [0u8; 1024];
    assert!(matches!(
        my_tun.decapsulate_at(&resp, &mut dst, now),
        TunnResult::Error(WireGuardError::Component(1))
    ));
    assert_eq!(my_tun.tun.recent_slots(), Vec::<usize>::new());
}

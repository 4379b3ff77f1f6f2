//! The messages that two tunnels exchange, and how they are told apart on the wire.
use vstd::prelude::*;

use crate::errors::WireGuardError;

verus! {

pub const HANDSHAKE_INIT: u32 = 1;

pub const HANDSHAKE_RESP: u32 = 2;

pub const COOKIE_REPLY: u32 = 3;

pub const DATA: u32 = 4;

pub const HANDSHAKE_INIT_SZ: usize = 148;

pub const HANDSHAKE_RESP_SZ: usize = 92;

pub const COOKIE_REPLY_SZ: usize = 64;

pub const DATA_OVERHEAD_SZ: usize = 32;

/// The first message of a handshake.
#[derive(Clone, Copy, Debug)]
pub struct HandshakeInit<'a> {
    pub sender_idx: u32,
    pub unencrypted_ephemeral: [u8; 32],
    pub encrypted_static: &'a [u8],
    pub encrypted_timestamp: &'a [u8],
}

/// The answer to a [`HandshakeInit`].
#[derive(Clone, Copy, Debug)]
pub struct HandshakeResponse<'a> {
    pub sender_idx: u32,
    pub receiver_idx: u32,
    pub unencrypted_ephemeral: [u8; 32],
    pub encrypted_nothing: &'a [u8],
}

/// The answer of a peer under load.
#[derive(Clone, Copy, Debug)]
pub struct PacketCookieReply<'a> {
    pub receiver_idx: u32,
    pub nonce: &'a [u8],
    pub encrypted_cookie: &'a [u8],
}

/// A sealed packet of the tunnel interface.
#[derive(Clone, Copy, Debug)]
pub struct PacketData<'a> {
    pub receiver_idx: u32,
    pub counter: u64,
    pub encrypted_encapsulated_packet: &'a [u8],
}

/// Describes a packet from network
#[derive(Clone, Copy, Debug)]
pub enum Packet<'a> {
    HandshakeInit(HandshakeInit<'a>),
    HandshakeResponse(HandshakeResponse<'a>),
    PacketCookieReply(PacketCookieReply<'a>),
    PacketData(PacketData<'a>),
}

/// The model of a [`Packet`]: its fields as numbers and sequences of bytes.
pub enum Message {
    HandshakeInit {
        sender_idx: u32,
        ephemeral: Seq<u8>,
        encrypted_static: Seq<u8>,
        encrypted_timestamp: Seq<u8>,
    },
    HandshakeResponse {
        sender_idx: u32,
        receiver_idx: u32,
        ephemeral: Seq<u8>,
        encrypted_nothing: Seq<u8>,
    },
    CookieReply { receiver_idx: u32, nonce: Seq<u8>, encrypted_cookie: Seq<u8> },
    Data { receiver_idx: u32, counter: u64, sealed: Seq<u8> },
}

impl<'a> View for Packet<'a> {
    type V = Message;

    open spec fn view(&self) -> Message {
        match *self {
            Packet::HandshakeInit(p) => p.message(),
            Packet::HandshakeResponse(p) => p.message(),
            Packet::PacketCookieReply(p) => p.message(),
            Packet::PacketData(p) => p.message(),
        }
    }
}

impl<'a> HandshakeInit<'a> {
    pub open spec fn message(self) -> Message {
        Message::HandshakeInit {
            sender_idx: self.sender_idx,
            ephemeral: self.unencrypted_ephemeral@,
            encrypted_static: self.encrypted_static@,
            encrypted_timestamp: self.encrypted_timestamp@,
        }
    }
}

impl<'a> HandshakeResponse<'a> {
    pub open spec fn message(self) -> Message {
        Message::HandshakeResponse {
            sender_idx: self.sender_idx,
            receiver_idx: self.receiver_idx,
            ephemeral: self.unencrypted_ephemeral@,
            encrypted_nothing: self.encrypted_nothing@,
        }
    }
}

impl<'a> PacketCookieReply<'a> {
    pub open spec fn message(self) -> Message {
        Message::CookieReply {
            receiver_idx: self.receiver_idx,
            nonce: self.nonce@,
            encrypted_cookie: self.encrypted_cookie@,
        }
    }
}

impl<'a> PacketData<'a> {
    pub open spec fn message(self) -> Message {
        Message::Data {
            receiver_idx: self.receiver_idx,
            counter: self.counter,
            sealed: self.encrypted_encapsulated_packet@,
        }
    }
}

/// The four bytes of `b` from `off` on, as a number whose least significant byte comes first.
pub open spec fn le32(b: Seq<u8>, off: int) -> int {
    b[off] + b[off + 1] * 0x100 + b[off + 2] * 0x1_0000 + b[off + 3] * 0x100_0000
}

/// The eight bytes of `b` from `off` on, as a number whose least significant byte comes first.
pub open spec fn le64(b: Seq<u8>, off: int) -> int {
    le32(b, off) + le32(b, off + 4) * 0x1_0000_0000
}

/// The message type of a datagram: its first byte, where the three reserved bytes after it are
/// zero.
pub open spec fn message_type(b: Seq<u8>) -> int {
    le32(b, 0)
}

/// The message that a datagram carries. A handshake message or a cookie reply has one length only;
/// a data message is no shorter than its header and authentication tag.
pub open spec fn parsed(b: Seq<u8>) -> Option<Message> {
    if b.len() < 4 {
        None
    } else if message_type(b) == HANDSHAKE_INIT && b.len() == HANDSHAKE_INIT_SZ {
        Some(
            Message::HandshakeInit {
                sender_idx: le32(b, 4) as u32,
                ephemeral: b.subrange(8, 40),
                encrypted_static: b.subrange(40, 88),
                encrypted_timestamp: b.subrange(88, 116),
            },
        )
    } else if message_type(b) == HANDSHAKE_RESP && b.len() == HANDSHAKE_RESP_SZ {
        Some(
            Message::HandshakeResponse {
                sender_idx: le32(b, 4) as u32,
                receiver_idx: le32(b, 8) as u32,
                ephemeral: b.subrange(12, 44),
                encrypted_nothing: b.subrange(44, 60),
            },
        )
    } else if message_type(b) == COOKIE_REPLY && b.len() == COOKIE_REPLY_SZ {
        Some(
            Message::CookieReply {
                receiver_idx: le32(b, 4) as u32,
                nonce: b.subrange(8, 32),
                encrypted_cookie: b.subrange(32, 64),
            },
        )
    } else if message_type(b) == DATA && b.len() >= DATA_OVERHEAD_SZ {
        Some(
            Message::Data {
                receiver_idx: le32(b, 4) as u32,
                counter: le64(b, 8) as u64,
                sealed: b.subrange(16, b.len() as int),
            },
        )
    } else {
        None
    }
}

/// The bytes of `n`, the least significant first.
pub open spec fn le_bytes(n: u32) -> Seq<u8> {
    seq![
        (n % 0x100) as u8,
        (n / 0x100 % 0x100) as u8,
        (n / 0x1_0000 % 0x100) as u8,
        (n / 0x100_0000) as u8,
    ]
}

/// The fields of `m` have the lengths that they have on the wire.
pub open spec fn has_field_lengths(m: Message) -> bool {
    match m {
        Message::HandshakeInit { ephemeral, encrypted_static, encrypted_timestamp, .. } => {
            &&& ephemeral.len() == 32
            &&& encrypted_static.len() == 48
            &&& encrypted_timestamp.len() == 28
        },
        Message::HandshakeResponse { ephemeral, encrypted_nothing, .. } => {
            &&& ephemeral.len() == 32
            &&& encrypted_nothing.len() == 16
        },
        Message::CookieReply { nonce, encrypted_cookie, .. } => {
            &&& nonce.len() == 24
            &&& encrypted_cookie.len() == 32
        },
        Message::Data { sealed, .. } => sealed.len() >= 16,
    }
}

/// The length of the two authentication codes at the end of a handshake message. They are for the
/// rate limiter, and no part of the [`Message`].
pub open spec fn macs_len(m: Message) -> int {
    if m is HandshakeInit || m is HandshakeResponse {
        32
    } else {
        0
    }
}

/// The datagram that carries `m` and ends in `macs`.
pub open spec fn written(m: Message, macs: Seq<u8>) -> Seq<u8> {
    match m {
        Message::HandshakeInit { sender_idx, ephemeral, encrypted_static, encrypted_timestamp } =>
            le_bytes(HANDSHAKE_INIT) + le_bytes(sender_idx) + ephemeral + encrypted_static
            + encrypted_timestamp + macs,
        Message::HandshakeResponse { sender_idx, receiver_idx, ephemeral, encrypted_nothing } =>
            le_bytes(HANDSHAKE_RESP) + le_bytes(sender_idx) + le_bytes(receiver_idx) + ephemeral
            + encrypted_nothing + macs,
        Message::CookieReply { receiver_idx, nonce, encrypted_cookie } => le_bytes(COOKIE_REPLY)
            + le_bytes(receiver_idx) + nonce + encrypted_cookie + macs,
        Message::Data { receiver_idx, counter, sealed } => le_bytes(DATA) + le_bytes(receiver_idx)
            + le_bytes((counter % 0x1_0000_0000) as u32) + le_bytes(
            (counter / 0x1_0000_0000) as u32,
        ) + sealed + macs,
    }
}

/// Four bytes make up `n` exactly if they are the bytes of `n`.
proof fn lemma_bytes_of(n: u32, b0: u8, b1: u8, b2: u8, b3: u8)
    by (bit_vector)
    ensures
        n == b0 + b1 * 0x100 + b2 * 0x1_0000 + b3 * 0x100_0000 <==> {
            &&& b0 == n % 0x100
            &&& b1 == n / 0x100 % 0x100
            &&& b2 == n / 0x1_0000 % 0x100
            &&& b3 == n / 0x100_0000
        },
{
}

/// [`le_bytes`] and [`le32`] are inverse to each other.
pub proof fn lemma_le32(b: Seq<u8>, off: int, n: u32)
    requires
        0 <= off,
        off + 4 <= b.len(),
    ensures
        0 <= le32(b, off) <= u32::MAX,
        b.subrange(off, off + 4) == le_bytes(n) <==> le32(b, off) == n,
{
    let s = b.subrange(off, off + 4);
    lemma_bytes_of(n, b[off], b[off + 1], b[off + 2], b[off + 3]);
    assert(s[0] == b[off] && s[1] == b[off + 1] && s[2] == b[off + 2] && s[3] == b[off + 3]);
    assert(n / 0x100_0000 < 0x100);
    if le32(b, off) == n {
        assert(s =~= le_bytes(n));
    }
}

/// Reads four bytes, least significant first.
fn read_le32(b: &[u8], off: usize) -> (n: u32)
    requires
        off + 4 <= b.len(),
    ensures
        n == le32(b@, off as int),
{
    b[off] as u32 + b[off + 1] as u32 * 0x100 + b[off + 2] as u32 * 0x1_0000 + b[off + 3] as u32
        * 0x100_0000
}

/// Reads eight bytes, least significant first.
fn read_le64(b: &[u8], off: usize) -> (n: u64)
    requires
        off + 8 <= b.len(),
    ensures
        n == le64(b@, off as int),
{
    read_le32(b, off) as u64 + read_le32(b, off + 4) as u64 * 0x1_0000_0000
}

/// Reads a public key.
fn read_key(b: &[u8], off: usize) -> (key: [u8; 32])
    requires
        off + 32 <= b.len(),
    ensures
        key@ == b@.subrange(off as int, off + 32),
{
    let mut key: [u8; 32] = [0; 32];
    for i in 0..32usize
        invariant
            off + 32 <= b.len(),
            forall|j: int| 0 <= j < i ==> key@[j] == b@[off + j],
    {
        key[i] = b[off + i];
    }
    assert(key@ =~= b@.subrange(off as int, off + 32));
    key
}

/// Tells which message a datagram carries and takes it apart.
pub fn parse(src: &[u8]) -> (r: Result<Packet<'_>, WireGuardError>)
    ensures
        r matches Ok(p) ==> parsed(src@) == Some(p@),
        r matches Err(e) ==> parsed(src@) is None && e == WireGuardError::InvalidPacket,
{
    if src.len() < 4 {
        return Err(WireGuardError::InvalidPacket);
    }
    // Checks the type, as well as the reserved zero fields
    let packet_type: u32 = read_le32(src, 0);
    let len: usize = src.len();
    if packet_type == HANDSHAKE_INIT && len == HANDSHAKE_INIT_SZ {
        Ok(
            Packet::HandshakeInit(
                HandshakeInit {
                    sender_idx: read_le32(src, 4),
                    unencrypted_ephemeral: read_key(src, 8),
                    encrypted_static: &src[40..88],
                    encrypted_timestamp: &src[88..116],
                },
            ),
        )
    } else if packet_type == HANDSHAKE_RESP && len == HANDSHAKE_RESP_SZ {
        Ok(
            Packet::HandshakeResponse(
                HandshakeResponse {
                    sender_idx: read_le32(src, 4),
                    receiver_idx: read_le32(src, 8),
                    unencrypted_ephemeral: read_key(src, 12),
                    encrypted_nothing: &src[44..60],
                },
            ),
        )
    } else if packet_type == COOKIE_REPLY && len == COOKIE_REPLY_SZ {
        Ok(
            Packet::PacketCookieReply(
                PacketCookieReply {
                    receiver_idx: read_le32(src, 4),
                    nonce: &src[8..32],
                    encrypted_cookie: &src[32..64],
                },
            ),
        )
    } else if packet_type == DATA && len >= DATA_OVERHEAD_SZ {
        Ok(
            Packet::PacketData(
                PacketData {
                    receiver_idx: read_le32(src, 4),
                    counter: read_le64(src, 8),
                    encrypted_encapsulated_packet: &src[16..len],
                },
            ),
        )
    } else {
        Err(WireGuardError::InvalidPacket)
    }
}

} // verus!

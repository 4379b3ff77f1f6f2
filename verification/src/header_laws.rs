//! What is read in a datagram and in the header of an IP packet, byte by byte.
use vstd::prelude::*;

use crate::errors::WireGuardError;
use crate::ip;
use crate::ip::Address;
use crate::ip::IpAddr;
use crate::ip::Ipv4Addr;
use crate::ip::Ipv6Addr;
use crate::model;
use crate::model::Outcome;
use crate::packet;
use crate::packet::HandshakeInit;
use crate::packet::HandshakeResponse;
use crate::packet::Message;
use crate::packet::Packet;
use crate::packet::PacketCookieReply;
use crate::packet::PacketData;

verus! {

/// A datagram is a handshake initiation exactly if it has 148 bytes and begins with 1, 0, 0, 0. Every
/// field of the initiation is found at its place, whatever the bytes are.
pub proof fn law_initiation_on_the_wire(b: Seq<u8>)
    ensures
        (packet::parsed(b) matches Some(m) && m is HandshakeInit) <==> {
            &&& b.len() == 148
            &&& b[0] == 1 && b[1] == 0 && b[2] == 0 && b[3] == 0
        },
        packet::parsed(b) matches Some(
            Message::HandshakeInit { sender_idx, ephemeral, encrypted_static, encrypted_timestamp },
        ) ==> {
            &&& sender_idx == b[4] + 256 * b[5] + 65536 * b[6] + 16777216 * b[7]
            &&& ephemeral.len() == 32
            &&& forall|i: int| 0 <= i < 32 ==> #[trigger] ephemeral[i] == b[8 + i]
            &&& encrypted_static.len() == 48
            &&& forall|i: int| 0 <= i < 48 ==> #[trigger] encrypted_static[i] == b[40 + i]
            &&& encrypted_timestamp.len() == 28
            &&& forall|i: int| 0 <= i < 28 ==> #[trigger] encrypted_timestamp[i] == b[88 + i]
        },
{
}

/// A datagram is a handshake response exactly if it has 92 bytes and begins with 2, 0, 0, 0.
pub proof fn law_response_on_the_wire(b: Seq<u8>)
    ensures
        (packet::parsed(b) matches Some(m) && m is HandshakeResponse) <==> {
            &&& b.len() == 92
            &&& b[0] == 2 && b[1] == 0 && b[2] == 0 && b[3] == 0
        },
        packet::parsed(b) matches Some(
            Message::HandshakeResponse { sender_idx, receiver_idx, ephemeral, encrypted_nothing },
        ) ==> {
            &&& sender_idx == b[4] + 256 * b[5] + 65536 * b[6] + 16777216 * b[7]
            &&& receiver_idx == b[8] + 256 * b[9] + 65536 * b[10] + 16777216 * b[11]
            &&& ephemeral.len() == 32
            &&& forall|i: int| 0 <= i < 32 ==> #[trigger] ephemeral[i] == b[12 + i]
            &&& encrypted_nothing.len() == 16
            &&& forall|i: int| 0 <= i < 16 ==> #[trigger] encrypted_nothing[i] == b[44 + i]
        },
{
}

/// A datagram is a cookie reply exactly if it has 64 bytes and begins with 3, 0, 0, 0.
pub proof fn law_cookie_reply_on_the_wire(b: Seq<u8>)
    ensures
        (packet::parsed(b) matches Some(m) && m is CookieReply) <==> {
            &&& b.len() == 64
            &&& b[0] == 3 && b[1] == 0 && b[2] == 0 && b[3] == 0
        },
        packet::parsed(b) matches Some(
            Message::CookieReply { receiver_idx, nonce, encrypted_cookie },
        ) ==> {
            &&& receiver_idx == b[4] + 256 * b[5] + 65536 * b[6] + 16777216 * b[7]
            &&& nonce.len() == 24
            &&& forall|i: int| 0 <= i < 24 ==> #[trigger] nonce[i] == b[8 + i]
            &&& encrypted_cookie.len() == 32
            &&& forall|i: int| 0 <= i < 32 ==> #[trigger] encrypted_cookie[i] == b[32 + i]
        },
{
}

/// A datagram is a data packet exactly if it has at least 32 bytes and begins with 4, 0, 0, 0. What
/// follows its header is sealed, down to the last byte.
pub proof fn law_data_on_the_wire(b: Seq<u8>)
    ensures
        (packet::parsed(b) matches Some(m) && m is Data) <==> {
            &&& b.len() >= 32
            &&& b[0] == 4 && b[1] == 0 && b[2] == 0 && b[3] == 0
        },
        packet::parsed(b) matches Some(Message::Data { receiver_idx, counter, sealed }) ==> {
            &&& receiver_idx == b[4] + 256 * b[5] + 65536 * b[6] + 16777216 * b[7]
            &&& counter == b[8] + 256 * b[9] + 65536 * b[10] + 16777216 * b[11] + 4294967296 * (b[12]
                + 256 * b[13] + 65536 * b[14] + 16777216 * b[15])
            &&& sealed.len() == b.len() - 16
            &&& forall|i: int| 0 <= i < b.len() - 16 ==> #[trigger] sealed[i] == b[16 + i]
        },
{
}

/// A packet that was taken apart holds what the datagram carries, field by field.
pub proof fn law_packets_show_their_fields(
    init: HandshakeInit<'_>,
    response: HandshakeResponse<'_>,
    reply: PacketCookieReply<'_>,
    data: PacketData<'_>,
)
    ensures
        Packet::HandshakeInit(init)@ == (Message::HandshakeInit {
            sender_idx: init.sender_idx,
            ephemeral: init.unencrypted_ephemeral@,
            encrypted_static: init.encrypted_static@,
            encrypted_timestamp: init.encrypted_timestamp@,
        }),
        Packet::HandshakeResponse(response)@ == (Message::HandshakeResponse {
            sender_idx: response.sender_idx,
            receiver_idx: response.receiver_idx,
            ephemeral: response.unencrypted_ephemeral@,
            encrypted_nothing: response.encrypted_nothing@,
        }),
        Packet::PacketCookieReply(reply)@ == (Message::CookieReply {
            receiver_idx: reply.receiver_idx,
            nonce: reply.nonce@,
            encrypted_cookie: reply.encrypted_cookie@,
        }),
        Packet::PacketData(data)@ == (Message::Data {
            receiver_idx: data.receiver_idx,
            counter: data.counter,
            sealed: data.encrypted_encapsulated_packet@,
        }),
        init.message() == Packet::HandshakeInit(init)@,
        response.message() == Packet::HandshakeResponse(response)@,
        reply.message() == Packet::PacketCookieReply(reply)@,
        data.message() == Packet::PacketData(data)@,
{
}

/// An address is its family and its octets.
pub proof fn law_addresses_show_their_octets(v4: Ipv4Addr, v6: Ipv6Addr)
    ensures
        IpAddr::V4(v4)@ == Address::V4(v4.octets@),
        IpAddr::V6(v6)@ == Address::V6(v6.octets@),
{
}

/// A packet has an IPv4 destination exactly if it has 20 bytes or more and its first half-byte is 4;
/// the destination is its bytes 16 to 19. It has an IPv6 destination exactly if it has 40 bytes or
/// more and its first half-byte is 6; the destination is its bytes 24 to 39.
pub proof fn law_destination_byte_by_byte(p: Seq<u8>)
    ensures
        (ip::destination(p) matches Some(a) && a is V4) <==> p.len() >= 20 && 0x40 <= p[0] < 0x50,
        (ip::destination(p) matches Some(a) && a is V6) <==> p.len() >= 40 && 0x60 <= p[0] < 0x70,
        ip::destination(p) matches Some(Address::V4(a)) ==> a == seq![p[16], p[17], p[18], p[19]],
        ip::destination(p) matches Some(Address::V6(a)) ==> {
            &&& a.len() == 16
            &&& forall|i: int| 0 <= i < 16 ==> #[trigger] a[i] == p[24 + i]
        },
{
}

/// A packet has an IPv4 source exactly if it has 20 bytes or more and its first half-byte is 4; the
/// source is its bytes 12 to 15. It has an IPv6 source exactly if it has 40 bytes or more and its
/// first half-byte is 6; the source is its bytes 8 to 23.
pub proof fn law_source_byte_by_byte(p: Seq<u8>)
    ensures
        (ip::source(p) matches Some(a) && a is V4) <==> p.len() >= 20 && 0x40 <= p[0] < 0x50,
        (ip::source(p) matches Some(a) && a is V6) <==> p.len() >= 40 && 0x60 <= p[0] < 0x70,
        ip::source(p) matches Some(Address::V4(a)) ==> a == seq![p[12], p[13], p[14], p[15]],
        ip::source(p) matches Some(Address::V6(a)) ==> {
            &&& a.len() == 16
            &&& forall|i: int| 0 <= i < 16 ==> #[trigger] a[i] == p[8 + i]
        },
{
}

/// The length of an IPv4 packet stands in its bytes 2 and 3, most significant byte first; that of an
/// IPv6 packet, less its header of 40 bytes, in its bytes 4 and 5.
pub proof fn law_declared_length_byte_by_byte(p: Seq<u8>)
    ensures
        p.len() >= 20 && 0x40 <= p[0] < 0x50 ==> ip::declared_len(p) == p[2] * 256 + p[3],
        p.len() >= 40 && 0x60 <= p[0] < 0x70 ==> ip::declared_len(p) == p[4] * 256 + p[5] + 40,
        ip::holds_ip_packet(p) <==> {
            ||| p.len() >= 20 && 0x40 <= p[0] < 0x50 && p[2] * 256 + p[3] <= p.len()
            ||| p.len() >= 40 && 0x60 <= p[0] < 0x70 && p[4] * 256 + p[5] + 40 <= p.len()
        },
{
}

/// The payload of a data packet is delivered exactly if it begins with a whole IP header and is no
/// shorter than that header says. What is delivered are its first bytes, as many as the header says,
/// and the address that the header gives as the source. An empty payload comes to nothing, and any
/// other one is invalid.
pub proof fn law_delivery_byte_by_byte(p: Seq<u8>)
    ensures
        p.len() == 0 <==> model::delivery(p) is Done,
        p.len() >= 20 && 0x40 <= p[0] < 0x50 && p[2] * 256 + p[3] <= p.len() ==> {
            &&& model::delivery(p) matches Outcome::WriteToTunnel(q, a)
            &&& q == p.take(p[2] * 256 + p[3])
            &&& a == Address::V4(seq![p[12], p[13], p[14], p[15]])
        },
        p.len() >= 40 && 0x60 <= p[0] < 0x70 && p[4] * 256 + p[5] + 40 <= p.len() ==> {
            &&& model::delivery(p) matches Outcome::WriteToTunnel(q, a)
            &&& q == p.take(p[4] * 256 + p[5] + 40)
            &&& a == Address::V6(p.subrange(8, 24))
        },
        model::delivery(p) is WriteToTunnel <==> {
            ||| p.len() >= 20 && 0x40 <= p[0] < 0x50 && p[2] * 256 + p[3] <= p.len()
            ||| p.len() >= 40 && 0x60 <= p[0] < 0x70 && p[4] * 256 + p[5] + 40 <= p.len()
        },
        model::delivery(p) matches Outcome::Error(e) ==> e == WireGuardError::InvalidPacket,
        !(model::delivery(p) is WriteToNetwork),
{
    if p.len() >= 20 && 0x40 <= p[0] < 0x50 {
        assert(p.subrange(12, 16) =~= seq![p[12], p[13], p[14], p[15]]);
    }
}

/// A payload of `n` bytes whose IPv4 header says that it has `n` bytes is delivered whole, for every
/// length that a header can name.
pub proof fn law_ipv4_packet_of_any_length_is_delivered_whole(p: Seq<u8>)
    requires
        20 <= p.len() <= 65535,
        0x40 <= p[0] < 0x50,
        p[2] == p.len() / 256,
        p[3] == p.len() % 256,
    ensures
        model::delivery(p) == Outcome::WriteToTunnel(p, Address::V4(seq![p[12], p[13], p[14], p[15]])),
{
    law_delivery_byte_by_byte(p);
    assert(p.take(p.len() as int) =~= p);
}

/// A payload whose IPv6 header says that it has as many bytes as it has is delivered whole, for every
/// length that a header can name.
pub proof fn law_ipv6_packet_of_any_length_is_delivered_whole(p: Seq<u8>)
    requires
        40 <= p.len() <= 65575,
        0x60 <= p[0] < 0x70,
        p[4] == (p.len() - 40) / 256,
        p[5] == (p.len() - 40) % 256,
    ensures
        model::delivery(p) == Outcome::WriteToTunnel(p, Address::V6(p.subrange(8, 24))),
{
    law_delivery_byte_by_byte(p);
    assert(p.take(p.len() as int) =~= p);
}

} // verus!

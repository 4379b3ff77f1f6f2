//! IP addresses, and what the tunnel reads in the header of an IP packet.
use vstd::prelude::*;

verus! {

pub const IPV4_MIN_HEADER_SIZE: usize = 20;

pub const IPV4_LEN_OFF: usize = 2;

pub const IPV4_SRC_IP_OFF: usize = 12;

pub const IPV4_DST_IP_OFF: usize = 16;

pub const IPV4_IP_SZ: usize = 4;

pub const IPV6_MIN_HEADER_SIZE: usize = 40;

pub const IPV6_LEN_OFF: usize = 4;

pub const IPV6_SRC_IP_OFF: usize = 8;

pub const IPV6_DST_IP_OFF: usize = 24;

pub const IPV6_IP_SZ: usize = 16;

/// The address of an IPv4 host, most significant byte first.
#[derive(Clone, Copy, Debug, PartialEq, Eq)]
pub struct Ipv4Addr {
    pub octets: [u8; 4],
}

/// The address of an IPv6 host, most significant byte first.
#[derive(Clone, Copy, Debug, PartialEq, Eq)]
pub struct Ipv6Addr {
    pub octets: [u8; 16],
}

/// The address of a host.
#[derive(Clone, Copy, Debug, PartialEq, Eq)]
pub enum IpAddr {
    V4(Ipv4Addr),
    V6(Ipv6Addr),
}

/// The model of an [`IpAddr`]: its family and its bytes.
pub enum Address {
    V4(Seq<u8>),
    V6(Seq<u8>),
}

impl View for IpAddr {
    type V = Address;

    open spec fn view(&self) -> Address {
        match *self {
            IpAddr::V4(a) => Address::V4(a.octets@),
            IpAddr::V6(a) => Address::V6(a.octets@),
        }
    }
}

/// The IP version that the first byte of `packet` names.
pub open spec fn version(packet: Seq<u8>) -> int {
    packet[0] as int / 16
}

/// `packet` is long enough to hold a minimal IPv4 header and says that it is one.
pub open spec fn is_ipv4(packet: Seq<u8>) -> bool {
    packet.len() >= IPV4_MIN_HEADER_SIZE && version(packet) == 4
}

/// `packet` is long enough to hold an IPv6 header and says that it is one.
pub open spec fn is_ipv6(packet: Seq<u8>) -> bool {
    packet.len() >= IPV6_MIN_HEADER_SIZE && version(packet) == 6
}

/// The `len` bytes of `packet` from `off` on.
pub open spec fn field(packet: Seq<u8>, off: usize, len: usize) -> Seq<u8> {
    packet.subrange(off as int, off + len)
}

/// The two bytes of `packet` from `off` on, as a number in network byte order.
pub open spec fn be16(packet: Seq<u8>, off: usize) -> nat {
    (packet[off as int] * 256 + packet[off + 1]) as nat
}

/// The destination address in the header of `packet`.
pub open spec fn destination(packet: Seq<u8>) -> Option<Address> {
    if is_ipv4(packet) {
        Some(Address::V4(field(packet, IPV4_DST_IP_OFF, IPV4_IP_SZ)))
    } else if is_ipv6(packet) {
        Some(Address::V6(field(packet, IPV6_DST_IP_OFF, IPV6_IP_SZ)))
    } else {
        None
    }
}

/// The source address in the header of `packet`.
pub open spec fn source(packet: Seq<u8>) -> Option<Address> {
    if is_ipv4(packet) {
        Some(Address::V4(field(packet, IPV4_SRC_IP_OFF, IPV4_IP_SZ)))
    } else if is_ipv6(packet) {
        Some(Address::V6(field(packet, IPV6_SRC_IP_OFF, IPV6_IP_SZ)))
    } else {
        None
    }
}

/// The length that the header of an IP packet declares for the whole packet: an IPv4 header counts
/// itself, an IPv6 header does not.
pub open spec fn declared_len(packet: Seq<u8>) -> nat {
    if is_ipv4(packet) {
        be16(packet, IPV4_LEN_OFF)
    } else {
        be16(packet, IPV6_LEN_OFF) + IPV6_MIN_HEADER_SIZE as nat
    }
}

/// `packet` begins with an IP packet that lies in it whole.
pub open spec fn holds_ip_packet(packet: Seq<u8>) -> bool {
    (is_ipv4(packet) || is_ipv6(packet)) && declared_len(packet) <= packet.len()
}

/// The IP packet that `packet` begins with, without what follows it.
pub open spec fn ip_packet(packet: Seq<u8>) -> Seq<u8> {
    packet.subrange(0, declared_len(packet) as int)
}

/// Reads the IP version.
fn read_version(packet: &[u8]) -> (v: u8)
    requires
        packet@.len() > 0,
    ensures
        v == version(packet@),
{
    let first: u8 = packet[0];
    assert(first >> 4 == first / 16) by (bit_vector);
    first >> 4
}

/// Reads a 16-bit number in network byte order.
fn read_be16(packet: &[u8], off: usize) -> (n: usize)
    requires
        off + 2 <= packet.len(),
    ensures
        n == be16(packet@, off),
        n <= 0xffff,
{
    packet[off] as usize * 256 + packet[off + 1] as usize
}

/// Reads an IPv4 address.
fn read_ipv4(packet: &[u8], off: usize) -> (a: Ipv4Addr)
    requires
        off + IPV4_IP_SZ <= packet.len(),
    ensures
        a.octets@ == field(packet@, off, IPV4_IP_SZ),
{
    let octets: [u8; 4] = [packet[off], packet[off + 1], packet[off + 2], packet[off + 3]];
    assert(octets@ =~= field(packet@, off, IPV4_IP_SZ));
    Ipv4Addr { octets }
}

/// Reads an IPv6 address.
fn read_ipv6(packet: &[u8], off: usize) -> (a: Ipv6Addr)
    requires
        off + IPV6_IP_SZ <= packet.len(),
    ensures
        a.octets@ == field(packet@, off, IPV6_IP_SZ),
{
    let mut octets: [u8; 16] = [0; 16];
    for i in 0..16usize
        invariant
            off + IPV6_IP_SZ <= packet.len(),
            forall|j: int| 0 <= j < i ==> octets@[j] == packet@[off + j],
    {
        octets[i] = packet[off + i];
    }
    assert(octets@ =~= field(packet@, off, IPV6_IP_SZ));
    Ipv6Addr { octets }
}

/// Reads the destination address of an IP packet, if it holds a whole header.
pub fn read_destination(packet: &[u8]) -> (a: Option<IpAddr>)
    ensures
        a matches Some(addr) ==> destination(packet@) == Some(addr@),
        a is None <==> destination(packet@) is None,
{
    if packet.is_empty() {
        return None;
    }
    let v: u8 = read_version(packet);
    if v == 4 && packet.len() >= IPV4_MIN_HEADER_SIZE {
        Some(IpAddr::V4(read_ipv4(packet, IPV4_DST_IP_OFF)))
    } else if v == 6 && packet.len() >= IPV6_MIN_HEADER_SIZE {
        Some(IpAddr::V6(read_ipv6(packet, IPV6_DST_IP_OFF)))
    } else {
        None
    }
}

/// Reads the length that the header of an IP packet declares and the source address in it, if
/// `packet` holds a whole header.
pub fn read_length_and_source(packet: &[u8]) -> (r: Option<(usize, IpAddr)>)
    ensures
        r matches Some((len, addr)) ==> len == declared_len(packet@) && source(packet@) == Some(
            addr@,
        ),
        r is None <==> source(packet@) is None,
{
    if packet.is_empty() {
        return None;
    }
    let v: u8 = read_version(packet);
    if v == 4 && packet.len() >= IPV4_MIN_HEADER_SIZE {
        Some((read_be16(packet, IPV4_LEN_OFF), IpAddr::V4(read_ipv4(packet, IPV4_SRC_IP_OFF))))
    } else if v == 6 && packet.len() >= IPV6_MIN_HEADER_SIZE {
        Some(
            (
                read_be16(packet, IPV6_LEN_OFF) + IPV6_MIN_HEADER_SIZE,
                IpAddr::V6(read_ipv6(packet, IPV6_SRC_IP_OFF)),
            ),
        )
    } else {
        None
    }
}

} // verus!

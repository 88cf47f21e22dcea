//! Header fields of captured frames, as pnet reads them, and the text forms of addresses and
//! numbers.

use vstd::prelude::*;

use pnet::packet::arp::ArpPacket;
use pnet::packet::ethernet::EthernetPacket;
use pnet::packet::icmp::echo_reply::EchoReplyPacket;
use pnet::packet::icmp::echo_request::EchoRequestPacket;
use pnet::packet::icmp::IcmpPacket;
use pnet::packet::icmpv6::Icmpv6Packet;
use pnet::packet::ipv4::Ipv4Packet;
use pnet::packet::ipv6::Ipv6Packet;
use pnet::packet::tcp::TcpPacket;
use pnet::packet::udp::UdpPacket;
use pnet::packet::Packet;

verus! {

/// The big-endian 16-bit number in `b` at `i..i + 2`.
pub open spec fn be16(b: Seq<u8>, i: int) -> u16 {
    (b[i] as int * 256 + b[i + 1] as int) as u16
}

/// `b[start..end]` with `end` cut to the length of `b`; empty where `b` ends by `start`.
pub open spec fn window(b: Seq<u8>, start: int, end: int) -> Seq<u8> {
    if b.len() <= start {
        Seq::empty()
    } else if end < b.len() {
        b.subrange(start, end)
    } else {
        b.subrange(start, b.len() as int)
    }
}

/// Where an IPv4 header of `b` ends: twenty bytes, or the header length field in words if
/// that says more.
pub open spec fn ipv4_header_end(b: Seq<u8>) -> int {
    let words = b[0] as int % 16;
    if words * 4 > 20 {
        words * 4
    } else {
        20
    }
}

/// The payload of the IPv4 packet `b`: after the header, as long as the total length field
/// allows.
pub open spec fn ipv4_payload(b: Seq<u8>) -> Seq<u8> {
    let start = ipv4_header_end(b);
    let header = (b[0] as int % 16) * 4;
    let total = be16(b, 2) as int;
    let len = if total > header {
        total - header
    } else {
        0
    };
    window(b, start, start + len)
}

/// The payload of the TCP segment `b`: after the header, whose length the data offset gives
/// in words, to the end.
pub open spec fn tcp_payload(b: Seq<u8>) -> Seq<u8> {
    let words = b[12] as int / 16;
    let start = if words > 5 {
        words * 4
    } else {
        20
    };
    window(b, start, b.len() as int)
}

/// The fields of an Ethernet frame that dissection reads.
pub struct EthernetFields {
    pub destination: Vec<u8>,
    pub source: Vec<u8>,
    pub ethertype: u16,
    pub payload: Vec<u8>,
}

/// Relies on pnet's EthernetPacket: a frame of at least 14 bytes, with the destination and
/// source addresses, the big-endian ether-type and the payload in turn.
#[verifier::external_body]
pub(crate) fn ethernet_fields(b: &[u8]) -> (r: Option<EthernetFields>)
    ensures
        r is Some <==> b@.len() >= 14,
        r is Some ==> {
            &&& r->0.destination@ == b@.subrange(0, 6)
            &&& r->0.source@ == b@.subrange(6, 12)
            &&& r->0.ethertype == be16(b@, 12)
            &&& r->0.payload@ == b@.subrange(14, b@.len() as int)
        },
{
    match EthernetPacket::new(b) {
        Some(p) => Some(EthernetFields {
            destination: p.get_destination().octets().to_vec(),
            source: p.get_source().octets().to_vec(),
            ethertype: p.get_ethertype().0,
            payload: p.payload().to_vec(),
        }),
        None => None,
    }
}

/// The fields of an IP header that dissection reads.
pub struct IpFields {
    pub source: Vec<u8>,
    pub destination: Vec<u8>,
    pub protocol: u8,
    pub payload: Vec<u8>,
}

/// Relies on pnet's Ipv4Packet: a header of at least 20 bytes, with the protocol at byte 9,
/// the addresses at 12 and 16, and the payload as `ipv4_payload` cuts it.
#[verifier::external_body]
pub(crate) fn ipv4_fields(b: &[u8]) -> (r: Option<IpFields>)
    ensures
        r is Some <==> b@.len() >= 20,
        r is Some ==> {
            &&& r->0.protocol == b@[9]
            &&& r->0.source@ == b@.subrange(12, 16)
            &&& r->0.destination@ == b@.subrange(16, 20)
            &&& r->0.payload@ == ipv4_payload(b@)
        },
{
    match Ipv4Packet::new(b) {
        Some(p) => Some(IpFields {
            source: p.get_source().octets().to_vec(),
            destination: p.get_destination().octets().to_vec(),
            protocol: p.get_next_level_protocol().0,
            payload: p.payload().to_vec(),
        }),
        None => None,
    }
}

/// Relies on pnet's Ipv6Packet: a header of 40 bytes, with the next header at byte 6, the
/// addresses at 8 and 24, and as much payload as the payload length field gives.
#[verifier::external_body]
pub(crate) fn ipv6_fields(b: &[u8]) -> (r: Option<IpFields>)
    ensures
        r is Some <==> b@.len() >= 40,
        r is Some ==> {
            &&& r->0.protocol == b@[6]
            &&& r->0.source@ == b@.subrange(8, 24)
            &&& r->0.destination@ == b@.subrange(24, 40)
            &&& r->0.payload@ == window(b@, 40, 40 + be16(b@, 4))
        },
{
    match Ipv6Packet::new(b) {
        Some(p) => Some(IpFields {
            source: p.get_source().octets().to_vec(),
            destination: p.get_destination().octets().to_vec(),
            protocol: p.get_next_header().0,
            payload: p.payload().to_vec(),
        }),
        None => None,
    }
}

/// The fields of an ARP packet that dissection reads.
pub struct ArpFields {
    pub operation: u16,
    pub sender_proto: Vec<u8>,
    pub target_proto: Vec<u8>,
}

/// Relies on pnet's ArpPacket: a packet of at least 28 bytes, with the operation at byte 6
/// and the sender and target protocol addresses at 14 and 24.
#[verifier::external_body]
pub(crate) fn arp_fields(b: &[u8]) -> (r: Option<ArpFields>)
    ensures
        r is Some <==> b@.len() >= 28,
        r is Some ==> {
            &&& r->0.operation == be16(b@, 6)
            &&& r->0.sender_proto@ == b@.subrange(14, 18)
            &&& r->0.target_proto@ == b@.subrange(24, 28)
        },
{
    match ArpPacket::new(b) {
        Some(p) => Some(ArpFields {
            operation: p.get_operation().0,
            sender_proto: p.get_sender_proto_addr().octets().to_vec(),
            target_proto: p.get_target_proto_addr().octets().to_vec(),
        }),
        None => None,
    }
}

/// The fields of a UDP or TCP segment that dissection reads.
pub struct PortFields {
    pub source_port: u16,
    pub dest_port: u16,
    pub payload: Vec<u8>,
}

/// The fields of a UDP datagram that dissection reads.
pub struct UdpFields {
    pub ports: PortFields,
    pub length: u16,
}

/// Relies on pnet's UdpPacket: a datagram of at least 8 bytes, with the ports, the length
/// field, and the payload after byte 8.
#[verifier::external_body]
pub(crate) fn udp_fields(b: &[u8]) -> (r: Option<UdpFields>)
    ensures
        r is Some <==> b@.len() >= 8,
        r is Some ==> {
            &&& r->0.ports.source_port == be16(b@, 0)
            &&& r->0.ports.dest_port == be16(b@, 2)
            &&& r->0.ports.payload@ == b@.subrange(8, b@.len() as int)
            &&& r->0.length == be16(b@, 4)
        },
{
    match UdpPacket::new(b) {
        Some(p) => Some(UdpFields {
            ports: PortFields {
                source_port: p.get_source(),
                dest_port: p.get_destination(),
                payload: p.payload().to_vec(),
            },
            length: p.get_length(),
        }),
        None => None,
    }
}

/// Relies on pnet's TcpPacket: a segment of at least 20 bytes, with the ports first and the
/// payload as `tcp_payload` cuts it.
#[verifier::external_body]
pub(crate) fn tcp_fields(b: &[u8]) -> (r: Option<PortFields>)
    ensures
        r is Some <==> b@.len() >= 20,
        r is Some ==> {
            &&& r->0.source_port == be16(b@, 0)
            &&& r->0.dest_port == be16(b@, 2)
            &&& r->0.payload@ == tcp_payload(b@)
        },
{
    match TcpPacket::new(b) {
        Some(p) => Some(PortFields {
            source_port: p.get_source(),
            dest_port: p.get_destination(),
            payload: p.payload().to_vec(),
        }),
        None => None,
    }
}

/// Relies on pnet's IcmpPacket: a message of at least 4 bytes, its type at byte 0.
#[verifier::external_body]
pub(crate) fn icmp_type(b: &[u8]) -> (r: Option<u8>)
    ensures
        r is Some <==> b@.len() >= 4,
        r is Some ==> r->0 == b@[0],
{
    match IcmpPacket::new(b) {
        Some(p) => Some(p.get_icmp_type().0),
        None => None,
    }
}

/// Relies on pnet's EchoReplyPacket: a message of at least 8 bytes, with the identifier at
/// byte 4 and the sequence number at 6.
#[verifier::external_body]
pub(crate) fn echo_reply_fields(b: &[u8]) -> (r: Option<(u16, u16)>)
    ensures
        r is Some <==> b@.len() >= 8,
        r is Some ==> r->0 == (be16(b@, 4), be16(b@, 6)),
{
    match EchoReplyPacket::new(b) {
        Some(p) => Some((p.get_identifier(), p.get_sequence_number())),
        None => None,
    }
}

/// Relies on pnet's EchoRequestPacket: a message of at least 8 bytes, with the identifier
/// at byte 4 and the sequence number at 6.
#[verifier::external_body]
pub(crate) fn echo_request_fields(b: &[u8]) -> (r: Option<(u16, u16)>)
    ensures
        r is Some <==> b@.len() >= 8,
        r is Some ==> r->0 == (be16(b@, 4), be16(b@, 6)),
{
    match EchoRequestPacket::new(b) {
        Some(p) => Some((p.get_identifier(), p.get_sequence_number())),
        None => None,
    }
}

/// Relies on pnet's Icmpv6Packet: a message of at least 4 bytes, its type at byte 0.
#[verifier::external_body]
pub(crate) fn icmpv6_type(b: &[u8]) -> (r: Option<u8>)
    ensures
        r is Some <==> b@.len() >= 4,
        r is Some ==> r->0 == b@[0],
{
    match Icmpv6Packet::new(b) {
        Some(p) => Some(p.get_icmpv6_type().0),
        None => None,
    }
}

/// The decimal digit for `d < 10`.
pub open spec fn digit_char(d: nat) -> char {
    ('0' as nat + d) as char
}

/// `n` in decimal, without leading zeros.
pub open spec fn decimal(n: nat) -> Seq<char>
    decreases n,
{
    if n < 10 {
        seq![digit_char(n)]
    } else {
        decimal(n / 10) + seq![digit_char(n % 10)]
    }
}

/// Relies on the `Display` of `u64`: decimal digits without leading zeros.
#[verifier::external_body]
pub(crate) fn decimal_text(n: u64) -> (r: String)
    ensures
        r@ == decimal(n as nat),
{
    n.to_string()
}

/// The dotted-decimal text of the four bytes of `a`.
pub open spec fn dotted_quad(a: Seq<u8>) -> Seq<char> {
    decimal(a[0] as nat) + seq!['.'] + decimal(a[1] as nat) + seq!['.'] + decimal(a[2] as nat)
        + seq!['.'] + decimal(a[3] as nat)
}

/// Relies on the `Display` of `core::net::Ipv4Addr`: the four bytes in decimal, dot-separated.
#[verifier::external_body]
pub(crate) fn ipv4_text(a: &[u8]) -> (r: String)
    requires
        a@.len() == 4,
    ensures
        r@ == dotted_quad(a@),
{
    core::net::Ipv4Addr::new(a[0], a[1], a[2], a[3]).to_string()
}

/// The text that std writes for the IPv6 address with the sixteen bytes `a`.
pub uninterp spec fn ipv6_addr_text(a: Seq<u8>) -> Seq<char>;

/// Relies on the `Display` of `core::net::Ipv6Addr` (RFC 5952 form).
#[verifier::external_body]
pub(crate) fn ipv6_text(a: &[u8]) -> (r: String)
    requires
        a@.len() == 16,
    ensures
        r@ == ipv6_addr_text(a@),
{
    let mut o = [0u8; 16];
    o.copy_from_slice(a);
    core::net::Ipv6Addr::from(o).to_string()
}

/// The lower-case hexadecimal digit for `d < 16`.
pub open spec fn hex_char(d: nat) -> char {
    if d < 10 {
        ('0' as nat + d) as char
    } else {
        ('a' as nat + (d - 10)) as char
    }
}

/// `b` as two lower-case hexadecimal digits.
pub open spec fn hex_pair(b: u8) -> Seq<char> {
    seq![hex_char(b as nat / 16), hex_char(b as nat % 16)]
}

/// The colon-separated hexadecimal text of the six bytes of `a`.
pub open spec fn mac_addr_text(a: Seq<u8>) -> Seq<char> {
    hex_pair(a[0]) + seq![':'] + hex_pair(a[1]) + seq![':'] + hex_pair(a[2]) + seq![':']
        + hex_pair(a[3]) + seq![':'] + hex_pair(a[4]) + seq![':'] + hex_pair(a[5])
}

/// Relies on the `Display` of pnet's MacAddr: six two-digit lower-case hexadecimal bytes,
/// colon-separated.
#[verifier::external_body]
pub(crate) fn mac_text(a: &[u8]) -> (r: String)
    requires
        a@.len() == 6,
    ensures
        r@ == mac_addr_text(a@),
{
    pnet::util::MacAddr::new(a[0], a[1], a[2], a[3], a[4], a[5]).to_string()
}

/// The text that `String::from_utf8_lossy` makes of `b`.
pub uninterp spec fn lossy_utf8(b: Seq<u8>) -> Seq<char>;

/// Relies on `String::from_utf8_lossy`: `b` as text, with each invalid sequence replaced.
#[verifier::external_body]
pub(crate) fn lossy_text(b: &[u8]) -> (r: String)
    ensures
        r@ == lossy_utf8(b@),
{
    String::from_utf8_lossy(b).into_owned()
}

} // verus!

//! The protocol dissector: Ethernet, then IPv4, IPv6 or ARP, then UDP, TCP, ICMP or ICMPv6.
//! Each transport handler forms the flow, asks the filter set, and only on a match builds the
//! event. Frames too short for their headers give no event.

use vstd::prelude::*;

use crate::config::{any_match, lemma_search_finds, search_result, Config};
use crate::filters::Filter;
use crate::gmcp::{append_escaped, escaped, EventData};
use crate::wire::{
    arp_fields, be16, decimal, decimal_text, dotted_quad, echo_reply_fields, echo_request_fields,
    ethernet_fields, icmp_type, icmpv6_type, ipv4_fields, ipv4_payload, ipv4_text, ipv6_addr_text,
    ipv6_fields, ipv6_text, lossy_text, lossy_utf8, mac_addr_text, mac_text, tcp_fields,
    tcp_payload, udp_fields, window,
};

verus! {

/// Ether-type of IPv4.
pub const ETHERTYPE_IPV4: u16 = 0x0800;

/// Ether-type of IPv6.
pub const ETHERTYPE_IPV6: u16 = 0x86DD;

/// Ether-type of ARP.
pub const ETHERTYPE_ARP: u16 = 0x0806;

/// IP protocol number of ICMP.
pub const PROTOCOL_ICMP: u8 = 1;

/// IP protocol number of TCP.
pub const PROTOCOL_TCP: u8 = 6;

/// IP protocol number of UDP.
pub const PROTOCOL_UDP: u8 = 17;

/// IP protocol number of ICMPv6.
pub const PROTOCOL_ICMPV6: u8 = 58;

/// ICMP type of an echo reply.
pub const ICMP_ECHO_REPLY: u8 = 0;

/// ICMP type of an echo request.
pub const ICMP_ECHO_REQUEST: u8 = 8;

/// The fields of one frame that the filters see.
pub struct Flow {
    pub source_ip: Seq<char>,
    pub source_port: u16,
    pub dest_ip: Seq<char>,
    pub dest_port: u16,
    pub size: u64,
    pub payload: Seq<char>,
}

/// Some filter of `filters` matches `f`.
pub open spec fn flow_matches(filters: Seq<Filter>, f: Flow) -> bool {
    any_match(filters, f.source_ip, f.source_port, f.dest_ip, f.dest_port, f.size, f.payload)
}

/// The JSON member `"k": "v"`.
pub open spec fn str_member(k: Seq<char>, v: Seq<char>) -> Seq<char> {
    "\""@ + k + "\": \""@ + v + "\""@
}

/// The JSON member `"k": n`.
pub open spec fn num_member(k: Seq<char>, n: nat) -> Seq<char> {
    "\""@ + k + "\": "@ + decimal(n)
}

/// A flow with addresses only: no ports, no size, no payload.
pub open spec fn address_flow(src: Seq<char>, dst: Seq<char>) -> Flow {
    Flow {
        source_ip: src,
        source_port: 0,
        dest_ip: dst,
        dest_port: 0,
        size: 0,
        payload: ""@,
    }
}

/// The flow of the UDP datagram `b`; its size is the datagram's length field.
pub open spec fn udp_flow(src: Seq<char>, dst: Seq<char>, b: Seq<u8>) -> Flow {
    Flow {
        source_ip: src,
        source_port: be16(b, 0),
        dest_ip: dst,
        dest_port: be16(b, 2),
        size: be16(b, 4) as u64,
        payload: lossy_utf8(b.subrange(8, b.len() as int)),
    }
}

/// The flow of the TCP segment `b`; its size is the segment's length.
pub open spec fn tcp_flow(src: Seq<char>, dst: Seq<char>, b: Seq<u8>) -> Flow {
    Flow {
        source_ip: src,
        source_port: be16(b, 0),
        dest_ip: dst,
        dest_port: be16(b, 2),
        size: b.len() as u64,
        payload: lossy_utf8(tcp_payload(b)),
    }
}

/// The event text of a flow with ports.
pub open spec fn ports_text(ifn: Seq<char>, f: Flow) -> Seq<char> {
    "{"@ + str_member("interfaceName"@, ifn) + ", "@ + str_member("sourceIp"@, f.source_ip)
        + ", "@ + num_member("sourcePort"@, f.source_port as nat) + ", "@ + str_member(
        "destIp"@,
        f.dest_ip,
    ) + ", "@ + num_member("destPort"@, f.dest_port as nat) + ", "@ + num_member(
        "size"@,
        f.size as nat,
    ) + ", "@ + str_member("payload"@, escaped(f.payload)) + "}"@
}

/// The event text of an ICMP echo message with sequence number `seq` and identifier `id`.
pub open spec fn echo_text(
    ifn: Seq<char>,
    src: Seq<char>,
    dst: Seq<char>,
    seq: u16,
    id: u16,
) -> Seq<char> {
    "{"@ + str_member("interfaceName"@, ifn) + ", "@ + str_member("sourceIp"@, src) + ", "@
        + str_member("destIp"@, dst) + ", "@ + str_member("seqNumber"@, decimal(seq as nat))
        + ", "@ + str_member("identifier"@, decimal(id as nat)) + "}"@
}

/// The event text of an ICMPv6 message of type `t`.
pub open spec fn icmpv6_text(ifn: Seq<char>, src: Seq<char>, dst: Seq<char>, t: u8) -> Seq<char> {
    "{"@ + str_member("interfaceName"@, ifn) + ", "@ + str_member("sourceIp"@, src) + ", "@
        + str_member("destIp"@, dst) + ", "@ + str_member(
        "type"@,
        "(type=Icmpv6Type("@ + decimal(t as nat) + "))"@,
    ) + "}"@
}

/// The event text of the ARP packet `a` carried between the hardware addresses `src` and
/// `dst`.
pub open spec fn arp_text(ifn: Seq<char>, src: Seq<char>, dst: Seq<char>, a: Seq<u8>) -> Seq<
    char,
> {
    "{"@ + str_member("interfaceName"@, ifn) + ", "@ + str_member("sourceIp"@, src) + ", "@
        + str_member("senderProto"@, dotted_quad(a.subrange(14, 18))) + ", "@ + str_member(
        "destIp"@,
        dst,
    ) + ", "@ + str_member("destProto"@, dotted_quad(a.subrange(24, 28))) + ", "@ + num_member(
        "operation"@,
        be16(a, 6) as nat,
    ) + "}"@
}

/// The event (kind, text) of the UDP datagram `b`, where it is whole and some filter matches.
pub open spec fn udp_event(
    ifn: Seq<char>,
    src: Seq<char>,
    dst: Seq<char>,
    b: Seq<u8>,
    filters: Seq<Filter>,
) -> Option<(Seq<char>, Seq<char>)> {
    if b.len() >= 8 && flow_matches(filters, udp_flow(src, dst, b)) {
        Some(("udp"@, ports_text(ifn, udp_flow(src, dst, b))))
    } else {
        None
    }
}

/// The event of the TCP segment `b`, where it is whole and some filter matches.
pub open spec fn tcp_event(
    ifn: Seq<char>,
    src: Seq<char>,
    dst: Seq<char>,
    b: Seq<u8>,
    filters: Seq<Filter>,
) -> Option<(Seq<char>, Seq<char>)> {
    if b.len() >= 20 && flow_matches(filters, tcp_flow(src, dst, b)) {
        Some(("tcp"@, ports_text(ifn, tcp_flow(src, dst, b))))
    } else {
        None
    }
}

/// The event of the ICMP message `b`: only echo replies and requests give one, where some
/// filter matches the addresses.
pub open spec fn icmp_event(
    ifn: Seq<char>,
    src: Seq<char>,
    dst: Seq<char>,
    b: Seq<u8>,
    filters: Seq<Filter>,
) -> Option<(Seq<char>, Seq<char>)> {
    if b.len() >= 4 && flow_matches(filters, address_flow(src, dst)) {
        if b[0] == ICMP_ECHO_REPLY && b.len() >= 8 {
            Some(("echoReply"@, echo_text(ifn, src, dst, be16(b, 6), be16(b, 4))))
        } else if b[0] == ICMP_ECHO_REQUEST && b.len() >= 8 {
            Some(("echoRequest"@, echo_text(ifn, src, dst, be16(b, 6), be16(b, 4))))
        } else {
            None
        }
    } else {
        None
    }
}

/// The event of the ICMPv6 message `b`, where some filter matches the addresses.
pub open spec fn icmpv6_event(
    ifn: Seq<char>,
    src: Seq<char>,
    dst: Seq<char>,
    b: Seq<u8>,
    filters: Seq<Filter>,
) -> Option<(Seq<char>, Seq<char>)> {
    if b.len() >= 4 && flow_matches(filters, address_flow(src, dst)) {
        Some(("icmpv6"@, icmpv6_text(ifn, src, dst, b[0])))
    } else {
        None
    }
}

/// The event of the transport payload `b` of protocol `protocol`.
pub open spec fn transport_event(
    ifn: Seq<char>,
    src: Seq<char>,
    dst: Seq<char>,
    protocol: u8,
    b: Seq<u8>,
    filters: Seq<Filter>,
) -> Option<(Seq<char>, Seq<char>)> {
    if protocol == PROTOCOL_UDP {
        udp_event(ifn, src, dst, b, filters)
    } else if protocol == PROTOCOL_TCP {
        tcp_event(ifn, src, dst, b, filters)
    } else if protocol == PROTOCOL_ICMP {
        icmp_event(ifn, src, dst, b, filters)
    } else if protocol == PROTOCOL_ICMPV6 {
        icmpv6_event(ifn, src, dst, b, filters)
    } else {
        None
    }
}

/// The event of the IPv4 packet `p`.
pub open spec fn ipv4_event(ifn: Seq<char>, p: Seq<u8>, filters: Seq<Filter>) -> Option<
    (Seq<char>, Seq<char>),
> {
    if p.len() >= 20 {
        transport_event(
            ifn,
            dotted_quad(p.subrange(12, 16)),
            dotted_quad(p.subrange(16, 20)),
            p[9],
            ipv4_payload(p),
            filters,
        )
    } else {
        None
    }
}

/// The event of the IPv6 packet `p`.
pub open spec fn ipv6_event(ifn: Seq<char>, p: Seq<u8>, filters: Seq<Filter>) -> Option<
    (Seq<char>, Seq<char>),
> {
    if p.len() >= 40 {
        transport_event(
            ifn,
            ipv6_addr_text(p.subrange(8, 24)),
            ipv6_addr_text(p.subrange(24, 40)),
            p[6],
            window(p, 40, 40 + be16(p, 4)),
            filters,
        )
    } else {
        None
    }
}

/// The event of the ARP packet `a`, carried between the hardware addresses with texts `src`
/// and `dst`, which stand for the flow's addresses.
pub open spec fn arp_event(
    ifn: Seq<char>,
    src: Seq<char>,
    dst: Seq<char>,
    a: Seq<u8>,
    filters: Seq<Filter>,
) -> Option<(Seq<char>, Seq<char>)> {
    if a.len() >= 28 && flow_matches(filters, address_flow(src, dst)) {
        Some(("arp"@, arp_text(ifn, src, dst, a)))
    } else {
        None
    }
}

/// The event of the Ethernet frame `e`, seen on interface `ifn`, against `filters`.
pub open spec fn frame_event(ifn: Seq<char>, e: Seq<u8>, filters: Seq<Filter>) -> Option<
    (Seq<char>, Seq<char>),
> {
    if e.len() >= 14 {
        let t = be16(e, 12);
        let p = e.subrange(14, e.len() as int);
        if t == ETHERTYPE_IPV4 {
            ipv4_event(ifn, p, filters)
        } else if t == ETHERTYPE_IPV6 {
            ipv6_event(ifn, p, filters)
        } else if t == ETHERTYPE_ARP {
            arp_event(
                ifn,
                mac_addr_text(e.subrange(6, 12)),
                mac_addr_text(e.subrange(0, 6)),
                p,
                filters,
            )
        } else {
            None
        }
    } else {
        None
    }
}

/// Which filters a dissection step may have evaluated: none where it forms no flow; where it
/// forms `flow`, a filter is evaluated only if every filter before it fails to match the flow,
/// so filters after the first match are left as they were.
pub open spec fn searched(before: Seq<Filter>, after: Seq<Filter>, flow: Option<Flow>) -> bool {
    match flow {
        None => after == before,
        Some(f) => {
            &&& after.len() == before.len()
            &&& forall|i: int|
                0 <= i < before.len() && #[trigger] after[i] != before[i] ==> forall|j: int|
                    0 <= j < i ==> !(#[trigger] before[j]).matches(
                        f.source_ip,
                        f.source_port,
                        f.dest_ip,
                        f.dest_port,
                        f.size,
                        f.payload,
                    )
        },
    }
}

/// A first-match search for `f` evaluates only the filters that `searched` allows.
proof fn lemma_search_is_searched(
    before: Seq<Filter>,
    after: Seq<Filter>,
    k: Option<usize>,
    f: Flow,
)
    requires
        after.len() == before.len(),
        search_result(
            before,
            after,
            k,
            f.source_ip,
            f.source_port,
            f.dest_ip,
            f.dest_port,
            f.size,
            f.payload,
        ),
    ensures
        searched(before, after, Some(f)),
{
    assert forall|i: int| 0 <= i < before.len() && #[trigger] after[i] != before[i] implies forall|
        j: int,
    |
        0 <= j < i ==> !(#[trigger] before[j]).matches(
            f.source_ip,
            f.source_port,
            f.dest_ip,
            f.dest_port,
            f.size,
            f.payload,
        ) by {
        if k is Some {
            assert(i <= k->0);
        }
    }
}

/// When a dissection step has searched the filters for `f` and the filter at `m` matches
/// `f`, every filter after `m` is left as it was: a broad filter placed before a narrow one
/// decides, and the narrow one is not evaluated.
pub proof fn lemma_later_filters_untouched(
    before: Seq<Filter>,
    after: Seq<Filter>,
    f: Flow,
    m: int,
    i: int,
)
    requires
        searched(before, after, Some(f)),
        0 <= m < i < before.len(),
        before[m].matches(f.source_ip, f.source_port, f.dest_ip, f.dest_port, f.size, f.payload),
    ensures
        after[i] == before[i],
{
    if after[i] != before[i] {
        assert(!before[m].matches(
            f.source_ip,
            f.source_port,
            f.dest_ip,
            f.dest_port,
            f.size,
            f.payload,
        ));
    }
}

/// The flow of the UDP datagram `b`, where its header is whole.
pub open spec fn udp_flow_of(src: Seq<char>, dst: Seq<char>, b: Seq<u8>) -> Option<Flow> {
    if b.len() >= 8 {
        Some(udp_flow(src, dst, b))
    } else {
        None
    }
}

/// The flow of the TCP segment `b`, where its header is whole.
pub open spec fn tcp_flow_of(src: Seq<char>, dst: Seq<char>, b: Seq<u8>) -> Option<Flow> {
    if b.len() >= 20 {
        Some(tcp_flow(src, dst, b))
    } else {
        None
    }
}

/// The flow of an ICMP or ICMPv6 message `b`, where its header is whole: addresses only.
pub open spec fn icmp_flow_of(src: Seq<char>, dst: Seq<char>, b: Seq<u8>) -> Option<Flow> {
    if b.len() >= 4 {
        Some(address_flow(src, dst))
    } else {
        None
    }
}

/// The flow of the transport payload `b` of protocol `protocol`; none for other protocols.
pub open spec fn transport_flow(src: Seq<char>, dst: Seq<char>, protocol: u8, b: Seq<u8>) -> Option<
    Flow,
> {
    if protocol == PROTOCOL_UDP {
        udp_flow_of(src, dst, b)
    } else if protocol == PROTOCOL_TCP {
        tcp_flow_of(src, dst, b)
    } else if protocol == PROTOCOL_ICMP || protocol == PROTOCOL_ICMPV6 {
        icmp_flow_of(src, dst, b)
    } else {
        None
    }
}

/// The flow of the IPv4 packet `p`.
pub open spec fn ipv4_flow(p: Seq<u8>) -> Option<Flow> {
    if p.len() >= 20 {
        transport_flow(
            dotted_quad(p.subrange(12, 16)),
            dotted_quad(p.subrange(16, 20)),
            p[9],
            ipv4_payload(p),
        )
    } else {
        None
    }
}

/// The flow of the IPv6 packet `p`.
pub open spec fn ipv6_flow(p: Seq<u8>) -> Option<Flow> {
    if p.len() >= 40 {
        transport_flow(
            ipv6_addr_text(p.subrange(8, 24)),
            ipv6_addr_text(p.subrange(24, 40)),
            p[6],
            window(p, 40, 40 + be16(p, 4)),
        )
    } else {
        None
    }
}

/// The flow of the ARP packet `a` between hardware addresses with texts `src` and `dst`.
pub open spec fn arp_flow(src: Seq<char>, dst: Seq<char>, a: Seq<u8>) -> Option<Flow> {
    if a.len() >= 28 {
        Some(address_flow(src, dst))
    } else {
        None
    }
}

/// The flow of the Ethernet frame `e`; none for other ether-types and short headers.
pub open spec fn frame_flow(e: Seq<u8>) -> Option<Flow> {
    if e.len() >= 14 {
        let t = be16(e, 12);
        let p = e.subrange(14, e.len() as int);
        if t == ETHERTYPE_IPV4 {
            ipv4_flow(p)
        } else if t == ETHERTYPE_IPV6 {
            ipv6_flow(p)
        } else if t == ETHERTYPE_ARP {
            arp_flow(mac_addr_text(e.subrange(6, 12)), mac_addr_text(e.subrange(0, 6)), p)
        } else {
            None
        }
    } else {
        None
    }
}

/// The kind and text of an optional event.
pub open spec fn event_view(r: Option<EventData>) -> Option<(Seq<char>, Seq<char>)> {
    match r {
        Some(e) => Some((e.data_type@, e.data@)),
        None => None,
    }
}

fn push_str_member(out: &mut String, k: &str, v: &str)
    ensures
        final(out)@ == old(out)@ + str_member(k@, v@),
{
    let ghost before = out@;
    out.append("\"");
    out.append(k);
    out.append("\": \"");
    out.append(v);
    out.append("\"");
    assert(out@ =~= before + str_member(k@, v@));
}

fn push_escaped_member(out: &mut String, k: &str, v: &str)
    ensures
        final(out)@ == old(out)@ + str_member(k@, escaped(v@)),
{
    let ghost before = out@;
    out.append("\"");
    out.append(k);
    out.append("\": \"");
    append_escaped(out, v);
    out.append("\"");
    assert(out@ =~= before + str_member(k@, escaped(v@)));
}

fn push_num_member(out: &mut String, k: &str, n: u64)
    ensures
        final(out)@ == old(out)@ + num_member(k@, n as nat),
{
    let ghost before = out@;
    let t = decimal_text(n);
    out.append("\"");
    out.append(k);
    out.append("\": ");
    out.append(t.as_str());
    assert(out@ =~= before + num_member(k@, n as nat));
}

/// The event text of a flow with ports.
fn ports_event_text(
    ifn: &str,
    src: &str,
    source_port: u16,
    dst: &str,
    dest_port: u16,
    size: u64,
    payload: &str,
) -> (r: String)
    ensures
        r@ == ports_text(
            ifn@,
            (Flow {
                source_ip: src@,
                source_port,
                dest_ip: dst@,
                dest_port,
                size,
                payload: payload@,
            }),
        ),
{
    let mut out = String::from_str("{");
    push_str_member(&mut out, "interfaceName", ifn);
    out.append(", ");
    push_str_member(&mut out, "sourceIp", src);
    out.append(", ");
    push_num_member(&mut out, "sourcePort", source_port as u64);
    out.append(", ");
    push_str_member(&mut out, "destIp", dst);
    out.append(", ");
    push_num_member(&mut out, "destPort", dest_port as u64);
    out.append(", ");
    push_num_member(&mut out, "size", size);
    out.append(", ");
    push_escaped_member(&mut out, "payload", payload);
    out.append("}");
    out
}

fn handle_udp_packet(
    interface_name: &str,
    source: &str,
    destination: &str,
    packet: &[u8],
    config: &mut Config,
) -> (r: Option<EventData>)
    ensures
        final(config).kept_from(old(config)),
        searched(
            old(config).filters@,
            final(config).filters@,
            udp_flow_of(source@, destination@, packet@),
        ),
        event_view(r) == udp_event(
            interface_name@,
            source@,
            destination@,
            packet@,
            old(config).filters@,
        ),
{
    let ghost before = config.filters@;
    match udp_fields(packet) {
        None => None,
        Some(u) => {
            let payload = lossy_text(u.ports.payload.as_slice());
            let size = u.length as u64;
            let found = config.first_match(
                source,
                u.ports.source_port,
                destination,
                u.ports.dest_port,
                size,
                payload.as_str(),
            );
            proof {
                lemma_search_is_searched(
                    before,
                    config.filters@,
                    found,
                    udp_flow(source@, destination@, packet@),
                );
            }
            proof {
                lemma_search_finds(
                    before,
                    config.filters@,
                    found,
                    source@,
                    u.ports.source_port,
                    destination@,
                    u.ports.dest_port,
                    size,
                    payload@,
                );
            }
            if found.is_none() {
                return None;
            }
            let data = ports_event_text(
                interface_name,
                source,
                u.ports.source_port,
                destination,
                u.ports.dest_port,
                size,
                payload.as_str(),
            );
            Some(EventData { data_type: String::from_str("udp"), data })
        },
    }
}

fn echo_event_text(ifn: &str, src: &str, dst: &str, seq: u16, id: u16) -> (r: String)
    ensures
        r@ == echo_text(ifn@, src@, dst@, seq, id),
{
    let seq_text = decimal_text(seq as u64);
    let id_text = decimal_text(id as u64);
    let mut out = String::from_str("{");
    push_str_member(&mut out, "interfaceName", ifn);
    out.append(", ");
    push_str_member(&mut out, "sourceIp", src);
    out.append(", ");
    push_str_member(&mut out, "destIp", dst);
    out.append(", ");
    push_str_member(&mut out, "seqNumber", seq_text.as_str());
    out.append(", ");
    push_str_member(&mut out, "identifier", id_text.as_str());
    out.append("}");
    out
}

fn icmpv6_event_text(ifn: &str, src: &str, dst: &str, t: u8) -> (r: String)
    ensures
        r@ == icmpv6_text(ifn@, src@, dst@, t),
{
    let mut kind = String::from_str("(type=Icmpv6Type(");
    let digits = decimal_text(t as u64);
    kind.append(digits.as_str());
    kind.append("))");
    let mut out = String::from_str("{");
    push_str_member(&mut out, "interfaceName", ifn);
    out.append(", ");
    push_str_member(&mut out, "sourceIp", src);
    out.append(", ");
    push_str_member(&mut out, "destIp", dst);
    out.append(", ");
    push_str_member(&mut out, "type", kind.as_str());
    out.append("}");
    out
}

fn arp_event_text(
    ifn: &str,
    src: &str,
    sender_proto: &str,
    dst: &str,
    target_proto: &str,
    operation: u16,
) -> (r: String)
    ensures
        r@ == "{"@ + str_member("interfaceName"@, ifn@) + ", "@ + str_member("sourceIp"@, src@)
            + ", "@ + str_member("senderProto"@, sender_proto@) + ", "@ + str_member(
            "destIp"@,
            dst@,
        ) + ", "@ + str_member("destProto"@, target_proto@) + ", "@ + num_member(
            "operation"@,
            operation as nat,
        ) + "}"@,
{
    let mut out = String::from_str("{");
    push_str_member(&mut out, "interfaceName", ifn);
    out.append(", ");
    push_str_member(&mut out, "sourceIp", src);
    out.append(", ");
    push_str_member(&mut out, "senderProto", sender_proto);
    out.append(", ");
    push_str_member(&mut out, "destIp", dst);
    out.append(", ");
    push_str_member(&mut out, "destProto", target_proto);
    out.append(", ");
    push_num_member(&mut out, "operation", operation as u64);
    out.append("}");
    out
}

fn handle_tcp_packet(
    interface_name: &str,
    source: &str,
    destination: &str,
    packet: &[u8],
    config: &mut Config,
) -> (r: Option<EventData>)
    ensures
        final(config).kept_from(old(config)),
        searched(
            old(config).filters@,
            final(config).filters@,
            tcp_flow_of(source@, destination@, packet@),
        ),
        event_view(r) == tcp_event(
            interface_name@,
            source@,
            destination@,
            packet@,
            old(config).filters@,
        ),
{
    let ghost before = config.filters@;
    match tcp_fields(packet) {
        None => None,
        Some(t) => {
            let payload = lossy_text(t.payload.as_slice());
            let size = packet.len() as u64;
            let found = config.first_match(
                source,
                t.source_port,
                destination,
                t.dest_port,
                size,
                payload.as_str(),
            );
            proof {
                lemma_search_is_searched(
                    before,
                    config.filters@,
                    found,
                    tcp_flow(source@, destination@, packet@),
                );
            }
            proof {
                lemma_search_finds(
                    before,
                    config.filters@,
                    found,
                    source@,
                    t.source_port,
                    destination@,
                    t.dest_port,
                    size,
                    payload@,
                );
            }
            if found.is_none() {
                return None;
            }
            let data = ports_event_text(
                interface_name,
                source,
                t.source_port,
                destination,
                t.dest_port,
                size,
                payload.as_str(),
            );
            Some(EventData { data_type: String::from_str("tcp"), data })
        },
    }
}

/// Asks the filter set about a flow that has addresses only; returns whether one matched.
fn addresses_match(source: &str, destination: &str, config: &mut Config) -> (r: bool)
    ensures
        final(config).kept_from(old(config)),
        searched(
            old(config).filters@,
            final(config).filters@,
            Some(address_flow(source@, destination@)),
        ),
        r == flow_matches(old(config).filters@, address_flow(source@, destination@)),
{
    let ghost before = config.filters@;
    let found = config.first_match(source, 0, destination, 0, 0, "");
    proof {
        lemma_search_is_searched(
            before,
            config.filters@,
            found,
            address_flow(source@, destination@),
        );
    }
    proof {
        lemma_search_finds(before, config.filters@, found, source@, 0, destination@, 0, 0, ""@);
    }
    found.is_some()
}

fn handle_icmp_packet(
    interface_name: &str,
    source: &str,
    destination: &str,
    packet: &[u8],
    config: &mut Config,
) -> (r: Option<EventData>)
    ensures
        final(config).kept_from(old(config)),
        searched(
            old(config).filters@,
            final(config).filters@,
            icmp_flow_of(source@, destination@, packet@),
        ),
        event_view(r) == icmp_event(
            interface_name@,
            source@,
            destination@,
            packet@,
            old(config).filters@,
        ),
{
    match icmp_type(packet) {
        None => None,
        Some(t) => {
            if !addresses_match(source, destination, config) {
                return None;
            }
            if t == ICMP_ECHO_REPLY {
                match echo_reply_fields(packet) {
                    Some((id, seq)) => Some(
                        EventData {
                            data_type: String::from_str("echoReply"),
                            data: echo_event_text(interface_name, source, destination, seq, id),
                        },
                    ),
                    None => None,
                }
            } else if t == ICMP_ECHO_REQUEST {
                match echo_request_fields(packet) {
                    Some((id, seq)) => Some(
                        EventData {
                            data_type: String::from_str("echoRequest"),
                            data: echo_event_text(interface_name, source, destination, seq, id),
                        },
                    ),
                    None => None,
                }
            } else {
                None
            }
        },
    }
}

fn handle_icmpv6_packet(
    interface_name: &str,
    source: &str,
    destination: &str,
    packet: &[u8],
    config: &mut Config,
) -> (r: Option<EventData>)
    ensures
        final(config).kept_from(old(config)),
        searched(
            old(config).filters@,
            final(config).filters@,
            icmp_flow_of(source@, destination@, packet@),
        ),
        event_view(r) == icmpv6_event(
            interface_name@,
            source@,
            destination@,
            packet@,
            old(config).filters@,
        ),
{
    match icmpv6_type(packet) {
        None => None,
        Some(t) => {
            if !addresses_match(source, destination, config) {
                return None;
            }
            Some(
                EventData {
                    data_type: String::from_str("icmpv6"),
                    data: icmpv6_event_text(interface_name, source, destination, t),
                },
            )
        },
    }
}

fn handle_transport_protocol(
    interface_name: &str,
    source: &str,
    destination: &str,
    protocol: u8,
    packet: &[u8],
    config: &mut Config,
) -> (r: Option<EventData>)
    ensures
        final(config).kept_from(old(config)),
        searched(
            old(config).filters@,
            final(config).filters@,
            transport_flow(source@, destination@, protocol, packet@),
        ),
        event_view(r) == transport_event(
            interface_name@,
            source@,
            destination@,
            protocol,
            packet@,
            old(config).filters@,
        ),
{
    if protocol == PROTOCOL_UDP {
        handle_udp_packet(interface_name, source, destination, packet, config)
    } else if protocol == PROTOCOL_TCP {
        handle_tcp_packet(interface_name, source, destination, packet, config)
    } else if protocol == PROTOCOL_ICMP {
        handle_icmp_packet(interface_name, source, destination, packet, config)
    } else if protocol == PROTOCOL_ICMPV6 {
        handle_icmpv6_packet(interface_name, source, destination, packet, config)
    } else {
        None
    }
}

fn handle_ipv4_packet(interface_name: &str, packet: &[u8], config: &mut Config) -> (r: Option<
    EventData,
>)
    ensures
        final(config).kept_from(old(config)),
        searched(
            old(config).filters@,
            final(config).filters@,
            ipv4_flow(packet@),
        ),
        event_view(r) == ipv4_event(interface_name@, packet@, old(config).filters@),
{
    match ipv4_fields(packet) {
        None => None,
        Some(h) => {
            let source = ipv4_text(h.source.as_slice());
            let destination = ipv4_text(h.destination.as_slice());
            handle_transport_protocol(
                interface_name,
                source.as_str(),
                destination.as_str(),
                h.protocol,
                h.payload.as_slice(),
                config,
            )
        },
    }
}

fn handle_ipv6_packet(interface_name: &str, packet: &[u8], config: &mut Config) -> (r: Option<
    EventData,
>)
    ensures
        final(config).kept_from(old(config)),
        searched(
            old(config).filters@,
            final(config).filters@,
            ipv6_flow(packet@),
        ),
        event_view(r) == ipv6_event(interface_name@, packet@, old(config).filters@),
{
    match ipv6_fields(packet) {
        None => None,
        Some(h) => {
            let source = ipv6_text(h.source.as_slice());
            let destination = ipv6_text(h.destination.as_slice());
            handle_transport_protocol(
                interface_name,
                source.as_str(),
                destination.as_str(),
                h.protocol,
                h.payload.as_slice(),
                config,
            )
        },
    }
}

fn handle_arp_packet(
    interface_name: &str,
    source: &str,
    destination: &str,
    packet: &[u8],
    config: &mut Config,
) -> (r: Option<EventData>)
    ensures
        final(config).kept_from(old(config)),
        searched(
            old(config).filters@,
            final(config).filters@,
            arp_flow(source@, destination@, packet@),
        ),
        event_view(r) == arp_event(
            interface_name@,
            source@,
            destination@,
            packet@,
            old(config).filters@,
        ),
{
    match arp_fields(packet) {
        None => None,
        Some(a) => {
            if !addresses_match(source, destination, config) {
                return None;
            }
            let sender = ipv4_text(a.sender_proto.as_slice());
            let target = ipv4_text(a.target_proto.as_slice());
            let data = arp_event_text(
                interface_name,
                source,
                sender.as_str(),
                destination,
                target.as_str(),
                a.operation,
            );
            Some(EventData { data_type: String::from_str("arp"), data })
        },
    }
}

/// Dissects the Ethernet frame `frame` seen on `interface_name` and, where some filter of
/// `config` matches its flow, returns the event it gives. Other ether-types, other transport
/// protocols and frames too short for their headers give none. Patterns compiled on the way
/// stay compiled in `config`. Filters are evaluated in order up to the first match only, and
/// none at all where the frame forms no flow.
pub fn handle_ethernet_frame(interface_name: &str, frame: &[u8], config: &mut Config) -> (r:
    Option<EventData>)
    ensures
        final(config).kept_from(old(config)),
        searched(
            old(config).filters@,
            final(config).filters@,
            frame_flow(frame@),
        ),
        event_view(r) == frame_event(interface_name@, frame@, old(config).filters@),
{
    match ethernet_fields(frame) {
        None => None,
        Some(e) => {
            if e.ethertype == ETHERTYPE_IPV4 {
                handle_ipv4_packet(interface_name, e.payload.as_slice(), config)
            } else if e.ethertype == ETHERTYPE_IPV6 {
                handle_ipv6_packet(interface_name, e.payload.as_slice(), config)
            } else if e.ethertype == ETHERTYPE_ARP {
                let source = mac_text(e.source.as_slice());
                let destination = mac_text(e.destination.as_slice());
                handle_arp_packet(
                    interface_name,
                    source.as_str(),
                    destination.as_str(),
                    e.payload.as_slice(),
                    config,
                )
            } else {
                None
            }
        },
    }
}

} // verus!

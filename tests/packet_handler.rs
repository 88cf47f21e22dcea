use network::config::Config;
use network::filters::{Filter, RegexFilter};
use network::packet_handler::handle_ethernet_frame;

fn filter(port: u16, min_size: u64, source_ip: &str, dest_ip: &str, payload: &str) -> Filter {
    Filter {
        protocol: String::from("any"),
        port,
        min_size,
        max_size: 0,
        regex_filter: RegexFilter::new(source_ip, dest_ip, payload),
    }
}

fn config(filters: Vec<Filter>) -> Config {
    Config { filters }
}

const DST_MAC: [u8; 6] = [0x11, 0x22, 0x33, 0x44, 0x55, 0x66];
const SRC_MAC: [u8; 6] = [0xaa, 0xbb, 0xcc, 0xdd, 0xee, 0x01];

fn ethernet(ethertype: u16, payload: &[u8]) -> Vec<u8> {
    let mut f = Vec::new();
    f.extend_from_slice(&DST_MAC);
    f.extend_from_slice(&SRC_MAC);
    f.push((ethertype >> 8) as u8);
    f.push(ethertype as u8);
    f.extend_from_slice(payload);
    f
}

fn ipv4(protocol: u8, payload: &[u8]) -> Vec<u8> {
    let total = 20 + payload.len() as u16;
    let mut p = vec![0x45, 0, (total >> 8) as u8, total as u8, 0, 0, 0, 0, 64, protocol, 0, 0];
    p.extend_from_slice(&[10, 0, 0, 1, 10, 0, 0, 2]);
    p.extend_from_slice(payload);
    p
}

fn udp_frame() -> Vec<u8> {
    let udp = [0x13, 0x88, 0x00, 0x35, 0x00, 12, 0, 0, b'p', b'i', b'n', b'g'];
    ethernet(0x0800, &ipv4(17, &udp))
}

#[test]
fn udp_frame_matching_port_gives_event() {
    let mut c = config(vec![filter(53, 0, "", "", "")]);
    let event = handle_ethernet_frame("eth0", &udp_frame(), &mut c).expect("event");
    assert_eq!(event.data_type, "udp");
    assert_eq!(
        event.data,
        r#"{"interfaceName": "eth0", "sourceIp": "10.0.0.1", "sourcePort": 5000, "destIp": "10.0.0.2", "destPort": 53, "size": 12, "payload": "ping"}"#
    );
}

#[test]
fn udp_frame_without_matching_filter_gives_nothing() {
    let mut c = config(vec![filter(54, 0, "", "", ""), filter(0, 0, "", "", "^pong")]);
    assert!(handle_ethernet_frame("eth0", &udp_frame(), &mut c).is_none());
    let mut empty = Config::make_default();
    assert!(handle_ethernet_frame("eth0", &udp_frame(), &mut empty).is_none());
}

#[test]
fn truncated_or_foreign_frames_give_nothing() {
    let mut c = config(vec![filter(0, 0, ".*", ".*", "")]);
    assert!(handle_ethernet_frame("eth0", &[1, 2, 3], &mut c).is_none());
    assert!(handle_ethernet_frame("eth0", &ethernet(0x0800, &[0x45, 0, 0]), &mut c).is_none());
    assert!(handle_ethernet_frame("eth0", &ethernet(0x88cc, &[0; 40]), &mut c).is_none());
    assert!(handle_ethernet_frame("eth0", &ethernet(0x0800, &ipv4(99, &[0; 8])), &mut c).is_none());
}

#[test]
fn tcp_frame_payload_is_escaped() {
    let mut tcp = vec![0x9c, 0x40, 0x00, 80, 0, 0, 0, 0, 0, 0, 0, 0, 0x50, 0x18, 0, 0, 0, 0, 0, 0];
    tcp.extend_from_slice(b"a\"b");
    let frame = ethernet(0x0800, &ipv4(6, &tcp));
    let mut c = config(vec![filter(0, 10, "", "", "")]);
    let event = handle_ethernet_frame("lo", &frame, &mut c).expect("event");
    assert_eq!(event.data_type, "tcp");
    assert_eq!(
        event.data,
        r#"{"interfaceName": "lo", "sourceIp": "10.0.0.1", "sourcePort": 40000, "destIp": "10.0.0.2", "destPort": 80, "size": 23, "payload": "a\"b"}"#
    );
}

#[test]
fn icmp_echo_request_gives_event() {
    let icmp = [8, 0, 0, 0, 0, 7, 0, 42];
    let frame = ethernet(0x0800, &ipv4(1, &icmp));
    let mut c = config(vec![filter(0, 0, "", "^10\\.0\\.0\\.2$", "")]);
    let event = handle_ethernet_frame("eth0", &frame, &mut c).expect("event");
    assert_eq!(event.data_type, "echoRequest");
    assert_eq!(
        event.data,
        r#"{"interfaceName": "eth0", "sourceIp": "10.0.0.1", "destIp": "10.0.0.2", "seqNumber": "42", "identifier": "7"}"#
    );
    let other = ethernet(0x0800, &ipv4(1, &[3, 0, 0, 0, 0, 0, 0, 0]));
    assert!(handle_ethernet_frame("eth0", &other, &mut c).is_none());
}

#[test]
fn icmpv6_frame_gives_event() {
    let mut p = vec![0x60, 0, 0, 0, 0, 4, 58, 64];
    let mut src = [0u8; 16];
    src[0] = 0xfe;
    src[1] = 0x80;
    src[15] = 1;
    let mut dst = src;
    dst[15] = 2;
    p.extend_from_slice(&src);
    p.extend_from_slice(&dst);
    p.extend_from_slice(&[128, 0, 0, 0]);
    let frame = ethernet(0x86DD, &p);
    let mut c = config(vec![filter(0, 0, "^fe80", "", "")]);
    let event = handle_ethernet_frame("eth0", &frame, &mut c).expect("event");
    assert_eq!(event.data_type, "icmpv6");
    assert_eq!(
        event.data,
        r#"{"interfaceName": "eth0", "sourceIp": "fe80::1", "destIp": "fe80::2", "type": "(type=Icmpv6Type(128))"}"#
    );
}

#[test]
fn arp_frame_uses_hardware_addresses() {
    let mut arp = vec![0, 1, 8, 0, 6, 4, 0, 1];
    arp.extend_from_slice(&SRC_MAC);
    arp.extend_from_slice(&[192, 168, 1, 1]);
    arp.extend_from_slice(&[0; 6]);
    arp.extend_from_slice(&[192, 168, 1, 2]);
    let frame = ethernet(0x0806, &arp);
    let mut c = config(vec![filter(0, 0, "^aa:bb", "", "")]);
    let event = handle_ethernet_frame("eth0", &frame, &mut c).expect("event");
    assert_eq!(event.data_type, "arp");
    assert_eq!(
        event.data,
        r#"{"interfaceName": "eth0", "sourceIp": "aa:bb:cc:dd:ee:01", "senderProto": "192.168.1.1", "destIp": "11:22:33:44:55:66", "destProto": "192.168.1.2", "operation": 1}"#
    );
}

#[test]
fn first_matching_filter_wins() {
    let mut c = config(vec![filter(0, 1, "", "", ""), filter(53, 0, "", "", "")]);
    assert_eq!(c.first_match("10.0.0.1", 5000, "10.0.0.2", 53, 12, "ping"), Some(0));
    let mut c = config(vec![filter(0, 100, "", "", ""), filter(53, 0, "", "", "")]);
    assert_eq!(c.first_match("10.0.0.1", 5000, "10.0.0.2", 53, 12, "ping"), Some(1));
    assert_eq!(c.first_match("10.0.0.1", 5000, "10.0.0.2", 54, 12, "ping"), None);
}

#[test]
fn built_in_configurations() {
    assert_eq!(Config::make_default().filters.len(), 0);
    let example = Config::make_example();
    assert_eq!(example.filters.len(), 2);
    assert_eq!(example.filters[0].protocol, "ip4");
    assert_eq!(example.filters[1].port, 1169);
    assert_eq!(example.filters[1].regex_filter.payload(), ".*hello.*");
}

#[test]
fn compile_patterns_reports_rejected_filters() {
    let mut example = Config::make_example();
    assert_eq!(example.compile_patterns(), vec![1]);
    let mut c = config(vec![filter(0, 0, "^10", "", ""), filter(0, 0, "(", "", ""), filter(0, 0, "", "[", "")]);
    assert_eq!(c.compile_patterns(), vec![1, 2]);
}

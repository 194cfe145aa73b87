use albion_network_lib::capture::frame::has_short_udp_length;
use albion_network_lib::capture::hosts::file_entries;
use albion_network_lib::capture::pcapng::read_pcapng_packets;
use albion_network_lib::capture::{
    extract_udp_payload, iter_pcapng_packets, CidrRange, Endpoint, HostFilter, IpAddress,
};

fn ipv4_udp_frame(ethertype_prefix: &[u8], udp_length_delta: i32, payload: &[u8]) -> Vec<u8> {
    let mut frame = vec![0u8; 12];
    frame.extend_from_slice(ethertype_prefix);
    frame.extend_from_slice(&[0x08, 0x00]);
    let total = (20 + 8 + payload.len()) as u16;
    frame.extend_from_slice(&[0x45, 0x00]);
    frame.extend_from_slice(&total.to_be_bytes());
    frame.extend_from_slice(&[0, 0, 0, 0, 64, 17, 0, 0]);
    frame.extend_from_slice(&[10, 0, 0, 1]);
    frame.extend_from_slice(&[10, 0, 0, 2]);
    let udp_length = (8 + payload.len() as i32 + udp_length_delta) as u16;
    frame.extend_from_slice(&1234u16.to_be_bytes());
    frame.extend_from_slice(&5056u16.to_be_bytes());
    frame.extend_from_slice(&udp_length.to_be_bytes());
    frame.extend_from_slice(&[0, 0]);
    frame.extend_from_slice(payload);
    frame
}

fn ipv6_udp_frame(payload: &[u8]) -> Vec<u8> {
    let mut frame = vec![0u8; 12];
    frame.extend_from_slice(&[0x86, 0xDD]);
    frame.extend_from_slice(&[0x60, 0, 0, 0]);
    frame.extend_from_slice(&((8 + payload.len()) as u16).to_be_bytes());
    frame.extend_from_slice(&[17, 64]);
    let mut source = [0u8; 16];
    source[0] = 0x20;
    source[1] = 0x01;
    source[15] = 1;
    frame.extend_from_slice(&source);
    let mut destination = [0u8; 16];
    destination[15] = 1;
    frame.extend_from_slice(&destination);
    frame.extend_from_slice(&4535u16.to_be_bytes());
    frame.extend_from_slice(&4000u16.to_be_bytes());
    frame.extend_from_slice(&((8 + payload.len()) as u16).to_be_bytes());
    frame.extend_from_slice(&[0, 0]);
    frame.extend_from_slice(payload);
    frame
}

fn block(block_type: u32, body: &[u8]) -> Vec<u8> {
    let total = (12 + body.len()) as u32;
    let mut out = Vec::new();
    out.extend_from_slice(&block_type.to_le_bytes());
    out.extend_from_slice(&total.to_le_bytes());
    out.extend_from_slice(body);
    out.extend_from_slice(&total.to_le_bytes());
    out
}

fn section_header() -> Vec<u8> {
    let mut body = vec![0x4d, 0x3c, 0x2b, 0x1a, 1, 0, 0, 0];
    body.extend_from_slice(&[0xff; 8]);
    block(0x0A0D0D0A, &body)
}

fn interface(link_type: u16) -> Vec<u8> {
    let mut body = link_type.to_le_bytes().to_vec();
    body.extend_from_slice(&[0, 0, 0, 0, 1, 0]);
    block(1, &body)
}

fn enhanced_packet(interface_id: u32, captured: u32, data: &[u8]) -> Vec<u8> {
    let mut body = interface_id.to_le_bytes().to_vec();
    body.extend_from_slice(&[0; 8]);
    body.extend_from_slice(&captured.to_le_bytes());
    body.extend_from_slice(&(data.len() as u32).to_le_bytes());
    body.extend_from_slice(data);
    while body.len() % 4 != 0 {
        body.push(0);
    }
    block(6, &body)
}

#[test]
fn ipv4_udp_frame_yields_endpoints_and_payload() {
    let frame = ipv4_udp_frame(&[], 0, b"hello");

    assert!(!has_short_udp_length(&frame, Some(1)));
    let packet = extract_udp_payload(&frame, Some(1)).unwrap();

    assert_eq!(packet.source, Endpoint { ip: IpAddress::v4(10, 0, 0, 1), port: 1234 });
    assert_eq!(packet.destination, Endpoint { ip: IpAddress::v4(10, 0, 0, 2), port: 5056 });
    assert_eq!(packet.payload, b"hello");
}

#[test]
fn vlan_tagged_frame_is_read_through_the_tag() {
    let frame = ipv4_udp_frame(&[0x81, 0x00, 0x00, 0x05], 0, b"abc");

    let packet = extract_udp_payload(&frame, Some(1)).unwrap();

    assert_eq!(packet.payload, b"abc");
    assert_eq!(packet.destination.port, 5056);
}

#[test]
fn ipv6_udp_frame_yields_endpoints_and_payload() {
    let frame = ipv6_udp_frame(b"xyz");

    let packet = extract_udp_payload(&frame, Some(1)).unwrap();

    assert_eq!(packet.source.ip, IpAddress::V6((0x2001u128 << 112) | 1));
    assert_eq!(packet.destination.ip, IpAddress::V6(1));
    assert_eq!(packet.source.port, 4535);
    assert_eq!(packet.payload, b"xyz");
}

#[test]
fn other_link_types_and_protocols_give_nothing() {
    let frame = ipv4_udp_frame(&[], 0, b"hello");
    assert!(extract_udp_payload(&frame, Some(113)).is_none());
    assert!(extract_udp_payload(&frame, None).is_none());

    let mut tcp = frame.clone();
    tcp[14 + 9] = 6;
    assert!(extract_udp_payload(&tcp, Some(1)).is_none());

    assert!(extract_udp_payload(&frame[..10], Some(1)).is_none());
}

#[test]
fn udp_length_beyond_the_frame_gives_nothing() {
    let frame = ipv4_udp_frame(&[], 4, b"hello");

    assert!(extract_udp_payload(&frame, Some(1)).is_none());
}

#[test]
fn udp_length_below_its_header_is_flagged() {
    let frame = ipv4_udp_frame(&[], -6, b"hello");

    assert!(has_short_udp_length(&frame, Some(1)));
}

#[test]
fn pcapng_packets_carry_their_interface_link_type() {
    let frame = ipv4_udp_frame(&[], 0, b"hi");
    let mut capture = section_header();
    capture.extend(interface(1));
    capture.extend(enhanced_packet(0, frame.len() as u32, &frame));
    capture.extend(enhanced_packet(3, 2, &[7, 8]));

    let packets = iter_pcapng_packets(&capture).unwrap();

    assert_eq!(packets.len(), 2);
    assert_eq!(packets[0], (1, Some(1), frame));
    assert_eq!(packets[1], (2, None, vec![7, 8]));
}

#[test]
fn pcapng_packets_are_numbered_in_file_order_by_their_interface() {
    let mut capture = section_header();
    capture.extend(enhanced_packet(0, 1, &[1]));
    capture.extend(interface(1));
    capture.extend(interface(101));
    capture.extend(enhanced_packet(1, 1, &[2]));
    capture.extend(enhanced_packet(0, 1, &[3]));
    capture.extend(enhanced_packet(2, 1, &[4]));

    let packets = iter_pcapng_packets(&capture).unwrap();

    assert_eq!(
        packets,
        vec![(1, None, vec![1]), (2, Some(101), vec![2]), (3, Some(1), vec![3]), (4, None, vec![4])]
    );
    assert_eq!(iter_pcapng_packets(&capture[..11]).unwrap(), Vec::new());
}

#[test]
fn pcapng_block_longer_than_the_capture_is_an_error() {
    let mut capture = section_header();
    capture.extend_from_slice(&[6, 0, 0, 0, 100, 0, 0, 0, 0, 0, 0, 0]);

    let error = iter_pcapng_packets(&capture).unwrap_err();

    assert_eq!(error.0, "Invalid pcapng block at offset 28");
}

#[test]
fn pcapng_packet_block_too_short_is_an_error() {
    let capture = block(6, &[0, 0, 0, 0]);

    let error = iter_pcapng_packets(&capture).unwrap_err();

    assert_eq!(error.0, "pcapng block body too short");
}

#[test]
fn pcapng_packet_announcing_more_than_it_holds_is_told_apart() {
    let capture = enhanced_packet(0, 64, &[1, 2, 3, 4]);

    assert!(read_pcapng_packets(&capture).is_none());
}

#[test]
fn cidr_ranges_read_and_contain_their_addresses() {
    let v4 = CidrRange::from_str("192.168.1.77/24").unwrap();
    assert_eq!(v4, CidrRange::V4 { network: 0xC0A8_0100, mask: 0xFFFF_FF00 });
    assert!(v4.contains(IpAddress::v4(192, 168, 1, 200)));
    assert!(!v4.contains(IpAddress::v4(192, 168, 2, 1)));
    assert!(!v4.contains(IpAddress::V6(1)));

    let v6 = CidrRange::from_str("2001:db8::/32").unwrap();
    assert!(v6.contains(IpAddress::V6((0x2001_0db8u128 << 96) | 5)));
    assert!(!v6.contains(IpAddress::V6(1)));

    let all = CidrRange::from_str("0.0.0.0/0").unwrap();
    assert!(all.contains(IpAddress::v4(8, 8, 8, 8)));
}

#[test]
fn cidr_errors_say_what_is_wrong() {
    assert_eq!(CidrRange::from_str("10.0.0.1").unwrap_err(), "missing /prefix");
    assert_eq!(
        CidrRange::from_str("10.0.0.300/8").unwrap_err(),
        "invalid IP address: invalid IP address syntax"
    );
    assert_eq!(
        CidrRange::from_str("10.0.0.0/33").unwrap_err(),
        "IPv4 prefix length must be <= 32"
    );
    assert_eq!(
        CidrRange::from_str("::1/129").unwrap_err(),
        "IPv6 prefix length must be <= 128"
    );
    assert_eq!(
        CidrRange::from_str("10.0.0.0/x").unwrap_err(),
        "invalid prefix length: invalid digit found in string"
    );
    assert_eq!(
        CidrRange::from_str("10.0.0.0/").unwrap_err(),
        "invalid prefix length: cannot parse integer from empty string"
    );
    assert_eq!(
        CidrRange::from_str("10.0.0.0/300").unwrap_err(),
        "invalid prefix length: number too large to fit in target type"
    );
}

#[test]
fn hosts_text_skips_comments_and_blank_lines() {
    let filter = HostFilter::from_text("# home\n10.0.0.0/8 # lan\n\n  192.168.0.0/16\r\n", "hosts.txt")
        .unwrap();

    assert_eq!(filter.len(), 2);
    assert_eq!(
        HostFilter::from_text("#only a comment\n   \n1.2.3.4/32#x\n1.2.3.4/32\n::/0", "h").unwrap().len(),
        3
    );
    assert!(filter.contains(IpAddress::v4(192, 168, 4, 4)));
    assert!(filter.contains(IpAddress::v4(10, 9, 9, 9)));
    assert!(!filter.contains(IpAddress::v4(11, 0, 0, 1)));

    assert_eq!(
        file_entries("# home\n10.0.0.0/8 # lan\n\n  192.168.0.0/16\r\n"),
        vec!["10.0.0.0/8".to_string(), "192.168.0.0/16".to_string()]
    );
}

#[test]
fn hosts_text_error_names_the_file_and_line() {
    let error = HostFilter::from_text("10.0.0.0/8\nbad\n", "hosts.txt").unwrap_err();

    assert_eq!(error.0, "hosts.txt:2 invalid CIDR entry \"bad\": missing /prefix");

    let error = HostFilter::from_cidrs(&["10.0.0.0/8", "1.2.3.4/40"]).unwrap_err();

    assert_eq!(
        error.0,
        "invalid CIDR entry \"1.2.3.4/40\": IPv4 prefix length must be <= 32"
    );
}

#[test]
fn endpoints_read_from_text() {
    assert_eq!(
        Endpoint::parse("1.2.3.4:5056"),
        Some(Endpoint { ip: IpAddress::v4(1, 2, 3, 4), port: 5056 })
    );
    assert_eq!(Endpoint::parse("1.2.3.4"), None);
    assert_eq!(Endpoint::parse("1.2.3:5056"), None);
    assert_eq!(Endpoint::parse("1.2.3.4:70000"), None);
    assert!(Endpoint::from_str("10.0.0.1:4535").is_albion_port());
    assert!(!Endpoint::from_str("10.0.0.1:4536").is_albion_port());
}

#[test]
fn error_entries_are_written_escaped() {
    let error = HostFilter::from_cidrs(&["a\"b\tc\\d\u{1}"]).unwrap_err();

    assert_eq!(
        error.0,
        format!("invalid CIDR entry {:?}: missing /prefix", "a\"b\tc\\d\u{1}")
    );
    assert_eq!(error.0, "invalid CIDR entry \"a\\\"b\\tc\\\\d\\u{1}\": missing /prefix");
}

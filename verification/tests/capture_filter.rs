use albion_network_lib::capture::{CaptureFilter, Endpoint, HostFilter, IpAddress, UdpPacket};

fn endpoint(ip: [u8; 4], port: u16) -> Endpoint {
    Endpoint {
        ip: IpAddress::v4(ip[0], ip[1], ip[2], ip[3]),
        port,
    }
}

fn udp_packet(source: Endpoint, destination: Endpoint) -> UdpPacket<'static> {
    UdpPacket {
        source,
        destination,
        payload: &[],
    }
}

#[test]
fn default_filter_matches_port_5056() {
    let filter = CaptureFilter::new();

    assert!(filter.matches_endpoint(&endpoint([1, 2, 3, 4], 5056)));
}

#[test]
fn default_filter_matches_port_4535() {
    let filter = CaptureFilter::new();

    assert!(filter.matches_endpoint(&endpoint([1, 2, 3, 4], 4535)));
}

#[test]
fn default_filter_rejects_unrelated_ports() {
    let filter = CaptureFilter::new();

    assert!(!filter.matches_endpoint(&endpoint([1, 2, 3, 4], 9999)));
}

#[test]
fn any_port_matches_unrelated_ports() {
    let filter = CaptureFilter::any_port();

    assert!(filter.matches_endpoint(&endpoint([1, 2, 3, 4], 9999)));
}

#[test]
fn with_ports_restricts_to_provided_list() {
    let filter = CaptureFilter::with_ports(&[6000, 7000]);

    assert!(filter.matches_endpoint(&endpoint([1, 2, 3, 4], 6000)));
    assert!(filter.matches_endpoint(&endpoint([1, 2, 3, 4], 7000)));
    assert!(!filter.matches_endpoint(&endpoint([1, 2, 3, 4], 5056)));
}

#[test]
fn matches_udp_packet_matches_either_source_or_destination() {
    let filter = CaptureFilter::with_ports(&[5056]);
    let packet = udp_packet(endpoint([10, 0, 0, 1], 1234), endpoint([10, 0, 0, 2], 5056));

    assert!(filter.matches_udp_packet(&packet));

    let packet = udp_packet(endpoint([10, 0, 0, 1], 5056), endpoint([10, 0, 0, 2], 1234));

    assert!(filter.matches_udp_packet(&packet));
}

#[test]
fn host_filter_restricts_ips_when_present() {
    let host_filter = HostFilter::from_cidrs(&["192.168.1.0/24"]).unwrap();
    let filter = CaptureFilter::new().with_host_filter(host_filter);

    assert!(filter.matches_endpoint(&endpoint([192, 168, 1, 10], 5056)));
    assert!(!filter.matches_endpoint(&endpoint([10, 0, 0, 10], 5056)));
}

#[test]
fn empty_ports_plus_host_filter_means_any_port_on_matching_hosts() {
    let host_filter = HostFilter::from_cidrs(&["192.168.1.0/24"]).unwrap();
    let filter = CaptureFilter::any_port().with_host_filter(host_filter);

    assert!(filter.matches_endpoint(&endpoint([192, 168, 1, 10], 9999)));
    assert!(!filter.matches_endpoint(&endpoint([10, 0, 0, 10], 9999)));
}

#[test]
fn udp_packet_with_neither_endpoint_kept_is_rejected() {
    let filter = CaptureFilter::new();
    let packet = udp_packet(endpoint([10, 0, 0, 1], 1234), endpoint([10, 0, 0, 2], 4321));

    assert!(!filter.matches_udp_packet(&packet));
}

#[test]
fn set_host_filter_keeps_the_ports() {
    let mut filter = CaptureFilter::with_ports(&[6000]);
    filter.set_host_filter(HostFilter::from_cidrs(&["10.0.0.0/8"]).unwrap());

    assert_eq!(filter.ports(), &[6000]);
    assert_eq!(filter.host_filter().map(|h| h.len()), Some(1));
    assert!(filter.matches_endpoint(&endpoint([10, 1, 2, 3], 6000)));
    assert!(!filter.matches_endpoint(&endpoint([10, 1, 2, 3], 5056)));
    assert!(!filter.matches_endpoint(&endpoint([11, 1, 2, 3], 6000)));
}

use albion_network_lib::albion::codes::CodeTable;
use albion_network_lib::albion::items::ItemNameResolver;
use albion_network_lib::capture::{CaptureFilter, Endpoint, IpAddress};
use albion_network_lib::cli::parse_args;
use albion_network_lib::live::{process_frame, LiveCounters};
use albion_network_lib::models::WorldMap;
use albion_network_lib::photon::parser::{PhotonParser, PhotonParserConfig};
use albion_network_lib::photon::PhotonFraming;

fn payload(flags: u8, commands: &[Vec<u8>]) -> Vec<u8> {
    let mut out = vec![0, 0, flags, commands.len() as u8, 0, 0, 0, 0, 0, 0, 0, 0];
    for command in commands {
        out.extend_from_slice(command);
    }
    out
}

fn command(command_type: u8, body: &[u8]) -> Vec<u8> {
    let mut out = vec![command_type, 0, 0, 0];
    out.extend_from_slice(&((12 + body.len()) as i32).to_be_bytes());
    out.extend_from_slice(&[0; 4]);
    out.extend_from_slice(body);
    out
}

fn reliable(message_type: u8, data: &[u8]) -> Vec<u8> {
    let mut body = vec![0xF3, message_type];
    body.extend_from_slice(data);
    command(6, &body)
}

fn fragment(start: i32, total: i32, offset: i32, data: &[u8]) -> Vec<u8> {
    let mut body = start.to_be_bytes().to_vec();
    body.extend_from_slice(&[0; 8]);
    body.extend_from_slice(&total.to_be_bytes());
    body.extend_from_slice(&offset.to_be_bytes());
    body.extend_from_slice(data);
    command(8, &body)
}

fn parser() -> PhotonParser {
    PhotonParser::new(PhotonParserConfig::new(
        "live".to_string(),
        false,
        false,
        WorldMap::empty(),
        ItemNameResolver::empty(),
        CodeTable::empty(),
    ))
}

fn client() -> Endpoint {
    Endpoint { ip: IpAddress::v4(10, 0, 0, 1), port: 50000 }
}

fn server() -> Endpoint {
    Endpoint { ip: IpAddress::v4(10, 0, 0, 2), port: 5056 }
}

fn udp_frame(source: Endpoint, destination: Endpoint, payload: &[u8]) -> Vec<u8> {
    let ip = |e: &Endpoint| match e.ip {
        IpAddress::V4(a) => a.to_be_bytes(),
        IpAddress::V6(_) => [0; 4],
    };
    let mut frame = vec![0u8; 12];
    frame.extend_from_slice(&[0x08, 0x00, 0x45, 0x00]);
    frame.extend_from_slice(&((28 + payload.len()) as u16).to_be_bytes());
    frame.extend_from_slice(&[0, 0, 0, 0, 64, 17, 0, 0]);
    frame.extend_from_slice(&ip(&source));
    frame.extend_from_slice(&ip(&destination));
    frame.extend_from_slice(&source.port.to_be_bytes());
    frame.extend_from_slice(&destination.port.to_be_bytes());
    frame.extend_from_slice(&((8 + payload.len()) as u16).to_be_bytes());
    frame.extend_from_slice(&[0, 0]);
    frame.extend_from_slice(payload);
    frame
}

#[test]
fn reliable_commands_give_their_messages() {
    let mut framing = PhotonFraming::new();
    let data = payload(0, &[reliable(2, b"req"), reliable(4, b"ev"), reliable(7, b"other")]);

    assert_eq!(framing.receive_packet(&data), Some(("Success", false)));

    let messages = framing.take_messages();
    assert_eq!(messages.len(), 2);
    assert_eq!(messages[0].message_type, 2);
    assert_eq!(messages[0].payload, b"req");
    assert_eq!(messages[1].message_type, 4);
    assert_eq!(messages[1].payload, b"ev");
    assert!(framing.take_messages().is_empty());
}

#[test]
fn short_and_encrypted_payloads_are_reported() {
    let mut framing = PhotonFraming::new();

    assert_eq!(framing.receive_packet(&[0, 0, 0]), Some(("InvalidHeader", false)));
    assert_eq!(framing.receive_packet(&payload(1, &[])), Some(("Encrypted", true)));
    assert_eq!(
        framing.receive_packet(&payload(0, &[reliable(131, b"x")])),
        Some(("Encrypted", true))
    );
    assert_eq!(framing.receive_packet(&payload(0, &[])), Some(("Undefined", false)));
    assert_eq!(
        framing.receive_packet(&payload(0, &[command(4, &[])])),
        Some(("DisconnectCommand", false))
    );
    assert!(framing.take_messages().is_empty());
}

#[test]
fn command_longer_than_the_payload_stops_the_run() {
    let mut framing = PhotonFraming::new();
    let mut data = payload(0, &[reliable(2, b"abc")]);
    data.truncate(data.len() - 1);

    assert_eq!(framing.receive_packet(&data), Some(("InvalidHeader", false)));
    assert!(framing.take_messages().is_empty());
}

#[test]
fn fragments_are_put_back_together() {
    let mut framing = PhotonFraming::new();
    let message = [0xF3, 3, 1, 2, 3, 4, 5, 6];

    let first = payload(0, &[fragment(9, 8, 0, &message[..3])]);
    assert_eq!(framing.receive_packet(&first), Some(("Success", false)));
    assert!(framing.take_messages().is_empty());

    let second = payload(0, &[fragment(9, 8, 3, &message[3..])]);
    assert_eq!(framing.receive_packet(&second), Some(("Success", false)));
    let messages = framing.take_messages();
    assert_eq!(messages.len(), 1);
    assert_eq!(messages[0].message_type, 3);
    assert_eq!(messages[0].payload, vec![1, 2, 3, 4, 5, 6]);
}

#[test]
fn fragment_outside_its_message_cannot_be_read() {
    let mut framing = PhotonFraming::new();

    assert_eq!(framing.receive_packet(&payload(0, &[fragment(1, 4, 2, &[1, 2, 3])])), None);
    assert_eq!(framing.receive_packet(&payload(0, &[fragment(2, -1, 0, &[1])])), None);
}

#[test]
fn parser_keeps_framed_messages_with_their_packet() {
    let mut parser = parser();
    let data = payload(0, &[reliable(3, b"resp")]);

    assert_eq!(parser.receive_packet(&data, 7, server(), client()).unwrap(), "Success");

    let framed = parser.take_framed_messages();
    assert_eq!(framed.len(), 1);
    assert_eq!(framed[0].0.packet_number, 7);
    assert_eq!(framed[0].0.source, server());
    assert_eq!(framed[0].1.payload, b"resp");
    assert!(parser.take_framed_messages().is_empty());
    assert!(parser.decoded_packets().is_empty());
}

#[test]
fn parser_records_encrypted_traffic() {
    let mut parser = parser();

    assert_eq!(
        parser.try_receive_packet(&payload(1, &[]), 1, server(), client()).map(|r| r.unwrap()),
        Some("Encrypted")
    );
    assert!(parser.player_state().has_encrypted_data());
    assert!(parser
        .try_receive_packet(&payload(0, &[fragment(1, 4, 2, &[1, 2, 3])]), 2, server(), client())
        .is_none());
}

#[test]
fn player_state_can_be_changed_in_place() {
    let mut parser = parser();
    parser.player_state_mut().set_player_name("PlayerOne");

    assert_eq!(parser.player_state().player_name(), "PlayerOne");
}

#[test]
fn live_frames_are_counted_filtered_and_stopped() {
    let mut parser = parser();
    let filter = CaptureFilter::new();
    let options = parse_args(vec!["--count".to_string(), "2".to_string()]).unwrap();
    let mut counters = LiveCounters::new();
    let data = payload(0, &[reliable(4, b"ev")]);

    let other = udp_frame(client(), Endpoint { ip: IpAddress::v4(1, 1, 1, 1), port: 53 }, &data);
    let step = process_frame(&mut parser, &filter, &options, &mut counters, &other, 1).unwrap();
    assert!(!step.kept);
    assert!(!step.stop);
    assert_eq!((counters.packet_number, counters.processed), (1, 0));

    let game = udp_frame(server(), client(), &data);
    let step = process_frame(&mut parser, &filter, &options, &mut counters, &game, 1).unwrap();
    assert!(step.kept);
    assert_eq!(step.status, Some("Success"));
    assert!(step.emit.is_empty());
    assert!(!step.stop);

    let step = process_frame(&mut parser, &filter, &options, &mut counters, &game, 1).unwrap();
    assert!(step.stop);
    assert_eq!((counters.packet_number, counters.processed, counters.emitted), (3, 2, 0));
    assert_eq!(parser.take_framed_messages().len(), 2);
}

#[test]
fn live_frame_with_short_udp_length_is_told_apart() {
    let mut parser = parser();
    let filter = CaptureFilter::any_port();
    let options = parse_args(Vec::new()).unwrap();
    let mut counters = LiveCounters::new();
    let mut frame = udp_frame(server(), client(), b"abcdefgh");
    frame[38] = 0;
    frame[39] = 4;

    assert!(process_frame(&mut parser, &filter, &options, &mut counters, &frame, 1).is_none());
}

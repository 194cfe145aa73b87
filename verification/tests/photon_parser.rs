use albion_network_lib::albion::codes::{CodeTable, EventCode, OperationCode};
use albion_network_lib::albion::extracted::ExtractedPacket;
use albion_network_lib::albion::items::ItemNameResolver;
use albion_network_lib::albion::payloads::auction_buy_offer::AuctionBuyOffer;
use albion_network_lib::albion::payloads::marketplace_notification::MarketPlaceNotification;
use albion_network_lib::capture::{Endpoint, IpAddress};
use albion_network_lib::models::WorldMap;
use albion_network_lib::packet::json::parse_json;
use albion_network_lib::packet::{
    DecodedEvent, DecodedOperation, DecodedPacket, DecodedUnknown, PacketDirection, PacketMetadata,
    ParamValue, RawParameters, SerializableParameters,
};
use albion_network_lib::photon::parser::{direction, PhotonParser, PhotonParserConfig};
use albion_network_lib::packet::OperationPacketKind;

fn json(text: &str) -> ParamValue {
    parse_json(text).unwrap()
}

fn client() -> Endpoint {
    Endpoint { ip: IpAddress::v4(10, 0, 0, 1), port: 1 }
}

fn server() -> Endpoint {
    Endpoint { ip: IpAddress::v4(10, 0, 0, 2), port: 5056 }
}

fn metadata(packet_number: usize, source: Endpoint, destination: Endpoint) -> PacketMetadata {
    PacketMetadata::new("test".to_string(), packet_number, source, destination)
}

fn item_names() -> ItemNameResolver {
    ItemNameResolver::new(&[
        ("T1_HIDE".to_string(), "Scraps of Hide".to_string()),
        ("T4_HIDE".to_string(), "Adept's Hide".to_string()),
    ])
}

fn codes() -> CodeTable {
    CodeTable::new(
        vec![(2, OperationCode::Join), (75, OperationCode::AuctionBuyOffer)],
        vec![(3, EventCode::Move), (76, EventCode::MarketPlaceNotification)],
    )
}

fn parser_with(capture_unknown_packets: bool) -> PhotonParser {
    PhotonParser::new(PhotonParserConfig::new(
        "test".to_string(),
        false,
        capture_unknown_packets,
        WorldMap::from_embedded().unwrap(),
        item_names(),
        codes(),
    ))
}

fn parser() -> PhotonParser {
    parser_with(false)
}

fn parser_with_unknown_capture() -> PhotonParser {
    parser_with(true)
}

fn parameter<'a>(parameters: &'a SerializableParameters, key: &str) -> Option<&'a ParamValue> {
    parameters
        .entries
        .iter()
        .find(|(k, _)| k == key)
        .map(|(_, v)| v)
}

#[test]
fn metadata_direction_is_server_to_client_when_source_is_albion_port() {
    let localhost = IpAddress::v4(127, 0, 0, 1);
    let metadata = PacketMetadata::new(
        "test".to_string(),
        1,
        Endpoint { ip: localhost, port: 5056 },
        Endpoint { ip: localhost, port: 9999 },
    );

    assert_eq!(metadata.direction, PacketDirection::ServerToClient);
}

#[test]
fn metadata_direction_is_client_to_server_when_destination_is_albion_port() {
    let localhost = IpAddress::v4(127, 0, 0, 1);
    let metadata = PacketMetadata::new(
        "test".to_string(),
        1,
        Endpoint { ip: localhost, port: 9999 },
        Endpoint { ip: localhost, port: 4535 },
    );

    assert_eq!(metadata.direction, PacketDirection::ClientToServer);
}

#[test]
fn metadata_direction_is_unknown_when_neither_endpoint_is_albion_port() {
    let localhost = IpAddress::v4(127, 0, 0, 1);
    let metadata = PacketMetadata::new(
        "test".to_string(),
        1,
        Endpoint { ip: localhost, port: 1000 },
        Endpoint { ip: localhost, port: 2000 },
    );

    assert_eq!(metadata.direction, PacketDirection::Unknown);
}

#[test]
fn text_direction_follows_the_server_port() {
    assert_eq!(direction("server:5056", "client:1"), "server_to_client");
    assert_eq!(direction("client:1", "server:5056"), "client_to_server");
    assert_eq!(direction("a:1", "b:2"), "unknown");
    assert_eq!(direction("a:15056x", "b:4535"), "unknown");
}

#[test]
fn parses_item_name_mappings() {
    let mappings =
        ItemNameResolver::from_json(r#"{"T1_HIDE":"Scraps of Hide","T4_HIDE":"Adept's Hide"}"#)
            .unwrap();

    assert_eq!(mappings.resolve("T1_HIDE"), Some("Scraps of Hide"));
    assert_eq!(mappings.resolve("T4_HIDE"), Some("Adept's Hide"));
    assert_eq!(mappings.resolve("T8_HIDE"), None);
    assert_eq!(mappings.len(), 2);
}

#[test]
fn invalid_item_name_mappings_return_parse_error() {
    assert!(ItemNameResolver::from_json("not json").is_err());
    assert!(ItemNameResolver::from_json(r#"{"T1_HIDE": 3}"#).is_err());
    assert!(ItemNameResolver::from_json("[]").is_err());
}

#[test]
fn unknown_operation_code_errors_when_debug_capture_is_disabled() {
    let mut parser = parser();
    let mut params = RawParameters::empty();
    params.insert(253, json("32767"));

    let error = parser
        .record_operation(OperationPacketKind::Request, params, None, "", metadata(1, client(), server()))
        .unwrap_err();

    assert_eq!(error.0, "Unknown operation code in parameter 253: 32767");
    assert!(parser.decoded_packets().is_empty());
}

#[test]
fn unknown_operation_code_is_captured_when_debug_capture_is_enabled() {
    let mut parser = parser_with_unknown_capture();
    let mut params = RawParameters::empty();
    params.insert(1, json(r#""payload""#));
    params.insert(253, json("32767"));

    parser
        .record_operation(OperationPacketKind::Request, params, None, "", metadata(1, client(), server()))
        .unwrap();

    let DecodedPacket::Unknown(packet) = &parser.decoded_packets()[0] else {
        panic!("expected unknown packet");
    };

    assert_eq!(packet.message_type, "operation_request");
    assert_eq!(packet.kind, "operation_request");
    assert_eq!(packet.code_parameter, 253);
    assert_eq!(packet.raw_code, Some(32_767));
    assert_eq!(packet.reason, "unknown_operation_code");
    assert_eq!(packet.metadata.direction, PacketDirection::ClientToServer);
    assert_eq!(parameter(&packet.parameters, "1"), Some(&json(r#""payload""#)));
}

#[test]
fn unknown_event_code_is_captured_when_debug_capture_is_enabled() {
    let mut parser = parser_with_unknown_capture();
    let mut params = RawParameters::empty();
    params.insert(0, json(r#""payload""#));
    params.insert(252, json("32767"));

    parser
        .record_event(0, params, metadata(1, server(), client()))
        .unwrap();

    let DecodedPacket::Unknown(packet) = &parser.decoded_packets()[0] else {
        panic!("expected unknown packet");
    };

    assert_eq!(packet.message_type, "event");
    assert_eq!(packet.kind, "event");
    assert_eq!(packet.code_parameter, 252);
    assert_eq!(packet.raw_code, Some(32_767));
    assert_eq!(packet.reason, "unknown_event_code");
    assert_eq!(packet.metadata.direction, PacketDirection::ServerToClient);
    assert_eq!(parameter(&packet.parameters, "0"), Some(&json(r#""payload""#)));
}

#[test]
fn missing_codes_are_captured_without_raw_code_when_debug_capture_is_enabled() {
    let mut parser = parser_with_unknown_capture();

    parser
        .record_operation(
            OperationPacketKind::Response,
            RawParameters::empty(),
            Some(0),
            "debug",
            metadata(1, server(), client()),
        )
        .unwrap();
    parser
        .record_event(0, RawParameters::empty(), metadata(2, server(), client()))
        .unwrap();

    let DecodedPacket::Unknown(operation) = &parser.decoded_packets()[0] else {
        panic!("expected unknown operation packet");
    };
    assert_eq!(operation.kind, "operation_response");
    assert_eq!(operation.code_parameter, 253);
    assert_eq!(operation.raw_code, None);
    assert_eq!(operation.reason, "missing_operation_code");
    assert_eq!(operation.return_code, Some(0));
    assert_eq!(operation.debug_message, "debug");

    let DecodedPacket::Unknown(event) = &parser.decoded_packets()[1] else {
        panic!("expected unknown event packet");
    };
    assert_eq!(event.kind, "event");
    assert_eq!(event.code_parameter, 252);
    assert_eq!(event.raw_code, None);
    assert_eq!(event.reason, "missing_event_code");
}

#[test]
fn known_operation_is_recorded_with_what_was_extracted() {
    let mut parser = parser();
    let mut params = RawParameters::empty();
    params.insert(0, json("123"));
    params.insert(2, json(r#""PlayerOne""#));
    params.insert(253, json("2"));

    parser
        .record_operation(OperationPacketKind::Response, params, Some(0), "", metadata(4, server(), client()))
        .unwrap();

    let DecodedPacket::Operation(operation) = &parser.decoded_packets()[0] else {
        panic!("expected operation packet");
    };
    assert_eq!(operation.code, OperationCode::Join);
    assert_eq!(operation.number, 2);
    assert_eq!(operation.name, "Join");
    assert_eq!(operation.message_type, "operation_response");
    assert_eq!(operation.metadata.packet_number, 4);
    assert!(matches!(operation.extracted, Some(ExtractedPacket::JoinResponse(_))));
    assert_eq!(parser.player_state().player_name(), "PlayerOne");
    assert_eq!(parser.player_state().user_object_id(), Some(123));
}

#[test]
fn known_event_is_recorded_with_what_was_extracted() {
    let mut parser = parser();
    let mut params = RawParameters::empty();
    params.insert(0, json(r#"{"message": "sold"}"#));
    params.insert(252, json("76"));

    parser
        .record_event(1, params, metadata(9, server(), client()))
        .unwrap();

    let DecodedPacket::Event(event) = &parser.decoded_packets()[0] else {
        panic!("expected event packet");
    };
    assert_eq!(event.code, EventCode::MarketPlaceNotification);
    assert_eq!(event.name, "MarketPlaceNotification");
    assert!(matches!(
        event.extracted,
        Some(ExtractedPacket::MarketPlaceNotification(_))
    ));
}

#[test]
fn extracted_json_is_explicit_escape_hatch() {
    let packet = DecodedPacket::Operation(DecodedOperation {
        metadata: metadata(1, client(), server()),
        file: "test".to_string(),
        message_type: "operation_request".to_string(),
        code: OperationCode::AuctionBuyOffer,
        number: 75,
        name: OperationCode::AuctionBuyOffer.name().to_string(),
        return_code: None,
        debug_message: String::new(),
        parameters: SerializableParameters { entries: Vec::new() },
        extracted: Some(ExtractedPacket::AuctionBuyOfferRequest(AuctionBuyOffer {
            amount: Some(1),
            cached_order: None,
            order_id: Some(14978117778),
        })),
    });

    let Some(ExtractedPacket::AuctionBuyOfferRequest(request)) = packet.extracted() else {
        panic!("expected auction buy offer request");
    };
    assert_eq!(request.amount, Some(1));
    assert_eq!(request.cached_order, None);
    assert_eq!(request.order_id, Some(14978117778));
}

#[test]
fn event_extracted_json_is_explicit_escape_hatch() {
    let packet = DecodedPacket::Event(DecodedEvent {
        metadata: metadata(1, server(), client()),
        file: "test".to_string(),
        message_type: "event".to_string(),
        code: EventCode::MarketPlaceNotification,
        number: 76,
        name: EventCode::MarketPlaceNotification.name().to_string(),
        return_code: None,
        debug_message: String::new(),
        parameters: SerializableParameters { entries: Vec::new() },
        extracted: Some(ExtractedPacket::MarketPlaceNotification(
            MarketPlaceNotification {
                notification: json(r#"{"message": "sold"}"#),
            },
        )),
    });

    let Some(ExtractedPacket::MarketPlaceNotification(notification)) = packet.extracted() else {
        panic!("expected marketplace notification");
    };
    assert_eq!(notification.notification, json(r#"{"message": "sold"}"#));
}

#[test]
fn unknown_extracted_json_is_none() {
    let packet = DecodedPacket::Unknown(DecodedUnknown {
        metadata: metadata(1, server(), client()),
        file: "test".to_string(),
        message_type: "event".to_string(),
        kind: "event".to_string(),
        code_parameter: 252,
        raw_code: Some(32_767),
        reason: "unknown_event_code".to_string(),
        return_code: None,
        debug_message: String::new(),
        parameters: SerializableParameters { entries: Vec::new() },
    });

    assert!(packet.extracted().is_none());
}

#[test]
fn item_names_read_from_a_parsed_value() {
    let text = |t: &str| ParamValue::Str(t.to_string());
    let value = ParamValue::Object(vec![
        ("T1_HIDE".to_string(), text("Scraps")),
        ("T4_HIDE".to_string(), text("Adept's Hide")),
        ("T1_HIDE".to_string(), text("Scraps of Hide")),
    ]);

    let mappings = ItemNameResolver::from_value(&value).unwrap();
    assert_eq!(mappings.resolve("T1_HIDE"), Some("Scraps of Hide"));
    assert_eq!(mappings.resolve("T4_HIDE"), Some("Adept's Hide"));
    assert_eq!(mappings.len(), 2);

    let empty = ItemNameResolver::from_value(&ParamValue::Object(Vec::new())).unwrap();
    assert_eq!(empty.len(), 0);

    let not_names = ParamValue::Object(vec![("T1_HIDE".to_string(), ParamValue::Null)]);
    assert!(ItemNameResolver::from_value(&not_names).is_err());
    assert!(ItemNameResolver::from_value(&ParamValue::Array(Vec::new())).is_err());
}

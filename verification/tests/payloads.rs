use albion_network_lib::albion::payloads::get_mail_infos::GetMailInfos;
use albion_network_lib::albion::payloads::join_response::JoinResponse;
use albion_network_lib::albion::payloads::joined_chat_channel::JoinedChatChannel;
use albion_network_lib::albion::payloads::left_chat_channel::LeftChatChannel;
use albion_network_lib::albion::payloads::read_mail::ReadMail;
use albion_network_lib::models::{Guid, MailInfoType};
use albion_network_lib::packet::json::parse_json;
use albion_network_lib::packet::{ParamValue, RawParameters};

fn json(text: &str) -> ParamValue {
    parse_json(text).unwrap()
}

fn test_guid() -> Guid {
    Guid {
        data1: 0x12345678,
        data2: 0x1234,
        data3: 0x5678,
        data4: [0x90, 0xab, 0xcd, 0xef, 0x12, 0x34, 0x56, 0x78],
    }
}

#[test]
fn parses_full_get_mail_infos_response() {
    let mut params = RawParameters::empty();
    params.insert(3, json(r#"[101, "102", true, {"ignored": true}]"#));
    params.insert(7, json(r#"["2000", "BLACKBANK-2310"]"#));
    params.insert(
        11,
        json(
            r#"["MARKETPLACE_SELLORDER_FINISHED_SUMMARY",
                "MARKETPLACE_BUYORDER_FINISHED_SUMMARY",
                "unexpected"]"#,
        ),
    );
    params.insert(12, json(r#"[1717171717, "1717171718"]"#));

    let response = GetMailInfos::from_params(&params);

    assert_eq!(response.mail_ids, vec![101, 102, 1]);
    assert_eq!(
        response.location_ids,
        vec!["2000".to_string(), "BLACKBANK-2310".to_string()]
    );
    assert_eq!(
        response.types,
        vec![
            MailInfoType::MarketPlaceSellOrderFinishedSummary,
            MailInfoType::MarketPlaceBuyOrderFinishedSummary,
            MailInfoType::Unknown,
        ]
    );
    assert_eq!(response.received, vec![1_717_171_717, 1_717_171_718]);
}

#[test]
fn missing_or_malformed_params_default_to_empty_vectors() {
    let mut params = RawParameters::empty();
    params.insert(3, json(r#"{"unexpected": true}"#));
    params.insert(7, json("null"));
    params.insert(11, json(r#""unexpected""#));
    params.insert(12, json(r#"[{"ignored": true}]"#));

    let response = GetMailInfos::from_params(&params);

    assert!(response.mail_ids.is_empty());
    assert!(response.location_ids.is_empty());
    assert!(response.types.is_empty());
    assert!(response.received.is_empty());
}

#[test]
fn mail_receipt_ticks_become_unix_milliseconds() {
    let mut params = RawParameters::empty();
    params.insert(12, json("[638532000000000000]"));

    let response = GetMailInfos::from_params(&params);

    assert_eq!(response.received, vec![1_717_603_200_000]);
}

#[test]
fn parses_full_join_response() {
    let mut params = RawParameters::empty();
    params.insert(0, json("42"));
    params.insert(
        1,
        json(r#"{"type_code": 0, "data_hex": "785634123412785690abcdef12345678"}"#),
    );
    params.insert(2, json(r#""TestPlayer""#));
    params.insert(8, json(r#""Bridgewatch""#));
    params.insert(84, json("15000"));

    let response = JoinResponse::from_params(&params);

    assert_eq!(response.player_location, "Bridgewatch");
    assert_eq!(response.player_name.as_deref(), Some("TestPlayer"));
    assert_eq!(response.user_object_id, Some(42));
    assert_eq!(response.user_guid, Some(test_guid()));
    assert_eq!(
        response.global_multiplier_ten_thousandths.map(|m| m as f64 / 10_000.0),
        Some(1.5)
    );
}

#[test]
fn missing_params_use_optional_fields_and_unknown_location() {
    let response = JoinResponse::from_params(&RawParameters::empty());

    assert_eq!(response.player_location, "Unknown");
    assert_eq!(response.player_name, None);
    assert_eq!(response.user_object_id, None);
    assert_eq!(response.user_guid, None);
    assert_eq!(response.global_multiplier_ten_thousandths, None);
}

#[test]
fn object_id_accepts_supported_json_numeric_shapes() {
    for (value, expected) in [
        (json("7"), Some(7)),
        (json(&u32::MAX.to_string()), Some(-1)),
        (json(r#""123""#), Some(123)),
        (json("true"), Some(1)),
        (json(r#"{ "unexpected": true }"#), None),
    ] {
        let mut params = RawParameters::empty();
        params.insert(0, value);

        assert_eq!(JoinResponse::from_params(&params).user_object_id, expected);
    }
}

#[test]
fn parses_guid_from_string() {
    let mut params = RawParameters::empty();
    params.insert(1, json(r#""12345678-1234-5678-90ab-cdef12345678""#));

    assert_eq!(JoinResponse::from_params(&params).user_guid, Some(test_guid()));
}

#[test]
fn malformed_multiplier_is_ignored() {
    let mut params = RawParameters::empty();
    params.insert(84, json(r#"{ "unexpected": true }"#));

    assert_eq!(
        JoinResponse::from_params(&params).global_multiplier_ten_thousandths,
        None
    );
}

#[test]
fn parses_full_joined_chat_channel_response() {
    let mut params = RawParameters::empty();
    params.insert(0, json(r#""2""#));
    params.insert(1, json("42"));

    let response = JoinedChatChannel::from_params(&params);

    assert_eq!(response.chat_index, 2);
    assert_eq!(response.channel_id, 42);
}

#[test]
fn joined_chat_channel_missing_or_malformed_params_use_defaults() {
    let mut params = RawParameters::empty();
    params.insert(0, json("300"));
    params.insert(1, json(r#"{"unexpected": true}"#));

    let response = JoinedChatChannel::from_params(&params);

    assert_eq!(response.chat_index, 0);
    assert_eq!(response.channel_id, 0);
}

#[test]
fn parses_full_left_chat_channel_response() {
    let mut params = RawParameters::empty();
    params.insert(0, json(r#""1856""#));

    let response = LeftChatChannel::from_params(&params);

    assert_eq!(response.channel_id, 1856);
}

#[test]
fn left_chat_channel_missing_or_malformed_params_use_defaults() {
    let mut params = RawParameters::empty();
    params.insert(0, json(r#"{"unexpected": true}"#));

    let response = LeftChatChannel::from_params(&params);

    assert_eq!(response.channel_id, 0);
}

#[test]
fn parses_full_read_mail_response() {
    let mut params = RawParameters::empty();
    params.insert(0, json(r#""42""#));
    params.insert(1, json(r#""mail body""#));

    let response = ReadMail::from_params(&params);

    assert_eq!(response.mail_id, 42);
    assert_eq!(response.mail_string, "mail body");
}

#[test]
fn missing_params_use_defaults() {
    let response = ReadMail::from_params(&RawParameters::empty());

    assert_eq!(response.mail_id, 0);
    assert_eq!(response.mail_string, "");
}

#[test]
fn malformed_params_use_defaults() {
    let mut params = RawParameters::empty();
    params.insert(0, json(r#"{"unexpected": true}"#));
    params.insert(1, json("123"));

    let response = ReadMail::from_params(&params);

    assert_eq!(response.mail_id, 0);
    assert_eq!(response.mail_string, "");
}

#[test]
fn raw_parameters_give_back_what_was_inserted() {
    let mut params = RawParameters::empty();
    assert_eq!(params.insert(5, ParamValue::integer(1)), None);
    assert_eq!(params.insert(5, ParamValue::text("two")), Some(ParamValue::integer(1)));

    assert_eq!(params.get(5), Some(&ParamValue::text("two")));
    assert_eq!(params.get(6), None);
}

use albion_network_lib::albion::codes::{EventCode, OperationCode};
use albion_network_lib::albion::extracted::ExtractedPacket;
use albion_network_lib::albion::extractor::AlbionExtractor;
use albion_network_lib::albion::items::ItemNameResolver;
use albion_network_lib::models::{
    AlbionLocation, AuctionType, ChatChannel, MailInfoType, OperationType, TradeType, WorldMap,
};
use albion_network_lib::packet::json::parse_json;
use albion_network_lib::packet::{OperationPacketKind, ParamValue, RawParameters};
use std::sync::Arc;

use OperationPacketKind::{Request, Response};

fn json(text: &str) -> ParamValue {
    parse_json(text).unwrap()
}

fn params(entries: &[(u8, &str)]) -> RawParameters {
    let mut params = RawParameters::empty();
    for (key, text) in entries {
        params.insert(*key, json(text));
    }
    params
}

fn extractor() -> AlbionExtractor {
    let world_map = Arc::new(WorldMap::from_embedded().unwrap());
    let item_names = ItemNameResolver::new(&[
        ("T1_HIDE".to_string(), "Scraps of Hide".to_string()),
        ("T4_HIDE".to_string(), "Adept's Hide".to_string()),
    ]);
    AlbionExtractor::new(world_map, item_names)
}

fn order_json(
    order_id: i64,
    auction_type: &str,
    item: &str,
    location: &str,
    unit_price_silver: i64,
    distance_fee: i64,
) -> String {
    format!(
        r#"{{
            "Amount": 2,
            "AuctionType": "{auction_type}",
            "BuyerCharacterId": null,
            "BuyerName": null,
            "DistanceFee": {distance_fee},
            "EnchantmentLevel": 0,
            "Expires": "2026-06-22T03:34:16.096699",
            "HasBuyerFetched": false,
            "HasSellerFetched": false,
            "Id": {order_id},
            "IsFinished": false,
            "ItemGroupTypeId": "{item}",
            "ItemTypeId": "{item}",
            "LocationId": {location},
            "QualityLevel": 1,
            "ReferenceId": "7ae09894-4883-479b-932e-ff7914c82855",
            "SellerCharacterId": "07b8fbc0-c512-4054-bc53-12312af94df3",
            "SellerName": "CoelhoMalvado",
            "Tier": 1,
            "TotalPriceSilver": {total},
            "UnitPriceSilver": {unit_price_silver}
        }}"#,
        total = unit_price_silver * 2
    )
}

fn market_order_params_with_price(
    order_id: i64,
    auction_type: &str,
    unit_price_silver: i64,
    distance_fee: i64,
) -> RawParameters {
    let order = order_json(order_id, auction_type, "T1_HIDE", "null", unit_price_silver, distance_fee);
    params(&[(0, &format!("[{order}]"))])
}

fn market_order_params(order_id: i64) -> RawParameters {
    market_order_params_with_price(order_id, "offer", 50_000, 0)
}

fn mail_info_params(mail_id: i64) -> RawParameters {
    params(&[
        (3, &format!("[{mail_id}]")),
        (7, r#"["2000"]"#),
        (11, r#"["MARKETPLACE_SELLORDER_FINISHED_SUMMARY"]"#),
        (12, "[1717171717]"),
    ])
}

fn read_mail_params(mail_id: i64, mail_string: &str) -> RawParameters {
    let mut params = RawParameters::empty();
    params.insert(0, ParamValue::integer(mail_id));
    params.insert(1, ParamValue::text(mail_string));
    params
}

fn bridgewatch() -> AlbionLocation {
    AlbionLocation::with_names("2000", "Bridgewatch", "Bridgewatch")
}

#[test]
fn join_response_updates_player_identity_and_resolved_location() {
    let mut extractor = extractor();
    let params = params(&[(0, "123"), (2, r#""PlayerOne""#), (8, r#""Bridgewatch""#)]);

    let extracted = extractor
        .extract_operation(Response, OperationCode::Join, &params, Some(0))
        .unwrap();

    assert!(matches!(extracted, ExtractedPacket::JoinResponse(_)));

    let state = extractor.player_state();

    assert_eq!(state.user_object_id(), Some(123));
    assert_eq!(state.player_name(), "PlayerOne");
    assert_eq!(state.location().friendly_name(), "Bridgewatch");
    assert_eq!(state.location_id(), Some(2000));
}

#[test]
fn join_response_updates_player_state() {
    let mut extractor = extractor();
    let params = params(&[(0, "123"), (2, r#""PlayerOne""#), (8, r#""Bridgewatch""#)]);

    let extracted = extractor
        .extract_operation(Response, OperationCode::Join, &params, Some(0))
        .unwrap();

    let ExtractedPacket::JoinResponse(response) = extracted else {
        panic!("expected join response");
    };

    assert_eq!(response.player_name.as_deref(), Some("PlayerOne"));
    assert_eq!(extractor.player_state().user_object_id(), Some(123));
    assert_eq!(extractor.player_state().player_name(), "PlayerOne");
    assert_eq!(extractor.player_state().location().friendly_name(), "Bridgewatch");
    assert_eq!(extractor.player_state().location().location_id(), Some(2000));
}

#[test]
fn market_orders_inherit_missing_location_id_from_player_state() {
    let mut extractor = extractor();
    let location = extractor.world_map.resolve_location("Bridgewatch");
    extractor.player_state.set_location(location);

    let first = order_json(14990497605, "offer", "T1_HIDE", "null", 50_000, 0);
    let second = order_json(14990497606, "offer", "T1_HIDE", r#""9999""#, 50_000, 0);
    let params = params(&[(0, &format!("[{first}, {second}]"))]);

    let extracted = extractor
        .extract_operation(Response, OperationCode::AuctionGetOffers, &params, Some(0))
        .unwrap();

    let ExtractedPacket::AuctionGetOffersResponse(response) = extracted else {
        panic!("expected auction get offers response");
    };

    assert_eq!(response.market_orders[0].location, bridgewatch());
    assert_eq!(response.market_orders[1].location, AlbionLocation::unknown());
}

#[test]
fn market_orders_resolve_location_names_from_location_id() {
    let mut extractor = extractor();
    let order = order_json(14978117778, "offer", "T1_HIDE", r#""3008""#, 50_000, 0);
    let params = params(&[(0, &format!("[{order}]"))]);

    let extracted = extractor
        .extract_operation(Response, OperationCode::AuctionGetOffers, &params, Some(0))
        .unwrap();

    let ExtractedPacket::AuctionGetOffersResponse(response) = extracted else {
        panic!("expected auction get offers response");
    };

    assert_eq!(
        response.market_orders[0].location,
        AlbionLocation::with_names("3008", "Martlock Market", "Martlock Market")
    );
    assert_eq!(
        response.market_orders[0].item_name.as_deref(),
        Some("Scraps of Hide")
    );
}

#[test]
fn market_orders_unknown_non_numeric_location_and_unknown_item_become_unknowns() {
    let mut extractor = extractor();
    let order = order_json(
        14978117778,
        "offer",
        "UNKNOWN_ITEM",
        r#""NOT-A-WORLD-INDEX""#,
        50_000,
        0,
    );
    let params = params(&[(0, &format!("[{order}]"))]);

    let extracted = extractor
        .extract_operation(Response, OperationCode::AuctionGetOffers, &params, Some(0))
        .unwrap();

    let ExtractedPacket::AuctionGetOffersResponse(response) = extracted else {
        panic!("expected auction get offers response");
    };

    assert_eq!(response.market_orders[0].location, AlbionLocation::unknown());
    assert_eq!(response.market_orders[0].item_name, None);
}

#[test]
fn auction_operations_return_typed_extracted_packets() {
    let mut extractor = extractor();
    let empty = RawParameters::empty();

    let extracted = extractor
        .extract_operation(Request, OperationCode::AuctionGetOffers, &empty, None)
        .unwrap();
    assert!(matches!(extracted, ExtractedPacket::AuctionGetOffersRequest(_)));

    let extracted = extractor
        .extract_operation(Request, OperationCode::AuctionGetRequests, &empty, None)
        .unwrap();
    assert!(matches!(extracted, ExtractedPacket::AuctionGetRequestsRequest(_)));

    let extracted = extractor
        .extract_operation(
            Response,
            OperationCode::AuctionGetRequests,
            &market_order_params(14978117778),
            Some(0),
        )
        .unwrap();
    assert!(matches!(extracted, ExtractedPacket::AuctionGetRequestsResponse(_)));
    assert_eq!(extractor.market_order_count(), 1);
}

#[test]
fn buy_offer_request_exposes_cached_order_through_typed_default_flow() {
    let mut extractor = extractor();
    extractor
        .extract_operation(
            Response,
            OperationCode::AuctionGetOffers,
            &market_order_params(14978117778),
            Some(0),
        )
        .unwrap();

    let params = params(&[(1, "1"), (2, "14978117778")]);

    let extracted = extractor
        .extract_operation(Request, OperationCode::AuctionBuyOffer, &params, None)
        .unwrap();

    let ExtractedPacket::AuctionBuyOfferRequest(request) = extracted else {
        panic!("expected auction buy offer request");
    };

    assert_eq!(request.amount, Some(1));
    assert_eq!(request.order_id, Some(14978117778));
    assert_eq!(
        request.cached_order.as_ref().map(|order| order.id),
        request.order_id
    );

    let trade = extractor.market_state.take_unconfirmed_trade();
    assert_eq!(trade.as_ref().map(|trade| trade.id), Some(14978117778));
    assert_eq!(
        trade.as_ref().map(|trade| trade.operation.clone()),
        Some(OperationType::Buy)
    );
    assert_eq!(trade.as_ref().and_then(|trade| trade.silver_amount), Some(5));
}

#[test]
fn sell_specific_item_and_trade_response_return_typed_packets() {
    let mut extractor = extractor();
    extractor
        .extract_operation(
            Response,
            OperationCode::AuctionGetRequests,
            &market_order_params_with_price(14977174637, "request", 50_000, 0),
            Some(0),
        )
        .unwrap();

    let params = params(&[(1, "14977174637"), (4, "1")]);

    let extracted = extractor
        .extract_operation(Request, OperationCode::AuctionSellSpecificItem, &params, None)
        .unwrap();
    assert!(matches!(extracted, ExtractedPacket::AuctionSellSpecificItemRequest(_)));

    let extracted = extractor
        .extract_operation(
            Response,
            OperationCode::AuctionSellSpecificItem,
            &RawParameters::empty(),
            Some(0),
        )
        .unwrap();

    let ExtractedPacket::AuctionTradeResponse(response) = extracted else {
        panic!("expected auction trade response");
    };

    assert!(response.success);
    let trade = response.confirmed_trade.as_ref();
    assert_eq!(trade.map(|trade| trade.id), Some(14977174637));
    assert_eq!(
        trade.map(|trade| trade.operation.clone()),
        Some(OperationType::Sell)
    );
    assert_eq!(
        trade.map(|trade| trade.trade_type.clone()),
        Some(TradeType::Instant)
    );
    assert_eq!(trade.and_then(|trade| trade.silver_amount), Some(5));
    assert_eq!(
        trade.and_then(|trade| trade.order.as_ref()).map(|order| order.id),
        Some(14977174637)
    );
}

#[test]
fn trade_request_without_order_id_does_not_create_unconfirmed_trade() {
    let mut extractor = extractor();
    let params = params(&[(1, "1")]);

    let extracted = extractor
        .extract_operation(Request, OperationCode::AuctionBuyOffer, &params, None)
        .unwrap();

    let ExtractedPacket::AuctionBuyOfferRequest(request) = extracted else {
        panic!("expected auction buy offer request");
    };

    assert_eq!(request.amount, Some(1));
    assert_eq!(request.order_id, None);

    let extracted = extractor
        .extract_operation(
            Response,
            OperationCode::AuctionBuyOffer,
            &RawParameters::empty(),
            Some(0),
        )
        .unwrap();

    let ExtractedPacket::AuctionTradeResponse(response) = extracted else {
        panic!("expected auction trade response");
    };

    assert!(response.success);
    assert_eq!(response.confirmed_trade, None);
    assert_eq!(extractor.market_state.take_unconfirmed_trade(), None);
}

#[test]
fn failed_trade_response_confirms_nothing() {
    let mut extractor = extractor();
    extractor
        .extract_operation(
            Response,
            OperationCode::AuctionGetOffers,
            &market_order_params(14978117778),
            Some(0),
        )
        .unwrap();
    let params = params(&[(1, "1"), (2, "14978117778")]);
    extractor
        .extract_operation(Request, OperationCode::AuctionBuyOffer, &params, None)
        .unwrap();

    let extracted = extractor
        .extract_operation(
            Response,
            OperationCode::AuctionBuyOffer,
            &RawParameters::empty(),
            Some(1),
        )
        .unwrap();

    let ExtractedPacket::AuctionTradeResponse(response) = extracted else {
        panic!("expected auction trade response");
    };

    assert!(!response.success);
    assert_eq!(response.confirmed_trade, None);
}

#[test]
fn marketplace_notification_returns_typed_packet() {
    let mut extractor = extractor();
    let params = params(&[(0, r#"{"message": "sold"}"#)]);

    let extracted = extractor
        .extract_event(EventCode::MarketPlaceNotification, &params)
        .unwrap();

    let ExtractedPacket::MarketPlaceNotification(notification) = extracted else {
        panic!("expected marketplace notification");
    };

    assert_eq!(notification.notification, json(r#"{"message": "sold"}"#));
}

#[test]
fn joined_chat_channel_returns_typed_packet() {
    let mut extractor = extractor();
    let params = params(&[(0, "3"), (1, r#""9001""#)]);

    let extracted = extractor
        .extract_event(EventCode::JoinedChatChannel, &params)
        .unwrap();

    let ExtractedPacket::JoinedChatChannel(response) = extracted else {
        panic!("expected joined chat channel");
    };

    assert_eq!(response.chat_index, 3);
    assert_eq!(response.channel_id, 9001);
}

#[test]
fn left_chat_channel_returns_typed_packet() {
    let mut extractor = extractor();
    let params = params(&[(0, r#""1856""#)]);

    let extracted = extractor
        .extract_event(EventCode::LeftChatChannel, &params)
        .unwrap();

    let ExtractedPacket::LeftChatChannel(response) = extracted else {
        panic!("expected left chat channel");
    };

    assert_eq!(response.channel_id, 1856);
}

#[test]
fn joined_chat_channel_state_classifies_chat_messages() {
    let mut extractor = extractor();
    extractor
        .extract_event(EventCode::JoinedChatChannel, &params(&[(0, "29"), (1, "9001")]))
        .unwrap();

    let message_params = params(&[(0, "9001"), (1, r#""Player""#), (2, r#""For the faction""#)]);

    let extracted = extractor
        .extract_event(EventCode::ChatMessage, &message_params)
        .unwrap();

    let ExtractedPacket::ChatMessage(message) = extracted else {
        panic!("expected chat message");
    };

    assert_eq!(message.channel_id, 9001);
    assert_eq!(message.channel_type, ChatChannel::Faction);
}

#[test]
fn left_chat_channel_state_removes_chat_message_classification() {
    let mut extractor = extractor();
    extractor
        .extract_event(EventCode::JoinedChatChannel, &params(&[(0, "29"), (1, "9001")]))
        .unwrap();
    extractor
        .extract_event(EventCode::LeftChatChannel, &params(&[(0, "9001")]))
        .unwrap();

    let message_params = params(&[(0, "9001"), (1, r#""Player""#), (2, r#""No tracked channel""#)]);

    let extracted = extractor
        .extract_event(EventCode::ChatMessage, &message_params)
        .unwrap();

    let ExtractedPacket::ChatMessage(message) = extracted else {
        panic!("expected chat message");
    };

    assert_eq!(message.channel_id, 9001);
    assert_eq!(message.channel_type, ChatChannel::Say);
}

#[test]
fn trade_silver_amount_accounts_for_scaled_distance_fee() {
    let mut extractor = extractor();
    extractor
        .extract_operation(
            Response,
            OperationCode::AuctionGetOffers,
            &market_order_params_with_price(14978117778, "offer", 50_000, 20_000),
            Some(0),
        )
        .unwrap();

    let params = params(&[(1, "3"), (2, "14978117778")]);

    extractor
        .extract_operation(Request, OperationCode::AuctionBuyOffer, &params, None)
        .unwrap();

    assert_eq!(
        extractor
            .market_state
            .take_unconfirmed_trade()
            .and_then(|trade| trade.silver_amount),
        Some(13)
    );
}

#[test]
fn get_mail_infos_then_read_mail_returns_correlated_albion_mail() {
    let mut extractor = extractor();
    extractor.player_state.set_player_name("PlayerOne");

    let extracted = extractor
        .extract_operation(Response, OperationCode::GetMailInfos, &mail_info_params(42), Some(0))
        .unwrap();
    assert!(matches!(extracted, ExtractedPacket::GetMailInfos(_)));

    let extracted = extractor
        .extract_operation(
            Response,
            OperationCode::ReadMail,
            &read_mail_params(42, "2|T4_HIDE|100000|50000"),
            Some(0),
        )
        .unwrap();

    let ExtractedPacket::AlbionMail(mail) = extracted else {
        panic!("expected correlated albion mail");
    };

    assert_eq!(mail.id, 42);
    assert_eq!(mail.location, Some(bridgewatch()));
    assert_eq!(mail.player_name, "PlayerOne");
    assert_eq!(
        mail.info_type,
        MailInfoType::MarketPlaceSellOrderFinishedSummary
    );
    assert_eq!(mail.auction_type, AuctionType::Offer);
    assert_eq!(mail.received, 1_717_171_717);
    assert_eq!(mail.item_id, "T4_HIDE");
    assert_eq!(mail.item_name, "Adept's Hide");
    assert_eq!(extractor.albion_mails().get(&42), Some(&mail));
}

#[test]
fn read_mail_before_get_mail_infos_is_cached_for_later_correlation() {
    let mut extractor = extractor();

    let extracted = extractor.extract_operation(
        Response,
        OperationCode::ReadMail,
        &read_mail_params(42, "mail body"),
        Some(0),
    );
    assert!(extracted.is_none());
    assert!(extractor.albion_mails().is_empty());

    let extracted = extractor
        .extract_operation(Response, OperationCode::GetMailInfos, &mail_info_params(42), Some(0))
        .unwrap();
    assert!(matches!(extracted, ExtractedPacket::GetMailInfos(_)));

    let mail = extractor.albion_mails().get(&42).unwrap();
    assert_eq!(mail.id, 42);
    assert_eq!(mail.location, Some(bridgewatch()));
    assert_eq!(mail.item_name, "");
}

#[test]
fn mail_info_location_ids_are_normalized_before_correlation() {
    let mut extractor = extractor();
    let mut mail_info = mail_info_params(42);
    mail_info.insert(7, json(r#"["location@2000"]"#));

    extractor
        .extract_operation(Response, OperationCode::GetMailInfos, &mail_info, Some(0))
        .unwrap();

    let extracted = extractor
        .extract_operation(
            Response,
            OperationCode::ReadMail,
            &read_mail_params(42, "mail body"),
            Some(0),
        )
        .unwrap();

    let ExtractedPacket::AlbionMail(mail) = extracted else {
        panic!("expected correlated albion mail");
    };

    assert_eq!(mail.location, Some(bridgewatch()));
}

#[test]
fn black_market_mail_location_maps_to_caerleon_index() {
    let mut extractor = extractor();
    let mut mail_info = mail_info_params(42);
    mail_info.insert(7, json(r#"["@BLACK_MARKET"]"#));

    extractor
        .extract_operation(Response, OperationCode::GetMailInfos, &mail_info, Some(0))
        .unwrap();

    let extracted = extractor
        .extract_operation(
            Response,
            OperationCode::ReadMail,
            &read_mail_params(42, "mail body"),
            Some(0),
        )
        .unwrap();

    let ExtractedPacket::AlbionMail(mail) = extracted else {
        panic!("expected correlated albion mail");
    };

    assert_eq!(
        mail.location,
        Some(AlbionLocation::with_names("3003", "Caerleon", "Caerleon"))
    );
}

#[test]
fn incomplete_get_mail_infos_rows_are_skipped_without_panic() {
    let mut extractor = extractor();
    let params = params(&[
        (3, "[42, 43]"),
        (7, r#"["2000"]"#),
        (11, r#"["MARKETPLACE_SELLORDER_FINISHED_SUMMARY"]"#),
        (12, "[]"),
    ]);

    let extracted = extractor
        .extract_operation(Response, OperationCode::GetMailInfos, &params, Some(0))
        .unwrap();

    let ExtractedPacket::GetMailInfos(response) = extracted else {
        panic!("expected get mail infos");
    };

    assert_eq!(response.mail_ids, vec![42, 43]);
    assert!(extractor.albion_mails().is_empty());
}

#[test]
fn mails_are_the_same_whichever_part_comes_first() {
    let mut listing_first = extractor();
    listing_first
        .extract_operation(Response, OperationCode::GetMailInfos, &mail_info_params(7), Some(0))
        .unwrap();
    listing_first.extract_operation(
        Response,
        OperationCode::ReadMail,
        &read_mail_params(7, "2|T4_HIDE|100000|50000"),
        Some(0),
    );

    let mut body_first = extractor();
    body_first.extract_operation(
        Response,
        OperationCode::ReadMail,
        &read_mail_params(7, "2|T4_HIDE|100000|50000"),
        Some(0),
    );
    body_first
        .extract_operation(Response, OperationCode::GetMailInfos, &mail_info_params(7), Some(0))
        .unwrap();

    assert_eq!(listing_first.albion_mails().get(&7), body_first.albion_mails().get(&7));
    assert!(listing_first.albion_mails().get(&7).is_some());
}

use albion_network_lib::albion::CachedOrder;
use albion_network_lib::models::cached_order::CachedOrder as LocatedCachedOrder;
use albion_network_lib::models::{AlbionLocation, AuctionType};
use albion_network_lib::packet::json::parse_json;
use albion_network_lib::packet::ParamValue;

/// An order as the auction house lists it, with `location` as the JSON
/// text of its `LocationId` and `auction_type` as its `AuctionType`.
fn order_json(auction_type: &str, location: &str, extra: &str) -> ParamValue {
    let text = format!(
        r#"{{
            "Amount": 1,
            "AuctionType": "{auction_type}",
            "BuyerCharacterId": null,
            "BuyerName": null,
            "DistanceFee": 0,
            "EnchantmentLevel": 0,
            "Expires": "2026-06-25T07:55:20.513833",
            "HasBuyerFetched": false,
            "HasSellerFetched": false,
            "Id": 14990497605,
            "IsFinished": false,
            "ItemGroupTypeId": "T1_HIDE",
            "ItemTypeId": "T1_HIDE",
            "LocationId": {location},
            "QualityLevel": 1,
            "ReferenceId": "7bf5e58d-b835-4969-acba-297bf80ec287",
            "SellerCharacterId": null,
            "SellerName": null,
            "Tier": 1,
            "TotalPriceSilver": 500000,
            "UnitPriceSilver": 50000{extra}
        }}"#
    );
    parse_json(&text).unwrap()
}

#[test]
fn cached_order_preserves_unknown_auction_type() {
    let order = CachedOrder::from_value(&order_json("custom", "null", "")).unwrap();

    assert_eq!(
        order.auction_type,
        AuctionType::Unknown("custom".to_string())
    );
    assert_eq!(order.item_name, None);

    let located = LocatedCachedOrder::from_value(&order_json(
        "custom",
        "null",
        r#", "LocationName": null, "FriendlyLocationName": null"#,
    ))
    .unwrap();

    assert_eq!(
        located.auction_type,
        AuctionType::Unknown("custom".to_string())
    );
}

#[test]
fn parses_location_id_as_id_only_location() {
    let order = CachedOrder::from_value(&order_json("offer", r#""3008""#, "")).unwrap();

    assert_eq!(order.location, AlbionLocation::from_id("3008"));
}

#[test]
fn missing_or_malformed_location_id_deserializes_as_unknown_location() {
    let order = CachedOrder::from_value(&order_json("offer", "3008", "")).unwrap();

    assert_eq!(order.location, AlbionLocation::unknown());
}

#[test]
fn parses_location_id_as_index_string() {
    let order = LocatedCachedOrder::from_value(&order_json("offer", r#""3008""#, "")).unwrap();

    assert_eq!(order.location_id.as_deref(), Some("3008"));
    assert_eq!(order.location_name, None);
}

#[test]
fn cached_order_reads_every_field() {
    let order = CachedOrder::from_value(&order_json("request", r#""3008""#, "")).unwrap();

    assert_eq!(order.amount, 1);
    assert_eq!(order.auction_type, AuctionType::Request);
    assert_eq!(order.id, 14990497605);
    assert_eq!(order.item_id, "T1_HIDE");
    assert_eq!(order.item_group_type_id, "T1_HIDE");
    assert_eq!(order.expires, "2026-06-25T07:55:20.513833");
    assert_eq!(order.reference_id, "7bf5e58d-b835-4969-acba-297bf80ec287");
    assert_eq!(order.total_price_silver, 500000);
    assert_eq!(order.unit_price_silver, 50000);
    assert_eq!(order.quality_level, 1);
    assert_eq!(order.tier, 1);
    assert!(!order.is_finished);
    assert_eq!(order.seller_name, None);
}

#[test]
fn cached_order_missing_field_or_wrong_shape_is_rejected() {
    let without_amount = parse_json(r#"{"AuctionType": "offer"}"#).unwrap();
    assert_eq!(CachedOrder::from_value(&without_amount), None);
    assert_eq!(CachedOrder::from_value(&ParamValue::integer(3)), None);

    let text_amount = order_json("offer", "null", "");
    let text = match text_amount {
        ParamValue::Object(mut fields) => {
            fields[0].1 = ParamValue::text("1");
            ParamValue::Object(fields)
        }
        other => other,
    };
    assert_eq!(CachedOrder::from_value(&text), None);
}

#[test]
fn cached_order_reads_its_array_form() {
    let array = parse_json(
        r#"[1, "offer", null, null, 0, 0, "2026-06-25T07:55:20.513833", false, false,
            14990497605, false, "T1_HIDE", "T1_HIDE", "3008", 1,
            "7bf5e58d-b835-4969-acba-297bf80ec287", null, "Seller", 1, 500000, 50000]"#,
    )
    .unwrap();

    let order = CachedOrder::from_value(&array).unwrap();
    assert_eq!(order.id, 14990497605);
    assert_eq!(order.auction_type, AuctionType::Offer);
    assert_eq!(order.location, AlbionLocation::from_id("3008"));
    assert_eq!(order.seller_name.as_deref(), Some("Seller"));
    assert_eq!(order.unit_price_silver, 50000);

    let short = parse_json(r#"[1, "offer"]"#).unwrap();
    assert_eq!(CachedOrder::from_value(&short), None);

    let located = parse_json(
        r#"[1, "request", null, null, 0, 0, "2026-06-25T07:55:20.513833", false, false,
            14990497605, false, "T1_HIDE", "T1_HIDE", "3008", "Martlock Market", null, 1,
            "7bf5e58d-b835-4969-acba-297bf80ec287", null, null, 1, 500000, 50000]"#,
    )
    .unwrap();
    let order = LocatedCachedOrder::from_value(&located).unwrap();
    assert_eq!(order.auction_type, AuctionType::Request);
    assert_eq!(order.location_name.as_deref(), Some("Martlock Market"));
    assert_eq!(order.friendly_location_name, None);
}

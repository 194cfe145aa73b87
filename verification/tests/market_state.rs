use albion_network_lib::albion::market_state::{silver_amount, MarketState};
use albion_network_lib::albion::payloads::auction_buy_offer::AuctionBuyOffer;
use albion_network_lib::albion::payloads::auction_sell_specific_item::AuctionSellSpecificItem;
use albion_network_lib::albion::CachedOrder;
use albion_network_lib::models::{AlbionLocation, AuctionType};
use albion_network_lib::packet::{ParamValue, RawParameters};

fn order(id: i64, unit_price_silver: i64, distance_fee: i64) -> CachedOrder {
    CachedOrder {
        amount: 10,
        auction_type: AuctionType::Offer,
        buyer_character_id: None,
        buyer_name: None,
        distance_fee,
        enchantment_level: 0,
        expires: "2026-06-25T07:55:20.513833".to_string(),
        has_buyer_fetched: false,
        has_seller_fetched: false,
        id,
        is_finished: false,
        item_group_type_id: "T1_HIDE".to_string(),
        item_id: "T1_HIDE".to_string(),
        item_name: None,
        location: AlbionLocation::unknown(),
        quality_level: 1,
        reference_id: "7bf5e58d-b835-4969-acba-297bf80ec287".to_string(),
        seller_character_id: None,
        seller_name: None,
        tier: 1,
        total_price_silver: unit_price_silver * 10,
        unit_price_silver,
    }
}

fn params(entries: &[(u8, i64)]) -> RawParameters {
    let mut params = RawParameters::empty();
    for (key, value) in entries {
        params.insert(*key, ParamValue::integer(*value));
    }
    params
}

#[test]
fn buy_offer_reads_amount_from_key_1_and_order_from_key_2() {
    let offer = AuctionBuyOffer::from_params(&params(&[(1, 1), (2, 14978117778)]));

    assert_eq!(
        offer,
        AuctionBuyOffer { amount: Some(1), cached_order: None, order_id: Some(14978117778) }
    );

    let other_keys = AuctionBuyOffer::from_params(&params(&[(4, 1), (0, 14978117778)]));
    assert_eq!(other_keys.amount, None);
    assert_eq!(other_keys.order_id, None);
}

#[test]
fn sell_specific_item_reads_order_from_key_1_and_amount_from_key_4() {
    let sale = AuctionSellSpecificItem::from_params(&params(&[(1, 14977174637), (4, 3)]));

    assert_eq!(sale.order_id, Some(14977174637));
    assert_eq!(sale.amount, Some(3));
    assert_eq!(sale.cached_order, None);
    assert_eq!(sale.tax, None);

    let other_keys = AuctionSellSpecificItem::from_params(&params(&[(0, 14977174637), (2, 3)]));
    assert_eq!(other_keys.order_id, None);
    assert_eq!(other_keys.amount, None);
}

#[test]
fn silver_amount_subtracts_the_fee_and_rounds_down() {
    let priced = order(1, 50_000, 20_000);

    assert_eq!(silver_amount(Some(3), Some(&priced)), Some(13));
    assert_eq!(silver_amount(Some(1), Some(&order(1, 50_000, 0))), Some(5));
    assert_eq!(silver_amount(Some(1), Some(&order(1, 1, 20_000))), Some(-2));
    assert_eq!(silver_amount(None, Some(&priced)), None);
    assert_eq!(silver_amount(Some(3), None), None);
}

#[test]
fn cached_orders_are_counted_once_per_id() {
    let mut market = MarketState::new();
    assert_eq!(market.order_count(), 0);

    market.cache_order(order(1, 100, 0));
    market.cache_order(order(2, 100, 0));
    assert_eq!(market.order_count(), 2);

    market.cache_order(order(1, 300, 0));
    assert_eq!(market.order_count(), 2);
    assert_eq!(market.get_order(1).map(|order| order.unit_price_silver), Some(300));

    market.cache_orders_from_slice(&[order(3, 1, 0), order(2, 7, 0), order(3, 9, 0)]);
    assert_eq!(market.order_count(), 3);
    assert_eq!(market.get_order(3).map(|order| order.unit_price_silver), Some(9));
    assert_eq!(market.get_order(2).map(|order| order.unit_price_silver), Some(7));
    assert_eq!(market.get_order(1).map(|order| order.unit_price_silver), Some(300));
    assert!(market.get_order(4).is_none());
}

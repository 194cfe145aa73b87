use albion_network_lib::models::types::{AuctionType, MailInfoType, OperationType, TradeType};

#[test]
fn auction_type_maps_known_strings_and_preserves_unknowns() {
    assert_eq!(AuctionType::from_str("offer"), AuctionType::Offer);
    assert_eq!(AuctionType::from_str("request"), AuctionType::Request);
    assert_eq!(
        AuctionType::from_str("unexpected"),
        AuctionType::Unknown("unexpected".to_string())
    );
}

#[test]
fn operation_type_correlates_to_auction_type() {
    assert_eq!(
        OperationType::from_auction_type(&AuctionType::Offer, &TradeType::Instant),
        OperationType::Buy
    );
    assert_eq!(
        OperationType::from_auction_type(&AuctionType::Request, &TradeType::Instant),
        OperationType::Sell
    );
    assert_eq!(
        OperationType::from_auction_type(&AuctionType::Offer, &TradeType::Order),
        OperationType::Sell
    );
    assert_eq!(
        OperationType::from_auction_type(&AuctionType::Request, &TradeType::Order),
        OperationType::Buy
    );
    assert_eq!(
        OperationType::from_auction_type(
            &AuctionType::Unknown("weird".to_string()),
            &TradeType::Unknown("weird".to_string())
        ),
        OperationType::Unknown("weird".to_string())
    );
}

#[test]
fn trade_type_maps_known_strings_and_preserves_unknowns() {
    assert_eq!(TradeType::from_str("instant"), TradeType::Instant);
    assert_eq!(TradeType::from_str("order"), TradeType::Order);
    assert_eq!(TradeType::from_str("custom"), TradeType::Unknown("custom".to_string()));
}

#[test]
fn mail_info_type_maps_known_codes_and_defaults_unknowns() {
    assert_eq!(MailInfoType::from_i64(1), MailInfoType::MarketPlaceSellOrderFinishedSummary);
    assert_eq!(MailInfoType::from_i64(2), MailInfoType::MarketPlaceBuyOrderFinishedSummary);
    assert_eq!(MailInfoType::from_i64(99), MailInfoType::Unknown);
}

#[test]
fn mail_info_type_maps_source_strings_and_defaults_unknowns() {
    assert_eq!(
        MailInfoType::from_str("MARKETPLACE_SELLORDER_FINISHED_SUMMARY"),
        MailInfoType::MarketPlaceSellOrderFinishedSummary
    );
    assert_eq!(
        MailInfoType::from_str("marketplace_buyorder_finished_summary"),
        MailInfoType::MarketPlaceBuyOrderFinishedSummary
    );
    assert_eq!(
        MailInfoType::from_str("MARKETPLACE_BUYORDER_EXPIRED_SUMMARY"),
        MailInfoType::MarketPlaceBuyOrderExpiredSummary
    );
    assert_eq!(
        MailInfoType::from_str("MARKETPLACE_SELLORDER_EXPIRED_SUMMARY"),
        MailInfoType::MarketPlaceSellOrderExpiredSummary
    );
    assert_eq!(
        MailInfoType::from_str("BLACKMARKET_SELLORDER_EXPIRED_SUMMARY"),
        MailInfoType::BlackMarketSellOrderExpiredSummary
    );
    assert_eq!(MailInfoType::from_str("unexpected"), MailInfoType::Unknown);
}

#[test]
fn mail_info_type_maps_to_auction_type() {
    assert_eq!(
        MailInfoType::MarketPlaceSellOrderFinishedSummary.auction_type(),
        AuctionType::Offer
    );
    assert_eq!(
        MailInfoType::MarketPlaceBuyOrderFinishedSummary.auction_type(),
        AuctionType::Request
    );
    assert_eq!(
        MailInfoType::Unknown.auction_type(),
        AuctionType::Unknown("unknown_mail_info_type".to_string())
    );
}

#[test]
fn labels_round_trip_through_as_str() {
    assert_eq!(AuctionType::from_str("OFFER").as_str(), "offer");
    assert_eq!(TradeType::Instant.as_str(), "instant");
    assert_eq!(OperationType::from_str("Sell").as_str(), "sell");
    assert_eq!(OperationType::Unknown("x".to_string()).as_str(), "x");
    assert_eq!(MailInfoType::from_i64(5), MailInfoType::BlackMarketSellOrderExpiredSummary);
    assert_eq!(MailInfoType::from_i64(0), MailInfoType::Unknown);
}

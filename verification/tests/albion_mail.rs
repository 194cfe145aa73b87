use albion_network_lib::models::{AlbionLocation, AlbionMail, AuctionType, MailInfoType};

fn bridgewatch() -> AlbionLocation {
    AlbionLocation::with_names("2000", "Bridgewatch", "Bridgewatch")
}

fn mail(info_type: MailInfoType, mail_string: &str) -> AlbionMail {
    AlbionMail::from_correlated(
        42,
        "2000".to_string(),
        "PlayerOne".to_string(),
        info_type,
        1_717_171_717,
        mail_string,
        None,
    )
}

fn unit_silver(mail: &AlbionMail) -> f64 {
    mail.unit_silver_hundredths as f64 / 100.0
}

#[test]
fn builds_first_pass_mail_from_correlated_parts() {
    let mail = AlbionMail::from_correlated(
        42,
        "2000".to_string(),
        "PlayerOne".to_string(),
        MailInfoType::MarketPlaceSellOrderFinishedSummary,
        1_717_171_717,
        "2|T4_HIDE|100000|50000",
        Some(bridgewatch()),
    );

    assert_eq!(mail.id, 42);
    assert_eq!(mail.location_id, "2000");
    assert_eq!(mail.player_name, "PlayerOne");
    assert_eq!(
        mail.info_type,
        MailInfoType::MarketPlaceSellOrderFinishedSummary
    );
    assert_eq!(mail.auction_type, AuctionType::Offer);
    assert_eq!(mail.received, 1_717_171_717);
    assert_eq!(mail.partial_amount, 2);
    assert_eq!(mail.total_amount, 2);
    assert_eq!(mail.item_id, "T4_HIDE");
    assert_eq!(mail.total_silver, 10);
    assert_eq!(unit_silver(&mail), 5.0);
    assert_eq!(mail.total_taxes, 0);
    assert!(mail.is_set);
    assert!(!mail.deleted);
    assert_eq!(mail.location, Some(bridgewatch()));
}

#[test]
fn parses_buy_order_finished_summary() {
    let mail = mail(
        MailInfoType::MarketPlaceBuyOrderFinishedSummary,
        "3|T5_ORE|210000|70000",
    );

    assert_eq!(mail.partial_amount, 3);
    assert_eq!(mail.total_amount, 3);
    assert_eq!(mail.item_id, "T5_ORE");
    assert_eq!(mail.total_silver, 21);
    assert_eq!(unit_silver(&mail), 7.0);
    assert!(mail.is_set);
}

#[test]
fn parses_buy_order_expired_summary() {
    let mail = mail(
        MailInfoType::MarketPlaceBuyOrderExpiredSummary,
        "2|5|900000|T6_FIBER",
    );

    assert_eq!(mail.partial_amount, 2);
    assert_eq!(mail.total_amount, 5);
    assert_eq!(mail.item_id, "T6_FIBER");
    assert_eq!(unit_silver(&mail), 30.0);
    assert_eq!(mail.total_silver, 60);
    assert!(mail.is_set);
}

#[test]
fn normalizes_unit_silver_to_two_decimals_away_from_zero() {
    let mail = mail(
        MailInfoType::MarketPlaceBuyOrderExpiredSummary,
        "2|5|1000050|T6_FIBER",
    );

    assert_eq!(unit_silver(&mail), 33.34);
    assert_eq!(mail.total_silver, 67);
}

#[test]
fn parses_sell_order_expired_summary() {
    let mail = mail(
        MailInfoType::MarketPlaceSellOrderExpiredSummary,
        "4|10|1200000|T7_WOOD",
    );

    assert_eq!(mail.partial_amount, 4);
    assert_eq!(mail.total_amount, 10);
    assert_eq!(mail.item_id, "T7_WOOD");
    assert_eq!(mail.total_silver, 120);
    assert_eq!(unit_silver(&mail), 30.0);
    assert!(mail.is_set);
}

#[test]
fn parses_black_market_sell_order_expired_summary() {
    let mail = mail(
        MailInfoType::BlackMarketSellOrderExpiredSummary,
        "0|10|1200000|T7_WOOD",
    );

    assert_eq!(mail.partial_amount, 0);
    assert_eq!(mail.total_amount, 10);
    assert_eq!(mail.item_id, "T7_WOOD");
    assert_eq!(mail.total_silver, 120);
    assert_eq!(unit_silver(&mail), 0.0);
    assert!(mail.is_set);
}

#[test]
fn malformed_mail_string_sets_default_data() {
    let mail = mail(
        MailInfoType::MarketPlaceSellOrderFinishedSummary,
        "not|enough",
    );

    assert_eq!(mail.partial_amount, 0);
    assert_eq!(mail.total_amount, 0);
    assert_eq!(mail.item_id, "");
    assert_eq!(mail.total_silver, 0);
    assert_eq!(unit_silver(&mail), 0.0);
    assert_eq!(mail.total_taxes, 0);
    assert!(mail.is_set);
}

#[test]
fn unknown_mail_kind_keeps_default_data() {
    let mail = mail(MailInfoType::Unknown, "2|T4_HIDE|100000|50000");

    assert_eq!(mail.auction_type, AuctionType::Unknown("unknown_mail_info_type".to_string()));
    assert_eq!(mail.partial_amount, 0);
    assert_eq!(mail.item_id, "");
    assert!(mail.is_set);
}

#[test]
fn expired_buy_order_with_nothing_remaining_has_no_unit_price() {
    let mail = mail(
        MailInfoType::MarketPlaceBuyOrderExpiredSummary,
        "5|5|900000|T6_FIBER",
    );

    assert_eq!(unit_silver(&mail), 0.0);
    assert_eq!(mail.total_silver, 0);
}

#[test]
fn negative_unit_price_rounds_away_from_zero() {
    let mail = mail(
        MailInfoType::MarketPlaceSellOrderFinishedSummary,
        "1|T4_HIDE|0|-50070",
    );

    assert_eq!(mail.unit_silver_hundredths, -501);
}

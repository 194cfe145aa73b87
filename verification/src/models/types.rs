//! Market and mail vocabulary: auction sides, trade kinds, mail kinds.

use vstd::prelude::*;
use crate::text::{eq_ignore_ascii_case, eq_ignore_case, to_owned_string};

verus! {

/// Which side of the market an order is on. Unrecognised labels are kept.
#[derive(Clone, Debug, PartialEq, Eq)]
pub enum AuctionType {
    Offer,
    Request,
    Unknown(String),
}

/// Whether the player bought or sold. Unrecognised labels are kept.
#[derive(Clone, Debug, PartialEq, Eq)]
pub enum OperationType {
    Buy,
    Sell,
    Unknown(String),
}

/// How a trade happened: against an existing order, or by placing one.
#[derive(Clone, Debug, PartialEq, Eq)]
pub enum TradeType {
    Instant,
    Order,
    Unknown(String),
}

/// The kinds of market mail the game sends.
#[derive(Clone, Copy, Debug, PartialEq, Eq)]
pub enum MailInfoType {
    Unknown,
    MarketPlaceSellOrderFinishedSummary,
    MarketPlaceBuyOrderFinishedSummary,
    MarketPlaceBuyOrderExpiredSummary,
    MarketPlaceSellOrderExpiredSummary,
    BlackMarketSellOrderExpiredSummary,
}

/// What a mail listing tells about one mail before it is read.
#[derive(Clone, Debug, PartialEq, Eq)]
pub struct MailInfoMetadata {
    pub mail_id: i64,
    pub location_id: String,
    pub info_type: MailInfoType,
    pub received: i64,
}

/// Which of two known labels a text names up to ASCII case: 0 for `a`,
/// 1 for `b`, 2 for neither.
pub open spec fn label_choice(s: Seq<char>, a: Seq<char>, b: Seq<char>) -> u8 {
    if eq_ignore_case(s, a) {
        0
    } else if eq_ignore_case(s, b) {
        1
    } else {
        2
    }
}

impl AuctionType {
    pub open spec fn label(&self) -> Seq<char> {
        match self {
            AuctionType::Offer => "offer"@,
            AuctionType::Request => "request"@,
            AuctionType::Unknown(t) => t@,
        }
    }

    /// `offer` and `request` in any ASCII case; any other text is kept as unknown.
    pub fn from_str(value: &str) -> (r: AuctionType)
        ensures
            match label_choice(value@, "offer"@, "request"@) {
                0 => r == AuctionType::Offer,
                1 => r == AuctionType::Request,
                _ => r matches AuctionType::Unknown(t) && t@ == value@,
            },
    {
        if eq_ignore_ascii_case(value, "offer") {
            AuctionType::Offer
        } else if eq_ignore_ascii_case(value, "request") {
            AuctionType::Request
        } else {
            AuctionType::Unknown(to_owned_string(value))
        }
    }

    /// The lower-case label, or the kept text of an unknown type.
    pub fn as_str(&self) -> (r: &str)
        ensures
            r@ == self.label(),
    {
        match self {
            AuctionType::Offer => "offer",
            AuctionType::Request => "request",
            AuctionType::Unknown(t) => t.as_str(),
        }
    }

    /// A copy equal to this one.
    pub fn duplicate(&self) -> (r: AuctionType)
        ensures
            r == *self,
    {
        match self {
            AuctionType::Offer => AuctionType::Offer,
            AuctionType::Request => AuctionType::Request,
            AuctionType::Unknown(t) => AuctionType::Unknown(t.clone()),
        }
    }
}

impl TradeType {
    pub open spec fn label(&self) -> Seq<char> {
        match self {
            TradeType::Instant => "instant"@,
            TradeType::Order => "order"@,
            TradeType::Unknown(t) => t@,
        }
    }

    /// `instant` and `order` in any ASCII case; any other text is kept as unknown.
    pub fn from_str(value: &str) -> (r: TradeType)
        ensures
            match label_choice(value@, "instant"@, "order"@) {
                0 => r == TradeType::Instant,
                1 => r == TradeType::Order,
                _ => r matches TradeType::Unknown(t) && t@ == value@,
            },
    {
        if eq_ignore_ascii_case(value, "instant") {
            TradeType::Instant
        } else if eq_ignore_ascii_case(value, "order") {
            TradeType::Order
        } else {
            TradeType::Unknown(to_owned_string(value))
        }
    }

    /// The lower-case label, or the kept text of an unknown kind.
    pub fn as_str(&self) -> (r: &str)
        ensures
            r@ == self.label(),
    {
        match self {
            TradeType::Instant => "instant",
            TradeType::Order => "order",
            TradeType::Unknown(t) => t.as_str(),
        }
    }

    /// A copy equal to this one.
    pub fn duplicate(&self) -> (r: TradeType)
        ensures
            r == *self,
    {
        match self {
            TradeType::Instant => TradeType::Instant,
            TradeType::Order => TradeType::Order,
            TradeType::Unknown(t) => TradeType::Unknown(t.clone()),
        }
    }
}

/// What the player did in a trade of the given kind on an order of the given
/// side. An instant trade takes the other side of the order (buying from an
/// offer, selling into a request); placing an order is on the order's side
/// reversed as the game labels it. Unknown labels pass through, the trade
/// kind's first.
pub open spec fn spec_operation(auction_type: AuctionType, trade_type: TradeType) -> OperationType {
    match trade_type {
        TradeType::Instant => match auction_type {
            AuctionType::Offer => OperationType::Buy,
            AuctionType::Request => OperationType::Sell,
            AuctionType::Unknown(t) => OperationType::Unknown(t),
        },
        TradeType::Order => match auction_type {
            AuctionType::Offer => OperationType::Sell,
            AuctionType::Request => OperationType::Buy,
            AuctionType::Unknown(t) => OperationType::Unknown(t),
        },
        TradeType::Unknown(t) => OperationType::Unknown(t),
    }
}

impl OperationType {
    pub open spec fn label(&self) -> Seq<char> {
        match self {
            OperationType::Buy => "buy"@,
            OperationType::Sell => "sell"@,
            OperationType::Unknown(t) => t@,
        }
    }

    /// The operation of a trade, as [`spec_operation`] says.
    pub fn from_auction_type(auction_type: &AuctionType, trade_type: &TradeType) -> (r:
        OperationType)
        ensures
            r == spec_operation(*auction_type, *trade_type),
    {
        match trade_type {
            TradeType::Instant => match auction_type {
                AuctionType::Offer => OperationType::Buy,
                AuctionType::Request => OperationType::Sell,
                AuctionType::Unknown(t) => OperationType::Unknown(t.clone()),
            },
            TradeType::Order => match auction_type {
                AuctionType::Offer => OperationType::Sell,
                AuctionType::Request => OperationType::Buy,
                AuctionType::Unknown(t) => OperationType::Unknown(t.clone()),
            },
            TradeType::Unknown(t) => OperationType::Unknown(t.clone()),
        }
    }

    /// `buy` and `sell` in any ASCII case; any other text is kept as unknown.
    pub fn from_str(value: &str) -> (r: OperationType)
        ensures
            match label_choice(value@, "buy"@, "sell"@) {
                0 => r == OperationType::Buy,
                1 => r == OperationType::Sell,
                _ => r matches OperationType::Unknown(t) && t@ == value@,
            },
    {
        if eq_ignore_ascii_case(value, "buy") {
            OperationType::Buy
        } else if eq_ignore_ascii_case(value, "sell") {
            OperationType::Sell
        } else {
            OperationType::Unknown(to_owned_string(value))
        }
    }

    /// The lower-case label, or the kept text of an unknown operation.
    pub fn as_str(&self) -> (r: &str)
        ensures
            r@ == self.label(),
    {
        match self {
            OperationType::Buy => "buy",
            OperationType::Sell => "sell",
            OperationType::Unknown(t) => t.as_str(),
        }
    }

    /// A copy equal to this one.
    pub fn duplicate(&self) -> (r: OperationType)
        ensures
            r == *self,
    {
        match self {
            OperationType::Buy => OperationType::Buy,
            OperationType::Sell => OperationType::Sell,
            OperationType::Unknown(t) => OperationType::Unknown(t.clone()),
        }
    }
}

/// The mail kind that the game's label names, up to ASCII case.
pub open spec fn spec_mail_info_type(s: Seq<char>) -> MailInfoType {
    if eq_ignore_case(s, "MARKETPLACE_SELLORDER_FINISHED_SUMMARY"@) {
        MailInfoType::MarketPlaceSellOrderFinishedSummary
    } else if eq_ignore_case(s, "MARKETPLACE_BUYORDER_FINISHED_SUMMARY"@) {
        MailInfoType::MarketPlaceBuyOrderFinishedSummary
    } else if eq_ignore_case(s, "MARKETPLACE_BUYORDER_EXPIRED_SUMMARY"@) {
        MailInfoType::MarketPlaceBuyOrderExpiredSummary
    } else if eq_ignore_case(s, "MARKETPLACE_SELLORDER_EXPIRED_SUMMARY"@) {
        MailInfoType::MarketPlaceSellOrderExpiredSummary
    } else if eq_ignore_case(s, "BLACKMARKET_SELLORDER_EXPIRED_SUMMARY"@) {
        MailInfoType::BlackMarketSellOrderExpiredSummary
    } else {
        MailInfoType::Unknown
    }
}

/// The side of the market that a mail kind reports on; a mail of unknown
/// kind is on the unknown side labelled `unknown_mail_info_type`.
pub open spec fn is_mail_auction_type(t: MailInfoType, a: AuctionType) -> bool {
    match t {
        MailInfoType::MarketPlaceSellOrderFinishedSummary
        | MailInfoType::MarketPlaceSellOrderExpiredSummary
        | MailInfoType::BlackMarketSellOrderExpiredSummary => a == AuctionType::Offer,
        MailInfoType::MarketPlaceBuyOrderFinishedSummary
        | MailInfoType::MarketPlaceBuyOrderExpiredSummary => a == AuctionType::Request,
        MailInfoType::Unknown => a matches AuctionType::Unknown(l) && l@ == "unknown_mail_info_type"@,
    }
}

impl MailInfoType {
    /// The kind numbered 1 to 5 in the game's order; anything else is unknown.
    pub fn from_i64(value: i64) -> (r: MailInfoType)
        ensures
            r == (if value == 1 {
                MailInfoType::MarketPlaceSellOrderFinishedSummary
            } else if value == 2 {
                MailInfoType::MarketPlaceBuyOrderFinishedSummary
            } else if value == 3 {
                MailInfoType::MarketPlaceBuyOrderExpiredSummary
            } else if value == 4 {
                MailInfoType::MarketPlaceSellOrderExpiredSummary
            } else if value == 5 {
                MailInfoType::BlackMarketSellOrderExpiredSummary
            } else {
                MailInfoType::Unknown
            }),
    {
        match value {
            1 => MailInfoType::MarketPlaceSellOrderFinishedSummary,
            2 => MailInfoType::MarketPlaceBuyOrderFinishedSummary,
            3 => MailInfoType::MarketPlaceBuyOrderExpiredSummary,
            4 => MailInfoType::MarketPlaceSellOrderExpiredSummary,
            5 => MailInfoType::BlackMarketSellOrderExpiredSummary,
            _ => MailInfoType::Unknown,
        }
    }

    /// The kind that the game's label names, as [`spec_mail_info_type`] says.
    pub fn from_str(value: &str) -> (r: MailInfoType)
        ensures
            r == spec_mail_info_type(value@),
    {
        if eq_ignore_ascii_case(value, "MARKETPLACE_SELLORDER_FINISHED_SUMMARY") {
            MailInfoType::MarketPlaceSellOrderFinishedSummary
        } else if eq_ignore_ascii_case(value, "MARKETPLACE_BUYORDER_FINISHED_SUMMARY") {
            MailInfoType::MarketPlaceBuyOrderFinishedSummary
        } else if eq_ignore_ascii_case(value, "MARKETPLACE_BUYORDER_EXPIRED_SUMMARY") {
            MailInfoType::MarketPlaceBuyOrderExpiredSummary
        } else if eq_ignore_ascii_case(value, "MARKETPLACE_SELLORDER_EXPIRED_SUMMARY") {
            MailInfoType::MarketPlaceSellOrderExpiredSummary
        } else if eq_ignore_ascii_case(value, "BLACKMARKET_SELLORDER_EXPIRED_SUMMARY") {
            MailInfoType::BlackMarketSellOrderExpiredSummary
        } else {
            MailInfoType::Unknown
        }
    }

    /// Sell-side kinds report offers, buy-side kinds requests; an unknown
    /// kind gives the unknown auction type `unknown_mail_info_type`.
    pub fn auction_type(self) -> (r: AuctionType)
        ensures
            is_mail_auction_type(self, r),
    {
        match self {
            MailInfoType::MarketPlaceSellOrderFinishedSummary
            | MailInfoType::MarketPlaceSellOrderExpiredSummary
            | MailInfoType::BlackMarketSellOrderExpiredSummary => AuctionType::Offer,
            MailInfoType::MarketPlaceBuyOrderFinishedSummary
            | MailInfoType::MarketPlaceBuyOrderExpiredSummary => AuctionType::Request,
            MailInfoType::Unknown => AuctionType::Unknown(to_owned_string("unknown_mail_info_type")),
        }
    }
}

} // verus!

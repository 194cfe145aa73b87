use vstd::prelude::*;
use crate::albion::cached_order::CachedOrder;
use crate::models::types::{OperationType, TradeType};

verus! {

/// A trade against an existing order, from request to confirmation.
#[derive(Clone, Debug, PartialEq)]
pub struct AuctionTrade {
    pub id: i64,
    pub amount: Option<i64>,
    pub silver_amount: Option<i64>,
    pub operation: OperationType,
    pub timestamp: i64,
    pub trade_type: TradeType,
    pub order: Option<CachedOrder>,
}

/// The answer to a trade request, with the trade when it went through.
#[derive(Clone, Debug, PartialEq)]
pub struct AuctionTradeResponse {
    pub confirmed_trade: Option<AuctionTrade>,
    pub success: bool,
}

} // verus!

use vstd::prelude::*;
use crate::albion::cached_order::CachedOrder;

verus! {

/// The buy orders the player asked to see.
#[derive(Clone, Debug, PartialEq)]
pub struct AuctionGetRequests {
    pub market_order_count: usize,
    pub market_orders: Vec<CachedOrder>,
}

/// The buy orders the auction house listed.
#[derive(Clone, Debug, PartialEq)]
pub struct AuctionGetRequestsResult {
    pub market_order_count: usize,
    pub market_orders: Vec<CachedOrder>,
}

} // verus!

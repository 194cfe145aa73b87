use vstd::prelude::*;
use crate::albion::cached_order::CachedOrder;

verus! {

/// The sell offers the player asked to see.
#[derive(Clone, Debug, PartialEq)]
pub struct AuctionGetOffers {
    pub market_order_count: usize,
    pub market_orders: Vec<CachedOrder>,
}

/// The sell offers the auction house listed.
#[derive(Clone, Debug, PartialEq)]
pub struct AuctionGetOffersResult {
    pub market_order_count: usize,
    pub market_orders: Vec<CachedOrder>,
}

} // verus!

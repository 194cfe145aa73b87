//! What the market side of the game did, as one event.

use vstd::prelude::*;
use crate::albion::payloads::{
    AuctionCreateOrder, AuctionGetOffersResult, AuctionGetRequestsResult, AuctionTrade,
};

verus! {

#[derive(Debug, Clone, PartialEq)]
pub enum AuctionEvent {
    CreateOrder(AuctionCreateOrder),
    InstantTrade(AuctionTrade),
    GetOffers(AuctionGetOffersResult),
    GetRequests(AuctionGetRequestsResult),
}

} // verus!

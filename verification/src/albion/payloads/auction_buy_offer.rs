use vstd::prelude::*;
use crate::albion::cached_order::CachedOrder;
use crate::packet::parameters::RawParameters;
use crate::util::{param_i64, spec_param_i64};

verus! {

/// A request to buy from an existing sell offer.
#[derive(Clone, Debug, PartialEq)]
pub struct AuctionBuyOffer {
    pub amount: Option<i64>,
    pub cached_order: Option<CachedOrder>,
    pub order_id: Option<i64>,
}

impl AuctionBuyOffer {
    /// Amount under key 1 and order under key 2, with no cached order.
    pub fn from_params(parameters: &RawParameters) -> (r: AuctionBuyOffer)
        ensures
            r.amount == spec_param_i64(parameters.view(), 1),
            r.order_id == spec_param_i64(parameters.view(), 2),
            r.cached_order is None,
    {
        AuctionBuyOffer { amount: param_i64(parameters, 1), cached_order: None, order_id: param_i64(parameters, 2) }
    }
}

} // verus!

use vstd::prelude::*;
use crate::albion::cached_order::CachedOrder;
use crate::packet::parameters::RawParameters;
use crate::util::{param_i64, spec_param_i64};

verus! {

/// A request to sell into an existing buy order.
#[derive(Clone, Debug, PartialEq)]
pub struct AuctionSellSpecificItem {
    pub amount: Option<i64>,
    pub order_id: Option<i64>,
    pub cached_order: Option<CachedOrder>,
    /// Not part of the packet; not computed here.
    pub tax: Option<i64>,
}

impl AuctionSellSpecificItem {
    /// Order under key 1 and amount under key 4; no cached order, no tax.
    pub fn from_params(params: &RawParameters) -> (r: AuctionSellSpecificItem)
        ensures
            r.order_id == spec_param_i64(params.view(), 1),
            r.amount == spec_param_i64(params.view(), 4),
            r.cached_order is None,
            r.tax is None,
    {
        AuctionSellSpecificItem {
            amount: param_i64(params, 4),
            cached_order: None,
            order_id: param_i64(params, 1),
            tax: None,
        }
    }
}

} // verus!

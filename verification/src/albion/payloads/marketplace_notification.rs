use vstd::prelude::*;
use crate::packet::parameters::ParamValue;

verus! {

/// A marketplace notification, kept as the game sent it.
#[derive(Debug, PartialEq)]
pub struct MarketPlaceNotification {
    pub notification: ParamValue,
}

} // verus!

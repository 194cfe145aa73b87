use vstd::prelude::*;
use crate::packet::parameters::RawParameters;
use crate::util::{param_i64, spec_param_i64};
use crate::models::albion_mail::div_trunc;

verus! {

#[derive(Debug, Clone, Copy, PartialEq, Eq)]
pub enum CreateOrderKind {
    Buy,
    Sell,
}

/// A buy or sell order the player placed.
#[derive(Debug, Clone, PartialEq, Eq)]
pub struct AuctionCreateOrder {
    pub kind: CreateOrderKind,
    pub market_id: i64,
    pub item_id: i64,
    pub amount: i64,
    pub silver_total: i64,
    pub silver_per_unit: i64,
    pub expiry: Option<i64>,
    /// Not part of the packet: 2.5% of the total, rounded down.
    pub setup_fee: i64,
}

/// An integer parameter, 0 when missing.
pub open spec fn int_or_zero(params: Map<u8, crate::packet::parameters::ParamValue>, key: u8) -> i64 {
    match spec_param_i64(params, key) {
        Some(v) => v,
        None => 0,
    }
}

/// 2.5% of a total, rounded down.
pub open spec fn setup_fee_of(total: i64) -> i64 {
    (total as int / 40) as i64
}

fn setup_fee(total: i64) -> (r: i64)
    ensures
        r == setup_fee_of(total),
{
    if total >= 0 {
        total / 40
    } else {
        let q = total / 40;
        if q * 40 == total {
            q
        } else {
            q - 1
        }
    }
}

impl AuctionCreateOrder {
    /// A buy order: market (key 0), amount (3), item (4), total silver (5);
    /// missing numbers are 0. Silver per unit is the total divided by a
    /// positive amount, else 0.
    pub fn buy_order_from_params(parameters: &RawParameters) -> (r: AuctionCreateOrder)
        ensures
            ({
                let p = parameters.view();
                &&& r.kind == CreateOrderKind::Buy
                &&& r.market_id == int_or_zero(p, 0)
                &&& r.amount == int_or_zero(p, 3)
                &&& r.item_id == int_or_zero(p, 4)
                &&& r.silver_total == int_or_zero(p, 5)
                &&& r.silver_per_unit == (if int_or_zero(p, 3) > 0 {
                    div_trunc(int_or_zero(p, 5) as int, int_or_zero(p, 3) as int) as i64
                } else {
                    0
                })
                &&& r.setup_fee == setup_fee_of(int_or_zero(p, 5))
                &&& r.expiry is None
            }),
    {
        let silver_total = param_i64(parameters, 5).unwrap_or(0);
        let amount = param_i64(parameters, 3).unwrap_or(0);
        let silver_per_unit = if amount > 0 {
            silver_total / amount
        } else {
            0
        };
        AuctionCreateOrder {
            kind: CreateOrderKind::Buy,
            market_id: param_i64(parameters, 0).unwrap_or(0),
            amount,
            item_id: param_i64(parameters, 4).unwrap_or(0),
            silver_total,
            silver_per_unit,
            setup_fee: setup_fee(silver_total),
            expiry: None,
        }
    }

    /// A sell order of one item: market (key 0), expiry (2, kept only when
    /// present), total silver (3), item (4); missing numbers are 0.
    pub fn sell_order_from_params(parameters: &RawParameters) -> (r: AuctionCreateOrder)
        ensures
            ({
                let p = parameters.view();
                &&& r.kind == CreateOrderKind::Sell
                &&& r.amount == 1
                &&& r.market_id == int_or_zero(p, 0)
                &&& r.item_id == int_or_zero(p, 4)
                &&& r.silver_total == int_or_zero(p, 3)
                &&& r.silver_per_unit == int_or_zero(p, 3)
                &&& r.setup_fee == setup_fee_of(int_or_zero(p, 3))
                &&& r.expiry == spec_param_i64(p, 2)
            }),
    {
        let silver_total = param_i64(parameters, 3).unwrap_or(0);
        AuctionCreateOrder {
            kind: CreateOrderKind::Sell,
            amount: 1,
            silver_per_unit: silver_total,
            market_id: param_i64(parameters, 0).unwrap_or(0),
            item_id: param_i64(parameters, 4).unwrap_or(0),
            silver_total,
            setup_fee: setup_fee(silver_total),
            expiry: param_i64(parameters, 2),
        }
    }
}

} // verus!

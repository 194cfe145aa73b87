//! The market orders seen so far, and the instant trade awaiting the
//! server's answer.

use vstd::prelude::*;
use std::collections::HashMap;
use crate::albion::cached_order::CachedOrder;
use crate::albion::payloads::{
    AuctionBuyOffer, AuctionSellSpecificItem, AuctionTrade, AuctionTradeResponse,
};
use crate::clock::now_millis;
use crate::models::albion_mail::clamp_i64;
use crate::models::types::{spec_operation, OperationType, TradeType};
use crate::packet::parameters::RawParameters;
use crate::text::to_owned_string;
use crate::util::spec_param_i64;

verus! {

broadcast use vstd::std_specs::hash::group_hash_axioms;

/// The silver an instant trade moves: `amount` units at the order's unit
/// price less its distance fee, in whole silver (prices are in
/// ten-thousandths), rounded down and limited to the range of `i64`.
/// `None` without an amount or without the order.
pub open spec fn spec_silver_amount(amount: Option<i64>, order: Option<CachedOrder>) -> Option<i64> {
    match (amount, order) {
        (Some(a), Some(o)) => Some(
            clamp_i64((o.unit_price_silver * a - o.distance_fee) / 10_000),
        ),
        _ => None,
    }
}

/// The player's side of an instant trade on the order: the other side of
/// the order ([`spec_operation`]); unknown as `missing_cached_order` when
/// the order was never seen.
pub open spec fn is_trade_operation(op: OperationType, order: Option<CachedOrder>) -> bool {
    match order {
        Some(o) => op == spec_operation(o.auction_type, TradeType::Instant),
        None => op matches OperationType::Unknown(t) && t@ == "missing_cached_order"@,
    }
}

/// `t` is the instant trade on order `id` for `amount` units, started at
/// `now`, against the order as cached (if it was).
pub open spec fn is_instant_trade(
    t: AuctionTrade,
    id: i64,
    amount: Option<i64>,
    order: Option<CachedOrder>,
    now: i64,
) -> bool {
    &&& t.id == id
    &&& t.amount == amount
    &&& t.silver_amount == spec_silver_amount(amount, order)
    &&& is_trade_operation(t.operation, order)
    &&& t.timestamp == now
    &&& t.trade_type == TradeType::Instant
    &&& t.order == order
}

/// What starting an instant trade does: the orders stay; the pending trade
/// becomes the trade on order `order_id` at `now`, against the order as
/// cached, or none without an order id.
pub open spec fn after_begin(
    before: MarketState,
    order_id: Option<i64>,
    amount: Option<i64>,
    now: i64,
    after: MarketState,
) -> bool {
    &&& after.orders() == before.orders()
    &&& match order_id {
        Some(id) => after.unconfirmed() matches Some(t) && is_instant_trade(
            t,
            id,
            amount,
            before.order_of(order_id),
            now,
        ),
        None => after.unconfirmed() is None,
    }
}

/// What the server's answer to a trade does: return code 0 confirms the
/// pending trade (handed out and cleared); any other answer, or none,
/// confirms nothing and leaves it pending. The orders stay.
pub open spec fn after_answer(
    before: MarketState,
    return_code: Option<i16>,
    after: MarketState,
    r: AuctionTradeResponse,
) -> bool {
    &&& r.success == (return_code == Some(0i16))
    &&& after.orders() == before.orders()
    &&& r.success ==> r.confirmed_trade == before.unconfirmed() && after.unconfirmed() is None
    &&& !r.success ==> r.confirmed_trade is None && after.unconfirmed() == before.unconfirmed()
}

/// The orders after caching each of `orders` in turn; a later order with
/// the same id replaces an earlier one.
pub open spec fn cached_all(before: Map<i64, CachedOrder>, orders: Seq<CachedOrder>) -> Map<
    i64,
    CachedOrder,
>
    decreases orders.len(),
{
    if orders.len() == 0 {
        before
    } else {
        cached_all(before, orders.drop_last()).insert(orders.last().id, orders.last())
    }
}

/// The silver of a trade is the unit price times the amount less the
/// distance fee, in ten-thousandths, rounded down; without an amount or
/// an order there is none.
pub proof fn law_silver_amount_floor(a: i64, o: CachedOrder)
    requires
        i64::MIN <= o.unit_price_silver * a - o.distance_fee <= i64::MAX,
    ensures
        spec_silver_amount(None, Some(o)) is None,
        spec_silver_amount(Some(a), None) is None,
        spec_silver_amount(Some(a), Some(o)) matches Some(s) && s * 10_000 <= o.unit_price_silver * a
            - o.distance_fee < s * 10_000 + 10_000,
{
    let x = o.unit_price_silver * a - o.distance_fee;
    vstd::arithmetic::div_mod::lemma_fundamental_div_mod(x, 10_000);
    assert(i64::MIN <= x / 10_000 <= i64::MAX);
}

pub struct MarketState {
    orders_by_id: HashMap<i64, CachedOrder>,
    unconfirmed_trade: Option<AuctionTrade>,
}

/// Silver moved by a trade, as [`spec_silver_amount`] says.
pub fn silver_amount(amount: Option<i64>, cached_order: Option<&CachedOrder>) -> (r: Option<i64>)
    ensures
        r == spec_silver_amount(
            amount,
            match cached_order {
                Some(o) => Some(*o),
                None => None,
            },
        ),
{
    let a = match amount {
        Some(a) => a,
        None => return None,
    };
    let order = match cached_order {
        Some(o) => o,
        None => return None,
    };
    let unit = order.unit_price_silver as i128;
    let a128 = a as i128;
    assert(-0x4000_0000_0000_0000_0000_0000_0000_0000 <= unit * a128
        <= 0x4000_0000_0000_0000_0000_0000_0000_0000) by (nonlinear_arith)
        requires
            -0x8000_0000_0000_0000 <= unit <= 0x7fff_ffff_ffff_ffff,
            -0x8000_0000_0000_0000 <= a128 <= 0x7fff_ffff_ffff_ffff,
    {
        let ua: int = if unit < 0 { -unit } else { unit as int };
        let aa: int = if a128 < 0 { -a128 } else { a128 as int };
        assert(ua * aa <= 0x8000_0000_0000_0000 * 0x8000_0000_0000_0000);
        assert(unit * a128 == ua * aa || unit * a128 == -(ua * aa));
    }
    let x: i128 = unit * a128 - order.distance_fee as i128;
    let q: i128 = if x >= 0 {
        x / 10_000
    } else {
        let y: i128 = -x;
        let c: i128 = (y + 9_999) / 10_000;
        proof {
            let r = (y + 9_999) % 10_000;
            vstd::arithmetic::div_mod::lemma_fundamental_div_mod(y + 9_999, 10_000);
            vstd::arithmetic::div_mod::lemma_fundamental_div_mod_converse(
                x as int,
                10_000,
                -c as int,
                9_999 - r,
            );
        }
        -c
    };
    Some(clamp_exec_i64(q))
}

fn clamp_exec_i64(v: i128) -> (r: i64)
    ensures
        r == clamp_i64(v as int),
{
    if v > i64::MAX as i128 {
        i64::MAX
    } else if v < i64::MIN as i128 {
        i64::MIN
    } else {
        v as i64
    }
}

/// The player's side of an instant trade, as [`is_trade_operation`] says.
fn operation_from_cached_order(cached_order: Option<&CachedOrder>) -> (r: OperationType)
    ensures
        is_trade_operation(
            r,
            match cached_order {
                Some(o) => Some(*o),
                None => None,
            },
        ),
{
    match cached_order {
        Some(order) => OperationType::from_auction_type(&order.auction_type, &TradeType::Instant),
        None => OperationType::Unknown(to_owned_string("missing_cached_order")),
    }
}

impl MarketState {
    /// The orders seen, by order id.
    pub closed spec fn orders(&self) -> Map<i64, CachedOrder> {
        self.orders_by_id@
    }

    /// The instant trade awaiting the server's answer, if any.
    pub closed spec fn unconfirmed(&self) -> Option<AuctionTrade> {
        self.unconfirmed_trade
    }

    /// The cached order with the given id, if any.
    pub open spec fn order_of(&self, id: Option<i64>) -> Option<CachedOrder> {
        match id {
            Some(i) => if self.orders().contains_key(i) {
                Some(self.orders()[i])
            } else {
                None
            },
            None => None,
        }
    }

    /// The cached orders are finitely many.
    pub proof fn lemma_orders_finite(&self)
        ensures
            self.orders().dom().finite(),
    {
        vstd::std_specs::hash::axiom_hashmap_view_finite_dom(self.orders_by_id);
    }

    /// No orders, no trade pending.
    pub fn new() -> (r: MarketState)
        ensures
            r.orders() == Map::<i64, CachedOrder>::empty(),
            r.orders().dom().finite(),
            r.unconfirmed() is None,
    {
        MarketState { orders_by_id: HashMap::new(), unconfirmed_trade: None }
    }

    /// The number of orders cached.
    pub fn order_count(&self) -> (r: usize)
        ensures
            r == self.orders().len(),
    {
        self.orders_by_id.len()
    }

    /// Caches an order under its id, replacing any order cached there.
    pub fn cache_order(&mut self, order: CachedOrder)
        ensures
            final(self).orders() == old(self).orders().insert(order.id, order),
            final(self).orders().dom().finite(),
            final(self).orders().len() == old(self).orders().len() + (if old(self).orders().contains_key(
                order.id,
            ) {
                0int
            } else {
                1int
            }),
            final(self).unconfirmed() == old(self).unconfirmed(),
    {
        proof {
            old(self).lemma_orders_finite();
        }
        let id = order.id;
        self.orders_by_id.insert(order.id, order);
        proof {
            self.lemma_orders_finite();
            assert(self.orders().dom() =~= old(self).orders().dom().insert(id));
        }
    }

    /// Caches each order in turn.
    pub fn cache_orders_from_slice(&mut self, orders: &[CachedOrder])
        ensures
            final(self).orders() == cached_all(old(self).orders(), orders@),
            final(self).orders().dom().finite(),
            final(self).orders().dom() == old(self).orders().dom().union(
                orders@.map_values(|o: CachedOrder| o.id).to_set(),
            ),
            final(self).unconfirmed() == old(self).unconfirmed(),
    {
        let mut i: usize = 0;
        while i < orders.len()
            invariant
                i <= orders.len(),
                self.orders() == cached_all(old(self).orders(), orders@.take(i as int)),
                self.unconfirmed() == old(self).unconfirmed(),
                self.orders().dom() == old(self).orders().dom().union(
                    orders@.take(i as int).map_values(|o: CachedOrder| o.id).to_set(),
                ),
            decreases orders.len() - i,
        {
            assert(orders@.take(i + 1).drop_last() =~= orders@.take(i as int));
            let ghost before = self.orders().dom();
            self.cache_order(orders[i].duplicate());
            proof {
                let ids0 = orders@.take(i as int).map_values(|o: CachedOrder| o.id);
                let ids1 = orders@.take(i + 1).map_values(|o: CachedOrder| o.id);
                assert(ids1 =~= ids0.push(orders@[i as int].id));
                ids0.lemma_push_to_set_commute(orders@[i as int].id);
                assert(self.orders().dom() =~= old(self).orders().dom().union(ids1.to_set()));
            }
            i = i + 1;
        }
        assert(orders@.take(orders.len() as int) =~= orders@);
        proof {
            self.lemma_orders_finite();
        }
    }

    /// The cached order with the given id.
    pub fn get_order(&self, order_id: i64) -> (r: Option<&CachedOrder>)
        ensures
            match r {
                Some(o) => self.order_of(Some(order_id)) == Some(*o),
                None => self.order_of(Some(order_id)) is None,
            },
    {
        self.orders_by_id.get(&order_id)
    }

    /// A copy of the cached order with the given id.
    pub fn get_order_cloned(&self, order_id: i64) -> (r: Option<CachedOrder>)
        ensures
            r == self.order_of(Some(order_id)),
    {
        match self.orders_by_id.get(&order_id) {
            Some(o) => Some(o.duplicate()),
            None => None,
        }
    }

    /// Starts an instant trade at time `now` on the order `order_id`: the
    /// pending trade becomes the trade on that order ([`is_instant_trade`]),
    /// or none without an order id. Returns the order as cached.
    fn begin_instant_trade(&mut self, order_id: Option<i64>, amount: Option<i64>, now: i64) -> (r:
        Option<CachedOrder>)
        ensures
            r == old(self).order_of(order_id),
            after_begin(*old(self), order_id, amount, now, *final(self)),
    {
        let cached_order = match order_id {
            Some(id) => self.get_order_cloned(id),
            None => None,
        };
        self.unconfirmed_trade = match order_id {
            Some(id) => {
                let order = match &cached_order {
                    Some(o) => Some(o.duplicate()),
                    None => None,
                };
                Some(
                    AuctionTrade {
                        id,
                        amount,
                        silver_amount: silver_amount(amount, cached_order.as_ref()),
                        operation: operation_from_cached_order(cached_order.as_ref()),
                        timestamp: now,
                        trade_type: TradeType::Instant,
                        order,
                    },
                )
            },
            None => None,
        };
        cached_order
    }

    /// A request to buy `amount` units from the offer `order_id` at time
    /// `now`: the offer as cached is attached and the instant trade on it is
    /// pending.
    pub fn begin_buy_order_for(&mut self, order_id: Option<i64>, amount: Option<i64>, now: i64) -> (r:
        AuctionBuyOffer)
        ensures
            r.order_id == order_id,
            r.amount == amount,
            r.cached_order == old(self).order_of(order_id),
            after_begin(*old(self), order_id, amount, now, *final(self)),
    {
        let cached_order = self.begin_instant_trade(order_id, amount, now);
        AuctionBuyOffer { amount, cached_order, order_id }
    }

    /// A request to sell `amount` units into the buy order `order_id` at
    /// time `now`: the order as cached is attached and the instant trade on
    /// it is pending.
    pub fn begin_sell_specific_item_for(
        &mut self,
        order_id: Option<i64>,
        amount: Option<i64>,
        now: i64,
    ) -> (r: AuctionSellSpecificItem)
        ensures
            r.order_id == order_id,
            r.amount == amount,
            r.cached_order == old(self).order_of(order_id),
            r.tax is None,
            after_begin(*old(self), order_id, amount, now, *final(self)),
    {
        let cached_order = self.begin_instant_trade(order_id, amount, now);
        AuctionSellSpecificItem { amount, order_id, cached_order, tax: None }
    }

    /// A request to buy from an offer, read from its parameters (amount
    /// under key 1, order id under key 2) at time `now`: the offer as cached is
    /// attached and the instant trade on it is pending.
    pub fn begin_buy_order_request_at(&mut self, parameters: &RawParameters, now: i64) -> (r:
        AuctionBuyOffer)
        ensures
            r.order_id == spec_param_i64(parameters.view(), 2),
            r.amount == spec_param_i64(parameters.view(), 1),
            r.cached_order == old(self).order_of(r.order_id),
            after_begin(*old(self), r.order_id, r.amount, now, *final(self)),
    {
        let mut buy_item = AuctionBuyOffer::from_params(parameters);
        let cached_order = self.begin_instant_trade(buy_item.order_id, buy_item.amount, now);
        buy_item.cached_order = cached_order;
        buy_item
    }

    /// [`Self::begin_buy_order_request_at`] at the current time; the pending
    /// trade's time stamp is the clock's reading.
    pub fn begin_buy_order_request(&mut self, parameters: &RawParameters) -> (r: AuctionBuyOffer)
        ensures
            r.order_id == spec_param_i64(parameters.view(), 2),
            r.amount == spec_param_i64(parameters.view(), 1),
            r.cached_order == old(self).order_of(r.order_id),
            exists|now: i64| after_begin(*old(self), r.order_id, r.amount, now, *final(self)),
    {
        let now = now_millis();
        self.begin_buy_order_request_at(parameters, now)
    }

    /// A request to sell into a buy order, read from its parameters (order
    /// id under key 1, amount under key 4) at time `now`: the order as cached is attached and the instant trade on
    /// it is pending.
    pub fn begin_sell_specific_item_request_at(&mut self, parameters: &RawParameters, now: i64) -> (r:
        AuctionSellSpecificItem)
        ensures
            r.order_id == spec_param_i64(parameters.view(), 1),
            r.amount == spec_param_i64(parameters.view(), 4),
            r.cached_order == old(self).order_of(r.order_id),
            r.tax is None,
            after_begin(*old(self), r.order_id, r.amount, now, *final(self)),
    {
        let mut sell_item = AuctionSellSpecificItem::from_params(parameters);
        let cached_order = self.begin_instant_trade(sell_item.order_id, sell_item.amount, now);
        sell_item.cached_order = cached_order;
        sell_item
    }

    /// [`Self::begin_sell_specific_item_request_at`] at the current time; the
    /// pending trade's time stamp is the clock's reading.
    pub fn begin_sell_specific_item_request(&mut self, parameters: &RawParameters) -> (r:
        AuctionSellSpecificItem)
        ensures
            r.order_id == spec_param_i64(parameters.view(), 1),
            r.amount == spec_param_i64(parameters.view(), 4),
            r.cached_order == old(self).order_of(r.order_id),
            r.tax is None,
            exists|now: i64| after_begin(*old(self), r.order_id, r.amount, now, *final(self)),
    {
        let now = now_millis();
        self.begin_sell_specific_item_request_at(parameters, now)
    }

    /// The server's answer to the pending trade: return code 0 confirms it
    /// (the pending trade is handed out and cleared); any other answer, or
    /// none, confirms nothing and leaves it pending.
    pub fn finish_instant_trade_response(&mut self, return_code: Option<i16>) -> (r:
        AuctionTradeResponse)
        ensures
            after_answer(*old(self), return_code, *final(self), r),
    {
        let success = match return_code {
            Some(c) => c == 0,
            None => false,
        };
        let confirmed_trade = if success {
            self.take_unconfirmed_trade()
        } else {
            None
        };
        AuctionTradeResponse { confirmed_trade, success }
    }

    /// Hands out the pending trade and clears it.
    pub fn take_unconfirmed_trade(&mut self) -> (r: Option<AuctionTrade>)
        ensures
            r == old(self).unconfirmed(),
            final(self).unconfirmed() is None,
            final(self).orders() == old(self).orders(),
    {
        self.unconfirmed_trade.take()
    }

    /// Drops the pending trade.
    pub fn clear_unconfirmed_trade(&mut self)
        ensures
            final(self).unconfirmed() is None,
            final(self).orders() == old(self).orders(),
    {
        self.unconfirmed_trade = None;
    }
}

/// Confirming a trade request hands out the trade it started, against the
/// order as cached when the request was made, and nothing stays pending; any
/// other answer confirms nothing and keeps the trade pending.
pub proof fn law_confirm_after_request(
    s0: MarketState,
    id: i64,
    amount: Option<i64>,
    now: i64,
    s1: MarketState,
    return_code: Option<i16>,
    s2: MarketState,
    r: AuctionTradeResponse,
)
    requires
        after_begin(s0, Some(id), amount, now, s1),
        after_answer(s1, return_code, s2, r),
    ensures
        return_code == Some(0i16) ==> (r.confirmed_trade matches Some(t) && is_instant_trade(
            t,
            id,
            amount,
            s0.order_of(Some(id)),
            now,
        )) && s2.unconfirmed() is None,
        return_code != Some(0i16) ==> r.confirmed_trade is None && s2.unconfirmed()
            == s1.unconfirmed(),
        s2.orders() == s0.orders(),
{
}

} // verus!

//! Market mail: the listing's metadata joined with the mail's body text.
//!
//! Silver per unit is kept in hundredths of a silver, rounded half away
//! from zero, as the game shows it to two decimals.

use vstd::prelude::*;
use crate::models::albion_location::AlbionLocation;
use crate::models::types::{MailInfoType, AuctionType, is_mail_auction_type};
use crate::text::{chars_of, parse_i32_chars, parse_i64_chars, spec_parse_int, split_chars, split_seq, string_from_chars};

verus! {

#[derive(Clone, Debug, PartialEq)]
pub struct AlbionMail {
    pub id: i64,
    pub location_id: String,
    pub player_name: String,
    pub info_type: MailInfoType,
    pub auction_type: AuctionType,
    pub received: i64,
    pub server_id: i32,
    pub partial_amount: i32,
    pub total_amount: i32,
    pub item_id: String,
    pub total_silver: i64,
    /// Silver per unit, in hundredths.
    pub unit_silver_hundredths: i64,
    /// Tax rate, in hundredths of a percent.
    pub taxes_percent_hundredths: i64,
    pub total_taxes: i64,
    pub is_set: bool,
    pub deleted: bool,
    pub item_name: String,
    pub location: Option<AlbionLocation>,
}

/// The integer nearest to `n / d` (for `d != 0`), halves away from zero.
pub open spec fn div_round(n: int, d: int) -> int {
    let m = (2 * abs(n) + abs(d)) / (2 * abs(d));
    if (n < 0) != (d < 0) {
        -m
    } else {
        m
    }
}

pub open spec fn abs(v: int) -> int {
    if v < 0 {
        -v
    } else {
        v
    }
}

/// `v` limited to the range of `i64`.
pub open spec fn clamp_i64(v: int) -> i64 {
    if v > i64::MAX {
        i64::MAX
    } else if v < i64::MIN {
        i64::MIN
    } else {
        v as i64
    }
}

/// Quotient rounded toward zero, as Rust's `/` on integers.
pub open spec fn div_trunc(n: int, d: int) -> int {
    if n >= 0 {
        n / d
    } else {
        -((-n) / d)
    }
}

/// What a mail body says: partial amount, total amount, item id, total
/// silver, silver per unit in hundredths.
pub type MailFigures = (i32, i32, Seq<char>, i64, i64);

pub open spec fn i32_of(t: Seq<char>) -> Option<int> {
    spec_parse_int(t, i32::MIN as int, i32::MAX as int)
}

pub open spec fn i64_of(t: Seq<char>) -> Option<int> {
    spec_parse_int(t, i64::MIN as int, i64::MAX as int)
}

/// The figures of a mail body, by mail kind. The body is `|`-separated:
/// finished orders are `amount|item|total|unit`, expired buy orders
/// `bought|ordered|refund|item`, expired sell orders `sold|listed|total|item`;
/// money is in ten-thousandths of a silver. `None` when a field is missing
/// or not a number.
pub open spec fn spec_mail_figures(info_type: MailInfoType, body: Seq<char>) -> Option<MailFigures> {
    let parts = split_seq(body, '|');
    match info_type {
        MailInfoType::MarketPlaceSellOrderFinishedSummary
        | MailInfoType::MarketPlaceBuyOrderFinishedSummary => {
            if parts.len() >= 4 && i32_of(parts[0]) is Some && i64_of(parts[2]) is Some && i64_of(
                parts[3],
            ) is Some {
                let partial = i32_of(parts[0])->Some_0;
                let total_silver = div_trunc(i64_of(parts[2])->Some_0, 10_000);
                let unit = div_round(i64_of(parts[3])->Some_0, 100);
                Some((partial as i32, partial as i32, parts[1], total_silver as i64, unit as i64))
            } else {
                None
            }
        },
        MailInfoType::MarketPlaceBuyOrderExpiredSummary => {
            if parts.len() >= 4 && i32_of(parts[0]) is Some && i32_of(parts[1]) is Some && i64_of(
                parts[2],
            ) is Some {
                let partial = i32_of(parts[0])->Some_0;
                let total = i32_of(parts[1])->Some_0;
                let refund = i64_of(parts[2])->Some_0;
                let remaining = total - partial;
                let unit = if remaining > 0 {
                    div_round(refund, 100 * remaining)
                } else {
                    0
                };
                let total_silver = clamp_i64(div_round(unit * partial, 100));
                Some((partial as i32, total as i32, parts[3], total_silver, unit as i64))
            } else {
                None
            }
        },
        MailInfoType::MarketPlaceSellOrderExpiredSummary
        | MailInfoType::BlackMarketSellOrderExpiredSummary => {
            if parts.len() >= 4 && i32_of(parts[0]) is Some && i32_of(parts[1]) is Some && i64_of(
                parts[2],
            ) is Some {
                let partial = i32_of(parts[0])->Some_0;
                let total = i32_of(parts[1])->Some_0;
                let total_silver = div_trunc(i64_of(parts[2])->Some_0, 10_000);
                let unit = if partial == 0 {
                    0
                } else {
                    div_round(total_silver * 100, partial)
                };
                Some((partial as i32, total as i32, parts[3], total_silver as i64, unit as i64))
            } else {
                None
            }
        },
        MailInfoType::Unknown => Some((0i32, 0i32, Seq::empty(), 0i64, 0i64)),
    }
}

/// Rounds `n / d` to the nearest integer, halves away from zero.
fn div_round_exec(n: i128, d: i128) -> (r: i128)
    requires
        d != 0,
        -0x1_0000_0000_0000_0000_0000_0000 <= d <= 0x1_0000_0000_0000_0000_0000_0000,
        -0x1_0000_0000_0000_0000_0000_0000 <= n <= 0x1_0000_0000_0000_0000_0000_0000,
    ensures
        r == div_round(n as int, d as int),
        -abs(n as int) <= r <= abs(n as int),
{
    let a: i128 = if n < 0 { -n } else { n };
    let b: i128 = if d < 0 { -d } else { d };
    let m = (2 * a + b) / (2 * b);
    proof {
        lemma_round_quotient_bound(a as int, b as int);
    }
    if (n < 0) != (d < 0) {
        -m
    } else {
        m
    }
}

proof fn lemma_round_quotient_bound(a: int, b: int)
    requires
        a >= 0,
        b >= 1,
    ensures
        0 <= (2 * a + b) / (2 * b) <= a,
{
    let x = 2 * a + b;
    let y = 2 * b;
    let q = x / y;
    vstd::arithmetic::div_mod::lemma_fundamental_div_mod(x, y);
    assert(0 <= x % y < y);
    assert(x == y * q + x % y);
    assert(0 <= q <= a) by (nonlinear_arith)
        requires
            a >= 0,
            b >= 1,
            x == 2 * a + b,
            y == 2 * b,
            x == y * q + x % y,
            0 <= x % y < y,
    {
        if q > a {
            assert(y * q >= y * (a + 1));
        }
        if q < 0 {
            assert(y * q <= -y);
        }
    }
}

fn clamp_exec(v: i128) -> (r: i64)
    ensures
        r == clamp_i64(v as int),
{
    if v > i64::MAX as i128 {
        i64::MAX
    } else if v < i64::MIN as i128 {
        i64::MIN
    } else {
        v as i64
    }
}

/// Reads a mail body as [`spec_mail_figures`] says.
pub fn mail_figures(info_type: MailInfoType, body: &str) -> (r: Option<(i32, i32, String, i64, i64)>)
    ensures
        match r {
            Some((a, b, item, silver, unit)) => spec_mail_figures(info_type, body@) == Some(
                (a, b, item@, silver, unit),
            ),
            None => spec_mail_figures(info_type, body@) is None,
        },
{
    let cs = chars_of(body);
    let parts = split_chars(&cs, '|');
    let ghost ps = split_seq(body@, '|');
    match info_type {
        MailInfoType::MarketPlaceSellOrderFinishedSummary
        | MailInfoType::MarketPlaceBuyOrderFinishedSummary => {
            if parts.len() < 4 {
                return None;
            }
            let partial = match parse_i32_chars(&parts[0]) {
                Some(v) => v,
                None => return None,
            };
            let total = match parse_i64_chars(&parts[2]) {
                Some(v) => v,
                None => return None,
            };
            let unit = match parse_i64_chars(&parts[3]) {
                Some(v) => v,
                None => return None,
            };
            let total_silver = total / 10_000;
            let unit_h = div_round_exec(unit as i128, 100);
            proof {
                assert(parts@[0]@ == ps[0]);
                assert(parts@[2]@ == ps[2]);
                assert(parts@[3]@ == ps[3]);
                assert(parts@[1]@ == ps[1]);
            }
            let item = string_from_chars(&parts[1]);
            Some((partial, partial, item, total_silver, unit_h as i64))
        },
        MailInfoType::MarketPlaceBuyOrderExpiredSummary => {
            if parts.len() < 4 {
                return None;
            }
            let partial = match parse_i32_chars(&parts[0]) {
                Some(v) => v,
                None => return None,
            };
            let total = match parse_i32_chars(&parts[1]) {
                Some(v) => v,
                None => return None,
            };
            let refund = match parse_i64_chars(&parts[2]) {
                Some(v) => v,
                None => return None,
            };
            proof {
                assert(parts@[0]@ == ps[0]);
                assert(parts@[1]@ == ps[1]);
                assert(parts@[2]@ == ps[2]);
                assert(parts@[3]@ == ps[3]);
            }
            let remaining: i64 = total as i64 - partial as i64;
            let unit_h: i128 = if remaining > 0 {
                div_round_exec(refund as i128, 100 * remaining as i128)
            } else {
                0
            };
            assert(-0x8000_0000_0000_0000 <= unit_h <= 0x8000_0000_0000_0000);
            let p128 = partial as i128;
            assert(-0x1_0000_0000_0000_0000_0000_0000 <= unit_h * p128 <= 0x1_0000_0000_0000_0000_0000_0000)
                by (nonlinear_arith)
                requires
                    -0x8000_0000_0000_0000 <= unit_h <= 0x8000_0000_0000_0000,
                    -0x8000_0000 <= p128 <= 0x8000_0000,
            {
                assert(abs(unit_h * p128) == abs(unit_h as int) * abs(p128 as int));
                assert(abs(unit_h as int) * abs(p128 as int) <= 0x8000_0000_0000_0000 * 0x8000_0000);
            }
            let total_silver = clamp_exec(div_round_exec(unit_h * p128, 100));
            let item = string_from_chars(&parts[3]);
            Some((partial, total, item, total_silver, unit_h as i64))
        },
        MailInfoType::MarketPlaceSellOrderExpiredSummary
        | MailInfoType::BlackMarketSellOrderExpiredSummary => {
            if parts.len() < 4 {
                return None;
            }
            let partial = match parse_i32_chars(&parts[0]) {
                Some(v) => v,
                None => return None,
            };
            let total = match parse_i32_chars(&parts[1]) {
                Some(v) => v,
                None => return None,
            };
            let raw = match parse_i64_chars(&parts[2]) {
                Some(v) => v,
                None => return None,
            };
            proof {
                assert(parts@[0]@ == ps[0]);
                assert(parts@[1]@ == ps[1]);
                assert(parts@[2]@ == ps[2]);
                assert(parts@[3]@ == ps[3]);
            }
            let total_silver = raw / 10_000;
            let unit_h: i128 = if partial == 0 {
                0
            } else {
                div_round_exec(total_silver as i128 * 100, partial as i128)
            };
            let item = string_from_chars(&parts[3]);
            Some((partial, total, item, total_silver, unit_h as i64))
        },
        MailInfoType::Unknown => Some((0, 0, String::new(), 0, 0)),
    }
}

/// The figures a mail carries: those of its body, or all zero and no item
/// when the body does not read.
pub open spec fn figures_or_default(info_type: MailInfoType, body: Seq<char>) -> MailFigures {
    match spec_mail_figures(info_type, body) {
        Some(f) => f,
        None => (0i32, 0i32, Seq::empty(), 0i64, 0i64),
    }
}

impl AlbionMail {
    /// A mail from its listing metadata and its body text. The kind decides
    /// the auction side and how the body reads ([`spec_mail_figures`]); a
    /// body that does not read leaves the figures at zero. The mail is marked
    /// set, not deleted, with no taxes and no item name yet.
    pub fn from_correlated(
        id: i64,
        location_id: String,
        player_name: String,
        info_type: MailInfoType,
        received: i64,
        mail_string: &str,
        location: Option<AlbionLocation>,
    ) -> (r: AlbionMail)
        ensures
            r.id == id,
            r.location_id == location_id,
            r.player_name == player_name,
            r.info_type == info_type,
            is_mail_auction_type(info_type, r.auction_type),
            r.received == received,
            r.server_id == 0,
            r.partial_amount == figures_or_default(info_type, mail_string@).0,
            r.total_amount == figures_or_default(info_type, mail_string@).1,
            r.item_id@ == figures_or_default(info_type, mail_string@).2,
            r.total_silver == figures_or_default(info_type, mail_string@).3,
            r.unit_silver_hundredths == figures_or_default(info_type, mail_string@).4,
            r.taxes_percent_hundredths == 0,
            r.total_taxes == 0,
            r.is_set,
            !r.deleted,
            r.item_name@ == Seq::<char>::empty(),
            r.location == location,
    {
        let (partial_amount, total_amount, item_id, total_silver, unit) = match mail_figures(
            info_type,
            mail_string,
        ) {
            Some(f) => f,
            None => (0, 0, String::new(), 0, 0),
        };
        AlbionMail {
            id,
            location_id,
            player_name,
            info_type,
            auction_type: info_type.auction_type(),
            received,
            server_id: 0,
            partial_amount,
            total_amount,
            item_id,
            total_silver,
            unit_silver_hundredths: unit,
            taxes_percent_hundredths: 0,
            total_taxes: 0,
            is_set: true,
            deleted: false,
            item_name: String::new(),
            location,
        }
    }
}

impl AlbionMail {
    /// A copy equal to this one.
    pub fn duplicate(&self) -> (r: AlbionMail)
        ensures
            r == *self,
    {
        AlbionMail {
            id: self.id,
            location_id: self.location_id.clone(),
            player_name: self.player_name.clone(),
            info_type: self.info_type,
            auction_type: self.auction_type.duplicate(),
            received: self.received,
            server_id: self.server_id,
            partial_amount: self.partial_amount,
            total_amount: self.total_amount,
            item_id: self.item_id.clone(),
            total_silver: self.total_silver,
            unit_silver_hundredths: self.unit_silver_hundredths,
            taxes_percent_hundredths: self.taxes_percent_hundredths,
            total_taxes: self.total_taxes,
            is_set: self.is_set,
            deleted: self.deleted,
            item_name: self.item_name.clone(),
            location: match &self.location {
                Some(l) => Some(l.duplicate()),
                None => None,
            },
        }
    }
}

proof fn lemma_div_round_nearest(n: int, d: int)
    requires
        d > 0,
    ensures
        2 * abs(div_round(n, d) * d - n) <= d,
        abs(div_round(n, d)) <= abs(n),
{
    let a = abs(n);
    let x = 2 * a + d;
    let y = 2 * d;
    let q = x / y;
    vstd::arithmetic::div_mod::lemma_fundamental_div_mod(x, y);
    lemma_round_quotient_bound(a, d);
    assert(2 * abs(q * d - a) <= d) by (nonlinear_arith)
        requires
            x == 2 * a + d,
            y == 2 * d,
            x == y * q + x % y,
            0 <= x % y < y,
            d > 0,
    {
    }
    if n < 0 {
        assert(div_round(n, d) == -q);
        assert((-q) * d - n == -(q * d - a)) by (nonlinear_arith)
            requires
                a == -n,
        {
        }
    } else {
        assert(div_round(n, d) == q);
    }
}

/// The mail of an expired sell order, on the market or the black market,
/// prices what was sold: with `p > 0` units sold for `s` silver, the price
/// per unit in hundredths is `100 * s / p` rounded to the nearest
/// (within half a hundredth of a silver per unit).
pub proof fn law_expired_sell_unit_price(info_type: MailInfoType, body: Seq<char>)
    requires
        info_type is MarketPlaceSellOrderExpiredSummary || info_type is BlackMarketSellOrderExpiredSummary,
        spec_mail_figures(info_type, body) is Some,
        spec_mail_figures(info_type, body)->Some_0.0 > 0,
    ensures
        ({
            let (p, _, _, s, u) = spec_mail_figures(info_type, body)->Some_0;
            2 * abs(u * p - 100 * s) <= p
        }),
{
    let parts = split_seq(body, '|');
    let partial = i32_of(parts[0])->Some_0;
    let raw = i64_of(parts[2])->Some_0;
    let total_silver = div_trunc(raw, 10_000);
    assert(-1_000_000_000_000_000int <= total_silver <= 1_000_000_000_000_000int) by {
        if raw >= 0 {
            assert(0 <= raw / 10_000 <= 1_000_000_000_000_000int) by (nonlinear_arith)
                requires
                    0 <= raw <= 0x7fff_ffff_ffff_ffffint,
            {
            }
        } else {
            assert(0 <= (-raw) / 10_000 <= 1_000_000_000_000_000int) by (nonlinear_arith)
                requires
                    0 < -raw <= 0x8000_0000_0000_0000int,
            {
            }
        }
    }
    lemma_div_round_nearest(total_silver * 100, partial);
    let unit = div_round(total_silver * 100, partial);
    assert(total_silver as i64 == total_silver);
    assert(unit as i64 == unit);
    assert(partial as i32 == partial);
}

/// Both kinds of expired sell order mail, on the market and on the black
/// market, are read the same way from the same body.
pub proof fn law_expired_sell_kinds_agree(body: Seq<char>)
    ensures
        spec_mail_figures(MailInfoType::MarketPlaceSellOrderExpiredSummary, body) == spec_mail_figures(
            MailInfoType::BlackMarketSellOrderExpiredSummary,
            body,
        ),
{
}

} // verus!

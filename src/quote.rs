//! Buy and sell quotes placed symmetrically around the mid price.

use crate::api::Ticker;
use vstd::prelude::*;

verus! {

/// Parts per million in one whole.
pub const PPM: u64 = 1_000_000;

/// The exchange's maker fee, in parts per million (0.06 %).
pub const MAKER_FEE_PPM: u64 = 600;

/// The profit margin aimed at on each round trip, in parts per million (0.5 %).
pub const PROFIT_MARGIN_PPM: u64 = 5_000;

/// A buy and a sell price around a mid price, in fixed-point units.
#[derive(Clone, Copy, Debug, PartialEq, Eq)]
pub struct Quote {
    pub mid: u64,
    pub buy_price: u64,
    pub sell_price: u64,
}

/// The mid price, rounded down: the average of bid and ask.
pub open spec fn mid_price(bid: u64, ask: u64) -> int {
    (bid + ask) / 2
}

/// `mid * (1 - spread)`, with the spread in parts per million, rounded down.
pub open spec fn buy_price_of(mid: int, spread: int) -> int {
    mid * (PPM - spread) / (PPM as int)
}

/// `mid * (1 + spread)`, with the spread in parts per million, rounded up.
pub open spec fn sell_price_of(mid: int, spread: int) -> int {
    (mid * (PPM + spread) + PPM - 1) / (PPM as int)
}

/// The quote of a ticker at a given margin and fee; `None` when the buy price
/// rounds to zero or the sell price does not fit in a `u64`.
pub open spec fn quote_of(ticker: Ticker, margin_ppm: u64, fee_ppm: u64) -> Option<Quote> {
    let mid = mid_price(ticker.bid, ticker.ask);
    let spread = margin_ppm + fee_ppm;
    if buy_price_of(mid, spread) > 0 && sell_price_of(mid, spread) <= u64::MAX {
        Some(
            Quote {
                mid: mid as u64,
                buy_price: buy_price_of(mid, spread) as u64,
                sell_price: sell_price_of(mid, spread) as u64,
            },
        )
    } else {
        None
    }
}

/// Quotes `ticker`: the mid price, a buy price below it and a sell price above
/// it, each at a distance of `margin + fee` from the mid price. The spread must
/// stay under one whole; the buy price rounds down and the sell price up.
/// There is no quote when the buy price would round to zero.
pub fn quote(ticker: &Ticker, margin_ppm: u64, fee_ppm: u64) -> (r: Option<Quote>)
    requires
        margin_ppm + fee_ppm < PPM,
    ensures
        r == quote_of(*ticker, margin_ppm, fee_ppm),
        margin_ppm + fee_ppm > 0 && r is Some ==> 0 < r->Some_0.buy_price < r->Some_0.mid
            < r->Some_0.sell_price,
{
    let spread: u128 = margin_ppm as u128 + fee_ppm as u128;
    let mid: u128 = (ticker.bid as u128 + ticker.ask as u128) / 2;
    let ghost m = mid_price(ticker.bid, ticker.ask);
    assert(mid == m);
    assert(0 <= m <= u64::MAX);
    assert(m * (PPM - spread) <= u64::MAX * PPM) by (nonlinear_arith)
        requires
            0 <= m <= u64::MAX,
            0 <= spread < PPM,
    ;
    assert(m * (PPM + spread) <= u64::MAX * (2 * PPM)) by (nonlinear_arith)
        requires
            0 <= m <= u64::MAX,
            0 <= spread < PPM,
    ;
    let buy = mid * (PPM as u128 - spread) / (PPM as u128);
    let sell = (mid * (PPM as u128 + spread) + (PPM as u128 - 1)) / (PPM as u128);
    if buy == 0 || sell > u64::MAX as u128 {
        None
    } else {
        assert(buy <= m) by (nonlinear_arith)
            requires
                buy == m * (PPM - spread) / (PPM as int),
                0 <= m,
                0 <= spread < PPM,
        ;
        if spread > 0 {
            proof {
                lemma_quote_brackets_mid(ticker.bid, ticker.ask, margin_ppm, fee_ppm);
            }
        }
        Some(Quote { mid: mid as u64, buy_price: buy as u64, sell_price: sell as u64 })
    }
}

/// For a positive spread under one whole and a positive mid price, the buy
/// price lies strictly below the mid price and the sell price strictly above.
pub proof fn lemma_quote_brackets_mid(bid: u64, ask: u64, margin_ppm: u64, fee_ppm: u64)
    requires
        0 < margin_ppm + fee_ppm < PPM,
        mid_price(bid, ask) > 0,
    ensures
        buy_price_of(mid_price(bid, ask), margin_ppm + fee_ppm) < mid_price(bid, ask),
        mid_price(bid, ask) < sell_price_of(mid_price(bid, ask), margin_ppm + fee_ppm),
{
    let m = mid_price(bid, ask);
    let s = margin_ppm + fee_ppm;
    assert(m * (PPM - s) / (PPM as int) < m) by (nonlinear_arith)
        requires
            m > 0,
            0 < s < PPM,
    ;
    assert(m < (m * (PPM + s) + PPM - 1) / (PPM as int)) by (nonlinear_arith)
        requires
            m > 0,
            0 < s < PPM,
    ;
}

} // verus!

//! The per-asset market-making loop, as a decision step: given the outcome of
//! one ticker lookup, quote around the mid price and record a simulated buy
//! and sell of the configured order size in the asset's own ledger.
//!
//! Fetching, timers and reporting are driven from outside; each trade tick
//! hands its lookup result to `TradingBot::trade_tick`.

use crate::api::{MarketDataUnavailable, Ticker};
use crate::clock::utc_now_millis;
use crate::dashboard::{pair_recorded, Dashboard, Stats, Trade, TradeType};
use crate::quote::{quote, quote_of, Quote, MAKER_FEE_PPM, PPM, PROFIT_MARGIN_PPM};
use vstd::prelude::*;

verus! {

/// Milliseconds between two trade ticks.
pub const TRADE_INTERVAL_MS: u64 = 10_000;

/// What one trade tick did.
#[derive(Clone, Copy, Debug, PartialEq, Eq)]
pub enum TickOutcome {
    /// A buy and a sell were recorded at this quote.
    Traded(Quote),
    /// The feed holds no complete ticker for the asset.
    NoTicker,
    /// The feed could not be fetched.
    FetchFailed,
    /// No quote: the buy price rounds to zero or the sell price does not fit in a `u64`.
    QuoteOutOfRange,
    /// The ledger has no room left for the pair.
    LedgerFull,
}

/// The result of one ticker lookup.
pub type Lookup = Result<Option<Ticker>, MarketDataUnavailable>;

/// The simulated buy and sell of a tick at quote `q`.
pub open spec fn tick_trades(q: Quote, amount: u64, now: i64) -> (Trade, Trade) {
    (
        Trade { trade_type: TradeType::Buy, price: q.buy_price, volume: amount, timestamp: now },
        Trade { trade_type: TradeType::Sell, price: q.sell_price, volume: amount, timestamp: now },
    )
}

/// What a trade tick does to a ledger's counters `s`, and what it reports.
pub open spec fn tick_effect(
    s: Stats,
    lookup: Lookup,
    margin_ppm: u64,
    fee_ppm: u64,
    amount: u64,
    now: i64,
) -> (TickOutcome, Stats) {
    match lookup {
        Err(_) => (TickOutcome::FetchFailed, s),
        Ok(None) => (TickOutcome::NoTicker, s),
        Ok(Some(t)) => match quote_of(t, margin_ppm, fee_ppm) {
            None => (TickOutcome::QuoteOutOfRange, s),
            Some(q) => {
                let (buy, sell) = tick_trades(q, amount, now);
                match pair_recorded(s, buy, sell) {
                    Some(s2) => (TickOutcome::Traded(q), s2),
                    None => (TickOutcome::LedgerFull, s),
                }
            },
        },
    }
}

/// The counters after a run of trade ticks, each a lookup and a time.
pub open spec fn run_ticks(
    s: Stats,
    ticks: Seq<(Lookup, i64)>,
    margin_ppm: u64,
    fee_ppm: u64,
    amount: u64,
) -> Stats
    decreases ticks.len(),
{
    if ticks.len() == 0 {
        s
    } else {
        let prev = run_ticks(s, ticks.drop_last(), margin_ppm, fee_ppm, amount);
        tick_effect(prev, ticks.last().0, margin_ppm, fee_ppm, amount, ticks.last().1).1
    }
}

/// How many ticks of a run traded.
pub open spec fn traded_ticks(
    s: Stats,
    ticks: Seq<(Lookup, i64)>,
    margin_ppm: u64,
    fee_ppm: u64,
    amount: u64,
) -> nat
    decreases ticks.len(),
{
    if ticks.len() == 0 {
        0
    } else {
        let prev = run_ticks(s, ticks.drop_last(), margin_ppm, fee_ppm, amount);
        let step = tick_effect(prev, ticks.last().0, margin_ppm, fee_ppm, amount, ticks.last().1);
        traded_ticks(s, ticks.drop_last(), margin_ppm, fee_ppm, amount) + if step.0 is Traded {
            1nat
        } else {
            0nat
        }
    }
}

/// The market-making loop of one asset.
pub struct TradingBot {
    base_currency: String,
    profit_margin_ppm: u64,
    amount: u64,
}

impl TradingBot {
    pub closed spec fn spec_base_currency(&self) -> Seq<char> {
        self.base_currency@
    }

    pub closed spec fn spec_profit_margin(&self) -> u64 {
        self.profit_margin_ppm
    }

    pub closed spec fn spec_amount(&self) -> u64 {
        self.amount
    }

    /// The spread stays under one whole.
    pub open spec fn wf(&self) -> bool {
        self.spec_profit_margin() + MAKER_FEE_PPM < PPM
    }

    /// A loop for `base_currency` that trades `amount` (fixed-point units) on
    /// each side at the standard profit margin.
    pub fn new(base_currency: &str, amount: u64) -> (r: TradingBot)
        ensures
            r.wf(),
            r.spec_base_currency() == base_currency@,
            r.spec_profit_margin() == PROFIT_MARGIN_PPM,
            r.spec_amount() == amount,
    {
        TradingBot { base_currency: base_currency.to_owned(), profit_margin_ppm: PROFIT_MARGIN_PPM, amount }
    }

    pub fn base_currency(&self) -> (r: &String)
        ensures
            r@ == self.spec_base_currency(),
    {
        &self.base_currency
    }

    pub fn amount(&self) -> (r: u64)
        ensures
            r == self.spec_amount(),
    {
        self.amount
    }

    /// One trade tick at time `now`: with a ticker, quote it and record a buy
    /// at the buy price then a sell at the sell price, both of the order size;
    /// without one, or when the lookup failed, leave the ledger as it was.
    pub fn on_trade_tick(&self, dashboard: &mut Dashboard, lookup: Lookup, now: i64) -> (r:
        TickOutcome)
        requires
            self.wf(),
            old(dashboard).wf(),
        ensures
            final(dashboard).wf(),
            final(dashboard).spec_base_currency() == old(dashboard).spec_base_currency(),
            (r, final(dashboard)@) == tick_effect(
                old(dashboard)@,
                lookup,
                self.spec_profit_margin(),
                MAKER_FEE_PPM,
                self.spec_amount(),
                now,
            ),
    {
        match lookup {
            Err(_) => TickOutcome::FetchFailed,
            Ok(None) => TickOutcome::NoTicker,
            Ok(Some(ticker)) => match quote(&ticker, self.profit_margin_ppm, MAKER_FEE_PPM) {
                None => TickOutcome::QuoteOutOfRange,
                Some(q) => {
                    let buy = Trade {
                        trade_type: TradeType::Buy,
                        price: q.buy_price,
                        volume: self.amount,
                        timestamp: now,
                    };
                    let sell = Trade {
                        trade_type: TradeType::Sell,
                        price: q.sell_price,
                        volume: self.amount,
                        timestamp: now,
                    };
                    match dashboard.record_trade_pair(buy, sell) {
                        Ok(()) => TickOutcome::Traded(q),
                        Err(_) => TickOutcome::LedgerFull,
                    }
                },
            },
        }
    }

    /// One trade tick stamped with the current time.
    pub fn trade_tick(&self, dashboard: &mut Dashboard, lookup: Lookup) -> (r: TickOutcome)
        requires
            self.wf(),
            old(dashboard).wf(),
        ensures
            final(dashboard).wf(),
            final(dashboard).spec_base_currency() == old(dashboard).spec_base_currency(),
            exists|now: i64|
                (r, final(dashboard)@) == #[trigger] tick_effect(
                    old(dashboard)@,
                    lookup,
                    self.spec_profit_margin(),
                    MAKER_FEE_PPM,
                    self.spec_amount(),
                    now,
                ),
    {
        let now = utc_now_millis();
        self.on_trade_tick(dashboard, lookup, now)
    }
}

/// A trade tick adds two trades to the ledger when it trades and none
/// otherwise.
pub proof fn lemma_tick_trade_count(
    s: Stats,
    lookup: Lookup,
    margin_ppm: u64,
    fee_ppm: u64,
    amount: u64,
    now: i64,
)
    ensures
        ({
            let (outcome, next) = tick_effect(s, lookup, margin_ppm, fee_ppm, amount, now);
            next.num_trades == s.num_trades + if outcome is Traded {
                2int
            } else {
                0int
            }
        }),
{
}

/// The trade count of a ledger grows by exactly two for each tick of its own
/// loop that traded, and by nothing else: after a run of ticks it is the
/// starting count plus twice the number of ticks that traded. A ledger is
/// changed only by its own loop, so loops of other assets leave it alone.
pub proof fn lemma_run_trade_count(
    s: Stats,
    ticks: Seq<(Lookup, i64)>,
    margin_ppm: u64,
    fee_ppm: u64,
    amount: u64,
)
    ensures
        run_ticks(s, ticks, margin_ppm, fee_ppm, amount).num_trades == s.num_trades + 2
            * traded_ticks(s, ticks, margin_ppm, fee_ppm, amount),
    decreases ticks.len(),
{
    if ticks.len() > 0 {
        lemma_run_trade_count(s, ticks.drop_last(), margin_ppm, fee_ppm, amount);
        let prev = run_ticks(s, ticks.drop_last(), margin_ppm, fee_ppm, amount);
        lemma_tick_trade_count(prev, ticks.last().0, margin_ppm, fee_ppm, amount, ticks.last().1);
    }
}

/// Two assets' loops, each running its own ticks on its own ledger: when every
/// tick of each loop traded, each ledger's trade count grows by exactly twice
/// its own number of ticks, whatever the other loop did.
pub proof fn lemma_two_assets_trade_counts(
    first: Stats,
    first_ticks: Seq<(Lookup, i64)>,
    first_amount: u64,
    second: Stats,
    second_ticks: Seq<(Lookup, i64)>,
    second_amount: u64,
    margin_ppm: u64,
    fee_ppm: u64,
)
    requires
        traded_ticks(first, first_ticks, margin_ppm, fee_ppm, first_amount) == first_ticks.len(),
        traded_ticks(second, second_ticks, margin_ppm, fee_ppm, second_amount)
            == second_ticks.len(),
    ensures
        run_ticks(first, first_ticks, margin_ppm, fee_ppm, first_amount).num_trades
            == first.num_trades + 2 * first_ticks.len(),
        run_ticks(second, second_ticks, margin_ppm, fee_ppm, second_amount).num_trades
            == second.num_trades + 2 * second_ticks.len(),
{
    lemma_run_trade_count(first, first_ticks, margin_ppm, fee_ppm, first_amount);
    lemma_run_trade_count(second, second_ticks, margin_ppm, fee_ppm, second_amount);
}

} // verus!

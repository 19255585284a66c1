//! The per-asset performance ledger: running counters of simulated trades and
//! the statistics derived from them.
//!
//! Notional amounts (`price * volume`) and realized profit carry the product
//! of the price and volume scales. When a sell comes before any buy the cost
//! basis is taken as zero, so that sell's whole notional counts as profit.

use vstd::prelude::*;

verus! {

#[derive(Clone, Copy, Debug, PartialEq, Eq)]
pub enum TradeType {
    Buy,
    Sell,
}

/// One simulated fill, in fixed-point units, stamped with milliseconds since
/// the Unix epoch.
#[derive(Clone, Copy, Debug, PartialEq, Eq)]
pub struct Trade {
    pub trade_type: TradeType,
    pub price: u64,
    pub volume: u64,
    pub timestamp: i64,
}

/// A copy of a ledger's counters.
#[derive(Clone, Copy, Debug, PartialEq, Eq)]
pub struct Stats {
    pub num_trades: u64,
    pub total_profit: i128,
    pub total_buy_volume: u128,
    pub total_sell_volume: u128,
    pub total_buy_amount: u128,
    pub total_sell_amount: u128,
    pub last_trade: Option<Trade>,
}

/// The ledger ran out of room in one of its counters.
#[derive(Clone, Copy, Debug, PartialEq, Eq)]
pub enum LedgerError {
    Overflow,
}

/// The volume-weighted average price, zero before any volume.
pub open spec fn average_price(amount: int, volume: int) -> int {
    if volume > 0 {
        amount / volume
    } else {
        0
    }
}

/// Counters before any trade.
pub open spec fn empty_stats() -> Stats {
    Stats {
        num_trades: 0,
        total_profit: 0,
        total_buy_volume: 0,
        total_sell_volume: 0,
        total_buy_amount: 0,
        total_sell_amount: 0,
        last_trade: None,
    }
}

/// Every buy was at a price that fits in a `u64`, so the average buy price does too.
pub open spec fn stats_wf(s: Stats) -> bool {
    s.total_buy_amount <= u64::MAX * s.total_buy_volume
}

/// What a sell adds to the realized profit: its volume times the distance of
/// its price from the average buy price.
pub open spec fn profit_increment(s: Stats, t: Trade) -> int {
    t.volume * (t.price - average_price(s.total_buy_amount as int, s.total_buy_volume as int))
}

/// The counters after `t`, or `None` when one of them would not fit.
pub open spec fn recorded(s: Stats, t: Trade) -> Option<Stats> {
    let n = s.num_trades + 1;
    match t.trade_type {
        TradeType::Buy => {
            let v = s.total_buy_volume + t.volume;
            let a = s.total_buy_amount + t.price * t.volume;
            if n <= u64::MAX && v <= u128::MAX && a <= u128::MAX {
                Some(
                    Stats {
                        num_trades: n as u64,
                        total_buy_volume: v as u128,
                        total_buy_amount: a as u128,
                        last_trade: Some(t),
                        ..s
                    },
                )
            } else {
                None
            }
        },
        TradeType::Sell => {
            let v = s.total_sell_volume + t.volume;
            let a = s.total_sell_amount + t.price * t.volume;
            let inc = profit_increment(s, t);
            let p = s.total_profit + inc;
            if n <= u64::MAX && v <= u128::MAX && a <= u128::MAX && i128::MIN <= inc <= i128::MAX
                && i128::MIN <= p <= i128::MAX {
                Some(
                    Stats {
                        num_trades: n as u64,
                        total_sell_volume: v as u128,
                        total_sell_amount: a as u128,
                        total_profit: p as i128,
                        last_trade: Some(t),
                        ..s
                    },
                )
            } else {
                None
            }
        },
    }
}

impl Stats {
    /// The average price of all buys; zero before the first buy.
    pub fn average_buy_price(&self) -> (r: u128)
        ensures
            r == average_price(self.total_buy_amount as int, self.total_buy_volume as int),
    {
        if self.total_buy_volume > 0 {
            self.total_buy_amount / self.total_buy_volume
        } else {
            0
        }
    }

    /// The average price of all sells; zero before the first sell.
    pub fn average_sell_price(&self) -> (r: u128)
        ensures
            r == average_price(self.total_sell_amount as int, self.total_sell_volume as int),
    {
        if self.total_sell_volume > 0 {
            self.total_sell_amount / self.total_sell_volume
        } else {
            0
        }
    }

    /// The counters after `trade`, or `None` when one of them would not fit.
    pub fn record(&self, trade: Trade) -> (r: Option<Stats>)
        requires
            stats_wf(*self),
        ensures
            r == recorded(*self, trade),
            r is Some ==> stats_wf(r->Some_0),
    {
        let s = *self;
        let n = match s.num_trades.checked_add(1) {
            Some(n) => n,
            None => return None,
        };
        assert(trade.price * trade.volume <= u64::MAX * u64::MAX) by (nonlinear_arith)
            requires
                trade.price <= u64::MAX,
                trade.volume <= u64::MAX,
        ;
        let notional: u128 = trade.price as u128 * trade.volume as u128;
        match trade.trade_type {
            TradeType::Buy => {
                let v = match s.total_buy_volume.checked_add(trade.volume as u128) {
                    Some(v) => v,
                    None => return None,
                };
                let a = match s.total_buy_amount.checked_add(notional) {
                    Some(a) => a,
                    None => return None,
                };
                let r = Stats {
                    num_trades: n,
                    total_buy_volume: v,
                    total_buy_amount: a,
                    last_trade: Some(trade),
                    ..s
                };
                assert(stats_wf(r)) by (nonlinear_arith)
                    requires
                        s.total_buy_amount <= u64::MAX * s.total_buy_volume,
                        r.total_buy_amount == s.total_buy_amount + trade.price * trade.volume,
                        r.total_buy_volume == s.total_buy_volume + trade.volume,
                        trade.price <= u64::MAX,
                ;
                Some(r)
            },
            TradeType::Sell => {
                let v = match s.total_sell_volume.checked_add(trade.volume as u128) {
                    Some(v) => v,
                    None => return None,
                };
                let a = match s.total_sell_amount.checked_add(notional) {
                    Some(a) => a,
                    None => return None,
                };
                let avg = s.average_buy_price();
                assert(avg <= u64::MAX) by (nonlinear_arith)
                    requires
                        s.total_buy_amount <= u64::MAX * s.total_buy_volume,
                        avg == average_price(
                            s.total_buy_amount as int,
                            s.total_buy_volume as int,
                        ),
                ;
                let diff: i128 = trade.price as i128 - avg as i128;
                let inc = match (trade.volume as i128).checked_mul(diff) {
                    Some(inc) => inc,
                    None => return None,
                };
                let p = match s.total_profit.checked_add(inc) {
                    Some(p) => p,
                    None => return None,
                };
                Some(
                    Stats {
                        num_trades: n,
                        total_sell_volume: v,
                        total_sell_amount: a,
                        total_profit: p,
                        last_trade: Some(trade),
                        ..s
                    },
                )
            },
        }
    }
}

/// The ledger of one traded asset.
pub struct Dashboard {
    base_currency: String,
    stats: Stats,
}

impl View for Dashboard {
    type V = Stats;

    closed spec fn view(&self) -> Stats {
        self.stats
    }
}

impl Dashboard {
    pub closed spec fn spec_base_currency(&self) -> Seq<char> {
        self.base_currency@
    }

    pub open spec fn wf(&self) -> bool {
        stats_wf(self@)
    }

    /// An empty ledger for `base_currency`.
    pub fn new(base_currency: &str) -> (r: Dashboard)
        ensures
            r@ == empty_stats(),
            r.spec_base_currency() == base_currency@,
            r.wf(),
    {
        Dashboard {
            base_currency: base_currency.to_owned(),
            stats: Stats {
                num_trades: 0,
                total_profit: 0,
                total_buy_volume: 0,
                total_sell_volume: 0,
                total_buy_amount: 0,
                total_sell_amount: 0,
                last_trade: None,
            },
        }
    }

    pub fn base_currency(&self) -> (r: &String)
        ensures
            r@ == self.spec_base_currency(),
    {
        &self.base_currency
    }

    /// Appends `trade`: a buy adds to the buy volume and notional; a sell adds
    /// to the sell volume and notional and realizes its volume times its
    /// distance from the average buy price. Fails, leaving the ledger as it
    /// was, when a counter would overflow.
    pub fn record_trade(&mut self, trade: Trade) -> (r: Result<(), LedgerError>)
        requires
            old(self).wf(),
        ensures
            final(self).wf(),
            final(self).spec_base_currency() == old(self).spec_base_currency(),
            r is Ok <==> recorded(old(self)@, trade) is Some,
            r is Ok ==> final(self)@ == recorded(old(self)@, trade)->Some_0,
            r is Err ==> final(self)@ == old(self)@ && r == Err::<(), LedgerError>(
                LedgerError::Overflow,
            ),
    {
        match self.stats.record(trade) {
            Some(s) => {
                self.stats = s;
                Ok(())
            },
            None => Err(LedgerError::Overflow),
        }
    }

    /// Appends `first` then `second`, both or neither: when either would
    /// overflow a counter the ledger is left as it was.
    pub fn record_trade_pair(&mut self, first: Trade, second: Trade) -> (r: Result<(), LedgerError>)
        requires
            old(self).wf(),
        ensures
            final(self).wf(),
            final(self).spec_base_currency() == old(self).spec_base_currency(),
            r is Ok <==> pair_recorded(old(self)@, first, second) is Some,
            r is Ok ==> final(self)@ == pair_recorded(old(self)@, first, second)->Some_0,
            r is Err ==> final(self)@ == old(self)@ && r == Err::<(), LedgerError>(
                LedgerError::Overflow,
            ),
    {
        match self.stats.record(first) {
            Some(s1) => match s1.record(second) {
                Some(s2) => {
                    self.stats = s2;
                    Ok(())
                },
                None => Err(LedgerError::Overflow),
            },
            None => Err(LedgerError::Overflow),
        }
    }

    /// A copy of the counters.
    pub fn snapshot(&self) -> (r: Stats)
        ensures
            r == self@,
    {
        self.stats
    }

    /// The average price of all buys; zero before the first buy.
    pub fn average_buy_price(&self) -> (r: u128)
        ensures
            r == average_price(self@.total_buy_amount as int, self@.total_buy_volume as int),
    {
        self.stats.average_buy_price()
    }

    /// The average price of all sells; zero before the first sell.
    pub fn average_sell_price(&self) -> (r: u128)
        ensures
            r == average_price(self@.total_sell_amount as int, self@.total_sell_volume as int),
    {
        self.stats.average_sell_price()
    }
}

/// The counters after `first` then `second`, or `None` when either overflows.
pub open spec fn pair_recorded(s: Stats, first: Trade, second: Trade) -> Option<Stats> {
    match recorded(s, first) {
        Some(s1) => recorded(s1, second),
        None => None,
    }
}

/// Recording a trade counts it and adds its volume and notional to its side;
/// a sell also realizes its volume times its distance from the average buy
/// price, and before any buy (zero cost basis) its whole notional.
pub proof fn lemma_trade_accrual(s: Stats, t: Trade)
    requires
        recorded(s, t) is Some,
    ensures
        ({
            let n = recorded(s, t)->Some_0;
            &&& n.num_trades == s.num_trades + 1
            &&& n.last_trade == Some(t)
            &&& t.trade_type == TradeType::Buy ==> {
                &&& n.total_buy_volume == s.total_buy_volume + t.volume
                &&& n.total_buy_amount == s.total_buy_amount + t.price * t.volume
                &&& n.total_profit == s.total_profit
            }
            &&& t.trade_type == TradeType::Sell ==> {
                &&& n.total_sell_volume == s.total_sell_volume + t.volume
                &&& n.total_sell_amount == s.total_sell_amount + t.price * t.volume
                &&& n.total_profit == s.total_profit + t.volume * (t.price - average_price(
                    s.total_buy_amount as int,
                    s.total_buy_volume as int,
                ))
                &&& s.total_buy_volume == 0 ==> n.total_profit == s.total_profit + t.volume
                    * t.price
            }
        }),
{
}

/// Reading a ledger changes nothing: two snapshots taken with no trade
/// recorded between them are equal.
pub proof fn lemma_snapshot_idempotent(d: Dashboard, first: Stats, second: Stats)
    requires
        first == d@,
        second == d@,
    ensures
        first == second,
{
}

} // verus!

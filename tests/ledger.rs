use cube_market_maker::api::{Ticker, PRICE_SCALE};
use cube_market_maker::dashboard::{Dashboard, LedgerError, Trade, TradeType};
use cube_market_maker::quote::{quote, Quote, MAKER_FEE_PPM, PROFIT_MARGIN_PPM};

fn trade(trade_type: TradeType, price: u64, volume: u64) -> Trade {
    Trade { trade_type, price, volume, timestamp: 0 }
}

fn ticker(bid: u64, ask: u64) -> Ticker {
    Ticker { base_currency: "ETH".to_string(), bid, ask, volume: 1 }
}

#[test]
fn quote_of_reference_ticker() {
    let q = quote(&ticker(100 * PRICE_SCALE, 102 * PRICE_SCALE), PROFIT_MARGIN_PPM, MAKER_FEE_PPM)
        .unwrap();
    assert_eq!(q.mid, 101 * PRICE_SCALE);
    assert_eq!(q.buy_price, 10_043_440_000);
    assert_eq!(q.sell_price, 10_156_560_000);
}

#[test]
fn quote_brackets_mid() {
    for (bid, ask) in [(2, 3), (999, 1_001), (5 * PRICE_SCALE, 7 * PRICE_SCALE)] {
        let q = quote(&ticker(bid, ask), 1, 0).unwrap();
        assert!(q.buy_price < q.mid && q.mid < q.sell_price);
    }
}

#[test]
fn quote_refused_when_buy_rounds_to_zero() {
    assert_eq!(quote(&ticker(1, 1), PROFIT_MARGIN_PPM, MAKER_FEE_PPM), None);
    assert_eq!(quote(&ticker(0, 0), 0, 0), None);
    let q = quote(&ticker(1, 1), 0, 0).unwrap();
    assert_eq!(q, Quote { mid: 1, buy_price: 1, sell_price: 1 });
}

#[test]
fn quote_with_zero_spread_is_flat() {
    let q = quote(&ticker(10, 20), 0, 0).unwrap();
    assert_eq!(q, Quote { mid: 15, buy_price: 15, sell_price: 15 });
}

#[test]
fn quote_out_of_range() {
    assert_eq!(quote(&ticker(u64::MAX, u64::MAX), PROFIT_MARGIN_PPM, MAKER_FEE_PPM), None);
}

#[test]
fn profit_accrues_against_average_buy() {
    let mut d = Dashboard::new("ETH");
    d.record_trade(trade(TradeType::Buy, 100, 1)).unwrap();
    d.record_trade(trade(TradeType::Sell, 105, 1)).unwrap();
    assert_eq!(d.average_buy_price(), 100);
    assert_eq!(d.average_sell_price(), 105);
    let s = d.snapshot();
    assert_eq!(s.total_profit, 5);
    assert_eq!(s.num_trades, 2);
}

#[test]
fn profit_accrues_in_fixed_point() {
    let mut d = Dashboard::new("ETH");
    d.record_trade(trade(TradeType::Buy, 100 * PRICE_SCALE, PRICE_SCALE)).unwrap();
    d.record_trade(trade(TradeType::Sell, 105 * PRICE_SCALE, PRICE_SCALE)).unwrap();
    assert_eq!(d.average_buy_price(), 100 * PRICE_SCALE as u128);
    assert_eq!(d.snapshot().total_profit, 5 * (PRICE_SCALE as i128) * (PRICE_SCALE as i128));
}

#[test]
fn sell_before_any_buy_has_zero_cost_basis() {
    let mut d = Dashboard::new("SOL");
    assert_eq!(d.record_trade(trade(TradeType::Sell, 7, 3)), Ok(()));
    assert_eq!(d.average_buy_price(), 0);
    assert_eq!(d.snapshot().total_profit, 21);
}

#[test]
fn loss_is_negative_profit() {
    let mut d = Dashboard::new("SOL");
    d.record_trade(trade(TradeType::Buy, 10, 2)).unwrap();
    d.record_trade(trade(TradeType::Buy, 20, 2)).unwrap();
    d.record_trade(trade(TradeType::Sell, 12, 1)).unwrap();
    assert_eq!(d.average_buy_price(), 15);
    assert_eq!(d.snapshot().total_profit, -3);
    assert_eq!(d.snapshot().last_trade, Some(trade(TradeType::Sell, 12, 1)));
}

#[test]
fn new_ledger_is_empty() {
    let d = Dashboard::new("ETH");
    let s = d.snapshot();
    assert_eq!(s.num_trades, 0);
    assert_eq!(s.total_profit, 0);
    assert_eq!(s.last_trade, None);
    assert_eq!(d.average_buy_price(), 0);
    assert_eq!(d.average_sell_price(), 0);
    assert_eq!(d.base_currency(), "ETH");
}

#[test]
fn snapshot_twice_is_identical() {
    let mut d = Dashboard::new("ETH");
    d.record_trade(trade(TradeType::Buy, 3, 4)).unwrap();
    assert_eq!(d.snapshot(), d.snapshot());
}

#[test]
fn overflow_leaves_ledger_unchanged() {
    let mut d = Dashboard::new("ETH");
    let big = trade(TradeType::Buy, u64::MAX, u64::MAX);
    d.record_trade(big).unwrap();
    let before = d.snapshot();
    assert_eq!(d.record_trade(big), Err(LedgerError::Overflow));
    assert_eq!(d.snapshot(), before);
}

#[test]
fn sell_profit_out_of_range_is_refused() {
    let mut d = Dashboard::new("ETH");
    let r = d.record_trade(trade(TradeType::Sell, u64::MAX, u64::MAX));
    assert_eq!(r, Err(LedgerError::Overflow));
    assert_eq!(d.snapshot().num_trades, 0);
}

#[test]
fn pair_is_all_or_nothing() {
    let mut d = Dashboard::new("ETH");
    d.record_trade(trade(TradeType::Buy, u64::MAX, u64::MAX)).unwrap();
    let before = d.snapshot();
    let r = d.record_trade_pair(
        trade(TradeType::Buy, 1, 1),
        trade(TradeType::Buy, u64::MAX, u64::MAX),
    );
    assert_eq!(r, Err(LedgerError::Overflow));
    assert_eq!(d.snapshot(), before);
}

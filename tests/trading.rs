use cube_market_maker::api::{MarketDataUnavailable, Ticker, PRICE_SCALE};
use cube_market_maker::bot::{TickOutcome, TradingBot};
use cube_market_maker::clock::{get_timestamp, seconds_from_millis};
use cube_market_maker::dashboard::{Dashboard, TradeType};

fn ticker(sym: &str, bid: u64, ask: u64) -> Ticker {
    Ticker { base_currency: sym.to_string(), bid, ask, volume: 1 }
}

#[test]
fn tick_records_buy_then_sell() {
    let bot = TradingBot::new("ETH", PRICE_SCALE);
    let mut d = Dashboard::new("ETH");
    let t = ticker("ETH", 100 * PRICE_SCALE, 102 * PRICE_SCALE);
    let out = bot.on_trade_tick(&mut d, Ok(Some(t)), 1_000);
    match out {
        TickOutcome::Traded(q) => {
            assert_eq!(q.buy_price, 10_043_440_000);
            assert_eq!(q.sell_price, 10_156_560_000);
        }
        other => panic!("unexpected outcome {:?}", other),
    }
    let s = d.snapshot();
    assert_eq!(s.num_trades, 2);
    assert_eq!(s.total_buy_volume, PRICE_SCALE as u128);
    assert_eq!(s.total_sell_volume, PRICE_SCALE as u128);
    assert_eq!(d.average_buy_price(), 10_043_440_000);
    assert_eq!(s.total_profit, (10_156_560_000i128 - 10_043_440_000) * PRICE_SCALE as i128);
    let last = s.last_trade.unwrap();
    assert_eq!(last.trade_type, TradeType::Sell);
    assert_eq!(last.timestamp, 1_000);
}

#[test]
fn tick_without_ticker_changes_nothing() {
    let bot = TradingBot::new("SOL", 10 * PRICE_SCALE);
    let mut d = Dashboard::new("SOL");
    assert_eq!(bot.on_trade_tick(&mut d, Ok(None), 5), TickOutcome::NoTicker);
    assert_eq!(
        bot.on_trade_tick(&mut d, Err(MarketDataUnavailable), 5),
        TickOutcome::FetchFailed
    );
    assert_eq!(d.snapshot().num_trades, 0);
}

#[test]
fn tick_with_unquotable_ticker_changes_nothing() {
    let bot = TradingBot::new("SOL", 1);
    let mut d = Dashboard::new("SOL");
    let t = ticker("SOL", u64::MAX, u64::MAX);
    assert_eq!(bot.on_trade_tick(&mut d, Ok(Some(t)), 5), TickOutcome::QuoteOutOfRange);
    assert_eq!(d.snapshot().num_trades, 0);
}

#[test]
fn tick_with_one_unit_ticker_records_nothing() {
    let bot = TradingBot::new("ETH", PRICE_SCALE);
    let mut d = Dashboard::new("ETH");
    let t = ticker("ETH", 1, 1);
    assert_eq!(bot.on_trade_tick(&mut d, Ok(Some(t)), 5), TickOutcome::QuoteOutOfRange);
    assert_eq!(d.snapshot().num_trades, 0);
}

#[test]
fn two_assets_keep_separate_ledgers() {
    let n: u64 = 25;
    let eth = TradingBot::new("ETH", PRICE_SCALE);
    let sol = TradingBot::new("SOL", 10 * PRICE_SCALE);
    let mut eth_d = Dashboard::new("ETH");
    let mut sol_d = Dashboard::new("SOL");
    for i in 0..n {
        let e = ticker("ETH", 3_000 * PRICE_SCALE + i, 3_001 * PRICE_SCALE);
        let s = ticker("SOL", 150 * PRICE_SCALE, 151 * PRICE_SCALE + i);
        assert!(matches!(eth.trade_tick(&mut eth_d, Ok(Some(e))), TickOutcome::Traded(_)));
        assert!(matches!(sol.trade_tick(&mut sol_d, Ok(Some(s))), TickOutcome::Traded(_)));
    }
    assert_eq!(eth_d.snapshot().num_trades, n * 2);
    assert_eq!(sol_d.snapshot().num_trades, n * 2);
    assert_eq!(eth_d.snapshot().total_buy_volume, (n * PRICE_SCALE) as u128);
    assert_eq!(sol_d.snapshot().total_buy_volume, (n * 10 * PRICE_SCALE) as u128);
}

#[test]
fn bot_reports_its_settings() {
    let bot = TradingBot::new("ETH", 3);
    assert_eq!(bot.base_currency(), "ETH");
    assert_eq!(bot.amount(), 3);
}

#[test]
fn clock_reads_after_epoch() {
    let t = get_timestamp().unwrap();
    assert!(t > 1_600_000_000);
}

#[test]
fn seconds_truncate_millis() {
    assert_eq!(seconds_from_millis(1_700_000_000_999), Some(1_700_000_000));
    assert_eq!(seconds_from_millis(0), Some(0));
    assert_eq!(seconds_from_millis(-1), None);
}

//! The exchange's market data and credentials: the ticker feed in its wire
//! shape and its dense shape, lookup by symbol, configuration, signed headers
//! and order requests.

use crate::signing::{generate_api_signature, signature_of, valid_secret, SignError};
use vstd::prelude::*;

verus! {

/// Fixed-point units in one whole unit of price or volume.
pub const PRICE_SCALE: u64 = 100_000_000;

/// A ticker entry as the feed sends it: any of the three numbers may be absent.
#[derive(Clone, Debug, PartialEq, Eq)]
pub struct TickerResponse {
    pub base_currency: String,
    pub bid: Option<u64>,
    pub ask: Option<u64>,
    pub base_volume: Option<u64>,
}

/// The whole ticker feed.
#[derive(Clone, Debug, PartialEq, Eq)]
pub struct ApiResponse {
    pub result: Vec<TickerResponse>,
}

/// A fully known ticker: best bid, best ask and base volume, in fixed-point units.
#[derive(Clone, Debug, PartialEq, Eq)]
pub struct Ticker {
    pub base_currency: String,
    pub bid: u64,
    pub ask: u64,
    pub volume: u64,
}

/// The dense ticker of a feed entry, when bid, ask and volume are all present.
pub open spec fn entry_ticker(e: TickerResponse) -> Option<Ticker> {
    match (e.bid, e.ask, e.base_volume) {
        (Some(bid), Some(ask), Some(volume)) => Some(
            Ticker { base_currency: e.base_currency, bid, ask, volume },
        ),
        _ => None,
    }
}

/// The dense tickers of a feed, in feed order, without the incomplete entries.
pub open spec fn complete_tickers(entries: Seq<TickerResponse>) -> Seq<Ticker>
    decreases entries.len(),
{
    if entries.len() == 0 {
        seq![]
    } else {
        let prev = complete_tickers(entries.drop_last());
        match entry_ticker(entries.last()) {
            Some(t) => prev.push(t),
            None => prev,
        }
    }
}

/// Filtering keeps exactly the complete entries, each turned unchanged into
/// its dense ticker: every ticker that comes out is the dense form of some
/// entry with bid, ask and volume all present, and every such entry comes out.
pub proof fn lemma_ticker_filtering(entries: Seq<TickerResponse>)
    ensures
        forall|t: Ticker| #[trigger]
            complete_tickers(entries).contains(t) ==> exists|i: int|
                0 <= i < entries.len() && #[trigger] entry_ticker(entries[i]) == Some(t),
        forall|i: int|
            0 <= i < entries.len() && (#[trigger] entry_ticker(entries[i])) is Some
                ==> complete_tickers(entries).contains(entry_ticker(entries[i])->Some_0),
    decreases entries.len(),
{
    if entries.len() > 0 {
        let prev = entries.drop_last();
        lemma_ticker_filtering(prev);
        let out = complete_tickers(entries);
        let pout = complete_tickers(prev);
        let last = entries.len() - 1;
        assert forall|t: Ticker| #[trigger] out.contains(t) implies exists|i: int|
            0 <= i < entries.len() && #[trigger] entry_ticker(entries[i]) == Some(t) by {
            if pout.contains(t) {
                let i = choose|i: int| 0 <= i < prev.len() && #[trigger] entry_ticker(prev[i]) == Some(t);
                assert(entries[i] == prev[i]);
            } else {
                let k = choose|k: int| 0 <= k < out.len() && out[k] == t;
                assert(entry_ticker(entries[last]) is Some);
                assert(k == pout.len());
                assert(entry_ticker(entries[last]) == Some(t));
            }
        }
        assert forall|i: int|
            0 <= i < entries.len() && (#[trigger] entry_ticker(entries[i])) is Some
                implies out.contains(entry_ticker(entries[i])->Some_0) by {
            let t = entry_ticker(entries[i])->Some_0;
            if i < last {
                assert(prev[i] == entries[i]);
                assert(entry_ticker(prev[i]) is Some);
                let k = choose|k: int| 0 <= k < pout.len() && pout[k] == t;
                assert(out[k] == t);
            } else {
                assert(out[pout.len() as int] == t);
            }
        }
    }
}

/// The first ticker whose symbol is `symbol`.
pub open spec fn first_with_symbol(tickers: Seq<Ticker>, symbol: Seq<char>) -> Option<Ticker>
    decreases tickers.len(),
{
    if tickers.len() == 0 {
        None
    } else if tickers[0].base_currency@ == symbol {
        Some(tickers[0])
    } else {
        first_with_symbol(tickers.drop_first(), symbol)
    }
}

/// The ticker feed could not be fetched or parsed.
#[derive(Clone, Copy, Debug, PartialEq, Eq)]
pub struct MarketDataUnavailable;

/// Credentials for the exchange's private endpoints.
pub struct CubeApi {
    api_key: String,
    api_secret: String,
    subaccount_id: u64,
}

/// A configuration value is missing or malformed.
#[derive(Clone, Copy, Debug, PartialEq, Eq)]
pub enum ConfigError {
    MissingApiKey,
    MissingApiSecret,
    MissingSubaccountId,
    InvalidSubaccountId,
}

/// The three authentication headers of a private request.
#[derive(Clone, Debug, PartialEq, Eq)]
pub struct SignedHeaders {
    pub api_key: String,
    pub signature: String,
    pub timestamp: u64,
}

/// The body of an order placement.
#[derive(Clone, Debug, PartialEq, Eq)]
pub struct Order {
    pub client_order_id: u64,
    pub request_id: u64,
    pub market_id: u64,
    pub price: Option<u64>,
    pub quantity: u64,
    pub side: i32,
    pub time_in_force: i32,
    pub order_type: i32,
    pub subaccount_id: u64,
    pub self_trade_prevention: Option<i32>,
    pub post_only: i32,
    pub cancel_on_disconnect: bool,
}

/// Time in force of every order placed: good till cancelled.
pub const TIME_IN_FORCE: i32 = 1;

/// Self-trade prevention mode of every order placed.
pub const SELF_TRADE_PREVENTION: i32 = 1;

/// Post-only mode of every order placed.
pub const POST_ONLY: i32 = 1;

pub open spec fn is_ascii_digit(c: char) -> bool {
    '0' as u32 <= c as u32 && c as u32 <= '9' as u32
}

/// The value of a string of decimal digits.
pub open spec fn digits_value(s: Seq<char>) -> int
    decreases s.len(),
{
    if s.len() == 0 {
        0
    } else {
        digits_value(s.drop_last()) * 10 + (s.last() as u32 - '0' as u32)
    }
}

/// An unsigned decimal number: an optional `+`, then one or more digits, with
/// a value that fits in a `u64`.
pub open spec fn decimal_u64(s: Seq<char>) -> Option<u64> {
    let digits = if s.len() > 0 && s[0] == '+' {
        s.drop_first()
    } else {
        s
    };
    if digits.len() > 0 && (forall|i: int| 0 <= i < digits.len() ==> is_ascii_digit(#[trigger] digits[i]))
        && digits_value(digits) <= u64::MAX {
        Some(digits_value(digits) as u64)
    } else {
        None
    }
}

/// Relies on `str::parse::<u64>`: an optional `+` sign followed by decimal
/// digits, no whitespace, and a value that fits in a `u64`.
#[verifier::external_body]
fn parse_u64(s: &str) -> (r: Option<u64>)
    ensures
        r == decimal_u64(s@),
{
    s.parse::<u64>().ok()
}

impl CubeApi {
    pub closed spec fn spec_api_key(&self) -> Seq<char> {
        self.api_key@
    }

    pub closed spec fn spec_api_secret(&self) -> Seq<char> {
        self.api_secret@
    }

    pub closed spec fn spec_subaccount_id(&self) -> u64 {
        self.subaccount_id
    }

    /// Builds the credentials from configuration values: each must be present,
    /// and the subaccount id must be an unsigned decimal number.
    pub fn new(api_key: Option<String>, api_secret: Option<String>, subaccount_id: Option<String>) -> (r:
        Result<CubeApi, ConfigError>)
        ensures
            api_key is None ==> r == Err::<CubeApi, ConfigError>(ConfigError::MissingApiKey),
            api_key is Some && api_secret is None ==> r == Err::<CubeApi, ConfigError>(
                ConfigError::MissingApiSecret,
            ),
            api_key is Some && api_secret is Some && subaccount_id is None ==> r == Err::<
                CubeApi,
                ConfigError,
            >(ConfigError::MissingSubaccountId),
            api_key is Some && api_secret is Some && subaccount_id is Some ==> match decimal_u64(
                subaccount_id->Some_0@,
            ) {
                Some(id) => r is Ok && r->Ok_0.spec_api_key() == api_key->Some_0@
                    && r->Ok_0.spec_api_secret() == api_secret->Some_0@
                    && r->Ok_0.spec_subaccount_id() == id,
                None => r == Err::<CubeApi, ConfigError>(ConfigError::InvalidSubaccountId),
            },
    {
        match (api_key, api_secret, subaccount_id) {
            (None, _, _) => Err(ConfigError::MissingApiKey),
            (Some(_), None, _) => Err(ConfigError::MissingApiSecret),
            (Some(_), Some(_), None) => Err(ConfigError::MissingSubaccountId),
            (Some(api_key), Some(api_secret), Some(text)) => match parse_u64(text.as_str()) {
                Some(subaccount_id) => Ok(CubeApi { api_key, api_secret, subaccount_id }),
                None => Err(ConfigError::InvalidSubaccountId),
            },
        }
    }

    pub fn api_key(&self) -> (r: &String)
        ensures
            r@ == self.spec_api_key(),
    {
        &self.api_key
    }

    pub fn subaccount_id(&self) -> (r: u64)
        ensures
            r == self.spec_subaccount_id(),
    {
        self.subaccount_id
    }

    /// The dense tickers of a feed: the entries with bid, ask and volume all
    /// present, in feed order.
    pub fn extract_bid_ask_prices(response: &ApiResponse) -> (r: Vec<Ticker>)
        ensures
            r@ == complete_tickers(response.result@),
    {
        let entries = &response.result;
        let mut r: Vec<Ticker> = Vec::new();
        let mut i: usize = 0;
        while i < entries.len()
            invariant
                0 <= i <= entries@.len(),
                r@ == complete_tickers(entries@.subrange(0, i as int)),
            decreases entries@.len() - i,
        {
            let e = &entries[i];
            proof {
                assert(entries@.subrange(0, i as int + 1).drop_last() == entries@.subrange(
                    0,
                    i as int,
                ));
            }
            match (e.bid, e.ask, e.base_volume) {
                (Some(bid), Some(ask), Some(volume)) => {
                    r.push(Ticker { base_currency: e.base_currency.clone(), bid, ask, volume });
                },
                _ => {},
            }
            i = i + 1;
        }
        proof {
            assert(entries@.subrange(0, entries@.len() as int) == entries@);
        }
        r
    }

    /// The first dense ticker of the feed whose symbol is `base_currency`;
    /// `None` when there is none, also when its entry was incomplete.
    pub fn get_bid_ask_prices_by_base_currency(response: &ApiResponse, base_currency: &str) -> (r:
        Option<Ticker>)
        ensures
            r == first_with_symbol(complete_tickers(response.result@), base_currency@),
    {
        let tickers = Self::extract_bid_ask_prices(response);
        let symbol = base_currency.to_owned();
        let mut i: usize = 0;
        proof {
            assert(tickers@.subrange(0, tickers@.len() as int) == tickers@);
        }
        while i < tickers.len()
            invariant
                0 <= i <= tickers@.len(),
                tickers@ == complete_tickers(response.result@),
                symbol@ == base_currency@,
                first_with_symbol(tickers@, symbol@) == first_with_symbol(
                    tickers@.subrange(i as int, tickers@.len() as int),
                    symbol@,
                ),
            decreases tickers@.len() - i,
        {
            proof {
                let rest = tickers@.subrange(i as int, tickers@.len() as int);
                assert(rest[0] == tickers@[i as int]);
                assert(rest.drop_first() == tickers@.subrange(i as int + 1, tickers@.len() as int));
            }
            let t = &tickers[i];
            if t.base_currency == symbol {
                proof {
                    let rest = tickers@.subrange(i as int, tickers@.len() as int);
                    assert(first_with_symbol(rest, symbol@) == Some(tickers@[i as int]));
                }
                return Some(
                    Ticker {
                        base_currency: t.base_currency.clone(),
                        bid: t.bid,
                        ask: t.ask,
                        volume: t.volume,
                    },
                );
            }
            i = i + 1;
        }
        None
    }

    /// The authentication headers of a request made at `timestamp` (seconds).
    pub fn signed_headers(&self, timestamp: u64) -> (r: Result<SignedHeaders, SignError>)
        ensures
            r is Ok <==> valid_secret(self.spec_api_secret()),
            r is Ok ==> r->Ok_0.api_key@ == self.spec_api_key() && r->Ok_0.signature@
                == signature_of(self.spec_api_secret(), timestamp) && r->Ok_0.timestamp
                == timestamp,
            r is Err ==> r == Err::<SignedHeaders, SignError>(SignError::InvalidKeyEncoding),
    {
        match generate_api_signature(self.api_secret.as_str(), timestamp) {
            Ok(signature) => Ok(SignedHeaders { api_key: self.api_key.clone(), signature, timestamp }),
            Err(e) => Err(e),
        }
    }

    /// The body of an order for this subaccount, with the fixed time in
    /// force, self-trade prevention, post-only and cancel-on-disconnect settings.
    pub fn order_request(
        &self,
        client_order_id: u64,
        request_id: u64,
        market_id: u64,
        price: Option<u64>,
        quantity: u64,
        side: i32,
        order_type: i32,
    ) -> (r: Order)
        ensures
            r == (Order {
                client_order_id,
                request_id,
                market_id,
                price,
                quantity,
                side,
                time_in_force: TIME_IN_FORCE,
                order_type,
                subaccount_id: self.spec_subaccount_id(),
                self_trade_prevention: Some(SELF_TRADE_PREVENTION),
                post_only: POST_ONLY,
                cancel_on_disconnect: true,
            }),
    {
        Order {
            client_order_id,
            request_id,
            market_id,
            price,
            quantity,
            side,
            time_in_force: TIME_IN_FORCE,
            order_type,
            subaccount_id: self.subaccount_id,
            self_trade_prevention: Some(SELF_TRADE_PREVENTION),
            post_only: POST_ONLY,
            cancel_on_disconnect: true,
        }
    }
}

} // verus!

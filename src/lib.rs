//! A market-making client library for a centralized exchange: request signing,
//! ticker filtering, quote derivation, a per-asset performance ledger and the
//! decision step of the per-asset trading loop.
//!
//! Prices and volumes are fixed-point integers with `PRICE_SCALE` units per
//! whole unit; fractional rates (margins, fees) are parts per million.

pub mod signing;
pub mod api;
pub mod quote;
pub mod dashboard;
pub mod clock;
pub mod bot;

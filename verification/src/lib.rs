//! Backtest simulation core.
//!
//! A series of historical ticks is replayed through a trading strategy; the
//! orders that the strategy places are executed against a portfolio, the
//! portfolio is marked to market after every tick, and the resulting trades and
//! equity curve are summed up in performance statistics.
//!
//! * [`amount`]: fixed-point decimal amounts.
//! * [`types`], [`market_data`]: orders, trades, positions, the portfolio, ticks.
//! * [`executor`]: the rules by which one order is applied or rejected.
//! * [`strategy`], [`sma_cross`], [`sma`], [`advised`], [`risk`]: the strategy
//!   interface and the strategies that come with the library.
//! * [`engine`]: the replay loop.
//! * [`metrics`]: the statistics of a finished run.
//! * [`laws`]: what holds of every run.
//! * [`response`], [`intervals`], [`cache`], [`text`]: what callers need around a
//!   run.

pub mod advised;
pub mod amount;
pub mod cache;
pub mod engine;
pub mod executor;
pub mod intervals;
pub mod laws;
pub mod market_data;
pub mod metrics;
pub mod response;
pub mod risk;
pub mod sma;
pub mod sma_cross;
pub mod strategy;
pub mod text;
pub mod types;

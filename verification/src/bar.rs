//! Bars (one period of trading: open, high, low and close prices, volume,
//! amount and number of trades), bar series and their builders.
//!
//! Times are Unix timestamps in nanoseconds (UTC) and durations are
//! nanoseconds, both as `i128`.
pub mod base_bar;
pub mod base_bar_series;
pub mod base_bar_series_builder;
pub mod builder;

//! Technical analysis of financial time series: decimal numbers, bars and
//! bar series, bar builders and aggregators, indicators, trades, positions
//! and trading records.
pub mod num;
pub mod analysis;
pub mod trade;
pub mod position;
pub mod trading_record;
pub mod bar;
pub mod aggregator;
pub mod indicators;

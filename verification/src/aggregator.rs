//! Aggregators: turn a sequence of bars (or a bar series) into another.
pub mod base_bar_series_aggregator;
pub mod duration_bar_aggregator;
pub mod heikin_ashi_bar_aggregator;
pub mod types;

//! Bar builders: time bars, tick bars, volume bars and Heikin-Ashi bars.
pub mod heikin_ashi_bar_builder;
pub mod tick_bar_builder;
pub mod time_bar_builder;
pub mod types;
pub mod volume_bar_builder;

//! Moving averages.
pub mod base_ema_indicator;
pub mod ema_indicator;
pub mod mma_indicator;
pub mod sma_indicator;

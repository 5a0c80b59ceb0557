//! Indicators that read bars directly, and simple indicators built on others.
pub mod close_price_indicator;
pub mod open_price_indicator;
pub mod constant_indicator;
pub mod fixed_indicator;
pub mod date_time_indicator;
pub mod volume_indicator;
pub mod typical_price_indicator;
pub mod tr_indicator;
pub mod gain_indicator;
pub mod previous_value_indicator;
pub mod highest_value_indicator;
pub mod lowest_value_indicator;
pub mod cross_indicator;
pub mod running_total_indicator;

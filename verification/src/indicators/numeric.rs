//! Indicators computed from other indicators by arithmetic.
pub mod binary_operation;
pub mod numeric_indicator;

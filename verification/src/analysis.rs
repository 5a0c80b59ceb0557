//! Cost models: what trading and holding a position costs.
pub mod cost;

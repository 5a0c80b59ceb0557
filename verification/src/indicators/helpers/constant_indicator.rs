//! The same value at every index.
use vstd::prelude::*;
use crate::bar::base_bar_series::{BaseBarSeries, SeriesView};
use crate::indicators::Indicator;
use crate::indicators::types::{IndicatorError, ValueView};
use crate::num::DecimalNum;

verus! {

/// The same value at every index.
#[derive(Clone, Copy, Debug)]
pub struct ConstantIndicator {
    value: DecimalNum,
}

impl ConstantIndicator {
    pub fn new(value: DecimalNum) -> (r: Self)
        ensures
            r.spec_constant() == value,
    {
        ConstantIndicator { value }
    }

    pub closed spec fn spec_constant(&self) -> DecimalNum {
        self.value
    }
}

impl Indicator for ConstantIndicator {
    open spec fn spec_value(&self, series: SeriesView, index: int) -> ValueView {
        Ok(self.spec_constant()@)
    }

    open spec fn fresh(&self, series: SeriesView) -> bool {
        true
    }

    open spec fn spec_unstable_bars(&self) -> nat {
        0
    }

    open spec fn stable_for(&self, series: SeriesView) -> bool {
        true
    }

    /// Read from the bars alone: exact on every series.
    open spec fn exact_at(&self, series: SeriesView, index: int) -> bool {
        true
    }

    proof fn lemma_grown(&self, s: SeriesView, s2: SeriesView) {
    }

    fn get_value(&mut self, series: &BaseBarSeries, index: usize) -> (r: Result<DecimalNum, IndicatorError>) {
        Ok(self.value)
    }

    fn count_of_unstable_bars(&self) -> (r: usize) {
        0
    }
}

} // verus!

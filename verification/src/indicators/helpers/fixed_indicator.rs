//! Values given in advance, one per index.
use vstd::prelude::*;
use crate::bar::base_bar_series::{BaseBarSeries, SeriesView};
use crate::indicators::Indicator;
use crate::indicators::types::{IndicatorError, IndicatorErrorView, ValueView};
use crate::num::DecimalNum;

verus! {

/// Values given in advance: the value at `index` is the `index`-th one given.
#[derive(Clone, Debug)]
pub struct FixedIndicator {
    values: Vec<DecimalNum>,
}

impl FixedIndicator {
    pub fn new(values: Vec<DecimalNum>) -> (r: Self)
        ensures
            r.spec_values() == values@,
    {
        FixedIndicator { values }
    }

    pub closed spec fn spec_values(&self) -> Seq<DecimalNum> {
        self.values@
    }

    /// Appends a value for the next index.
    pub fn add_value(&mut self, value: DecimalNum)
        ensures
            final(self).spec_values() == old(self).spec_values().push(value),
    {
        self.values.push(value);
    }
}

impl Indicator for FixedIndicator {
    /// The `index`-th value, or `OutOfBounds` past the values given.
    open spec fn spec_value(&self, series: SeriesView, index: int) -> ValueView {
        if 0 <= index < self.spec_values().len() {
            Ok(self.spec_values()[index]@)
        } else {
            Err(IndicatorErrorView::OutOfBounds { index: index as usize })
        }
    }

    open spec fn fresh(&self, series: SeriesView) -> bool {
        true
    }

    open spec fn spec_unstable_bars(&self) -> nat {
        0
    }

    open spec fn stable_for(&self, series: SeriesView) -> bool {
        true
    }

    /// Read from the bars alone: exact on every series.
    open spec fn exact_at(&self, series: SeriesView, index: int) -> bool {
        true
    }

    proof fn lemma_grown(&self, s: SeriesView, s2: SeriesView) {
    }

    fn get_value(&mut self, series: &BaseBarSeries, index: usize) -> (r: Result<DecimalNum, IndicatorError>) {
        if index < self.values.len() {
            Ok(self.values[index])
        } else {
            Err(IndicatorError::OutOfBounds { index })
        }
    }

    fn count_of_unstable_bars(&self) -> (r: usize) {
        0
    }
}

} // verus!

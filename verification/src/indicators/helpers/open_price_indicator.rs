//! The open price of each bar.
use vstd::prelude::*;
use crate::bar::base_bar_series::{BaseBarSeries, SeriesView};
use crate::indicators::Indicator;
use crate::indicators::types::{IndicatorError, IndicatorErrorView, OptionExt, ValueView, max_index};
use crate::num::DecimalNum;

verus! {

/// The open price at `index`: `InvalidIndex` without a bar there, a
/// calculation error if the bar has no open price.
pub open spec fn open_price_at(series: SeriesView, index: int) -> ValueView {
    match series.bar_at(index) {
        None => Err(IndicatorErrorView::InvalidIndex { index: index as usize, max: max_index(series) }),
        Some(bar) => match bar.open_price {
            None => Err(IndicatorErrorView::CalculationError { message: "Missing open price"@ }),
            Some(c) => Ok(c@),
        },
    }
}

/// The open price of each bar.
#[derive(Clone, Copy, Debug)]
pub struct OpenPriceIndicator {}

impl OpenPriceIndicator {
    pub fn new() -> (r: Self) {
        OpenPriceIndicator {}
    }
}

impl Indicator for OpenPriceIndicator {
    open spec fn spec_value(&self, series: SeriesView, index: int) -> ValueView {
        open_price_at(series, index)
    }

    open spec fn fresh(&self, series: SeriesView) -> bool {
        true
    }

    open spec fn spec_unstable_bars(&self) -> nat {
        0
    }

    open spec fn stable_for(&self, series: SeriesView) -> bool {
        true
    }

    /// Read from the bars alone: exact on every series.
    open spec fn exact_at(&self, series: SeriesView, index: int) -> bool {
        true
    }

    proof fn lemma_grown(&self, s: SeriesView, s2: SeriesView) {
        assert forall|g: int| 0 <= g < s.bars.len() implies #[trigger] open_price_at(s2, g) == open_price_at(s, g) by {
            crate::bar::base_bar_series::lemma_grown_bars(s, s2, g);
        }
    }

    fn get_value(&mut self, series: &BaseBarSeries, index: usize) -> (r: Result<DecimalNum, IndicatorError>) {
        let bar_count = series.get_bar_count();
        let max = if bar_count == 0 { 0 } else { bar_count - 1 };
        let bar = series.get_bar(index).or_invalid_index(index, max)?;
        match bar.get_open_price() {
            Some(c) => Ok(c),
            None => {
                proof {
                    reveal_strlit("Missing open price");
                }
                Err(IndicatorError::CalculationError { message: "Missing open price".to_string() })
            },
        }
    }

    fn count_of_unstable_bars(&self) -> (r: usize) {
        0
    }
}

} // verus!

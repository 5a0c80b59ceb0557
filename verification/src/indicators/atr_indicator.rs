//! The average true range: the modified moving average of the true range.
use vstd::prelude::*;
use crate::bar::base_bar_series::{BaseBarSeries, SeriesView};
use crate::indicators::Indicator;
use crate::indicators::averages::mma_indicator::MMAIndicator;
use crate::indicators::helpers::tr_indicator::TRIndicator;
use crate::indicators::types::{IndicatorError, IndicatorErrorView, ValueView};
use crate::num::{DecimalNum, finite_view, spec_divided_by};

verus! {

/// The average true range over `bar_count` bars.
#[derive(Clone, Debug)]
pub struct ATRIndicator {
    average_true_range: MMAIndicator<TRIndicator>,
}

impl ATRIndicator {
    /// The average over `bar_count` bars of the true range `tr_indicator`, or
    /// the error of making the average (for `bar_count == 0`).
    pub fn from_tr(tr_indicator: TRIndicator, bar_count: usize) -> (r: Result<Self, IndicatorError>)
        ensures
            match spec_divided_by(finite_view(1, 0), finite_view(bar_count as i128, 0)) {
                Ok(m) => r matches Ok(a) && a.spec_average().spec_inner().spec_multiplier()@ == m
                    && a.spec_average().spec_inner().spec_indicator() == tr_indicator
                    && a.spec_average().spec_inner().spec_bar_count() == bar_count
                    && forall|s: SeriesView| #[trigger] a.fresh(s) <== tr_indicator.fresh(s),
                Err(e) => r matches Err(err) && err@ == IndicatorErrorView::NumError(e),
            },
    {
        let average_true_range = MMAIndicator::new(tr_indicator, bar_count)?;
        Ok(ATRIndicator { average_true_range })
    }

    pub closed spec fn spec_average(&self) -> MMAIndicator<TRIndicator> {
        self.average_true_range
    }

    /// The true range averaged.
    pub fn get_tr_indicator(&self) -> (r: &TRIndicator)
        ensures
            *r == self.spec_average().spec_inner().spec_indicator(),
    {
        self.average_true_range.indicator()
    }
}

impl Indicator for ATRIndicator {
    open spec fn spec_value(&self, series: SeriesView, index: int) -> ValueView {
        self.spec_average().spec_value(series, index)
    }

    open spec fn fresh(&self, series: SeriesView) -> bool {
        self.spec_average().fresh(series)
    }

    open spec fn spec_unstable_bars(&self) -> nat {
        self.spec_average().spec_unstable_bars()
    }

    open spec fn stable_for(&self, series: SeriesView) -> bool {
        self.spec_average().stable_for(series)
    }

    open spec fn exact_at(&self, series: SeriesView, index: int) -> bool {
        self.spec_average().exact_at(series, index)
    }

    proof fn lemma_grown(&self, s: SeriesView, s2: SeriesView) {
        self.spec_average().lemma_grown(s, s2);
    }

    fn get_value(&mut self, series: &BaseBarSeries, index: usize) -> (r: Result<DecimalNum, IndicatorError>) {
        self.average_true_range.get_value(series, index)
    }

    fn count_of_unstable_bars(&self) -> (r: usize) {
        self.average_true_range.count_of_unstable_bars()
    }
}

} // verus!

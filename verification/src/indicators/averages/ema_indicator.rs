//! The exponential moving average.
use vstd::prelude::*;
use crate::bar::base_bar_series::{BaseBarSeries, SeriesView};
use crate::indicators::Indicator;
use crate::indicators::averages::base_ema_indicator::BaseEmaIndicator;
use crate::indicators::types::{IndicatorError, ValueView};
use crate::num::DecimalNum;

verus! {

/// The exponential moving average over `bar_count` bars, with the multiplier
/// `2 / (bar_count + 1)` given by the caller.
#[derive(Clone, Debug)]
pub struct EmaIndicator<I> {
    inner: BaseEmaIndicator<I>,
}

impl<I: Indicator> EmaIndicator<I> {
    pub fn new(indicator: I, bar_count: usize, multiplier: DecimalNum) -> (r: Self)
        ensures
            r.spec_inner().spec_indicator() == indicator,
            r.spec_inner().spec_bar_count() == bar_count,
            r.spec_inner().spec_multiplier() == multiplier,
            forall|s: SeriesView| #[trigger] r.fresh(s) <== indicator.fresh(s),
    {
        let inner = BaseEmaIndicator::new(indicator, bar_count, multiplier);
        let r = EmaIndicator { inner };
        assert forall|s: SeriesView| indicator.fresh(s) implies #[trigger] r.fresh(s) by {
            assert(inner.fresh(s));
        }
        r
    }

    pub closed spec fn spec_inner(&self) -> BaseEmaIndicator<I> {
        self.inner
    }

    pub fn bar_count(&self) -> (r: usize)
        ensures
            r == self.spec_inner().spec_bar_count(),
    {
        self.inner.bar_count()
    }
}

impl<I: Indicator> Indicator for EmaIndicator<I> {
    open spec fn spec_value(&self, series: SeriesView, index: int) -> ValueView {
        self.spec_inner().spec_value(series, index)
    }

    open spec fn fresh(&self, series: SeriesView) -> bool {
        self.spec_inner().fresh(series)
    }

    open spec fn spec_unstable_bars(&self) -> nat {
        self.spec_inner().spec_unstable_bars()
    }

    open spec fn stable_for(&self, series: SeriesView) -> bool {
        self.spec_inner().stable_for(series)
    }

    open spec fn exact_at(&self, series: SeriesView, index: int) -> bool {
        self.spec_inner().exact_at(series, index)
    }

    proof fn lemma_grown(&self, s: SeriesView, s2: SeriesView) {
        self.spec_inner().lemma_grown(s, s2);
    }

    fn get_value(&mut self, series: &BaseBarSeries, index: usize) -> (r: Result<DecimalNum, IndicatorError>) {
        self.inner.get_value(series, index)
    }

    fn count_of_unstable_bars(&self) -> (r: usize) {
        self.inner.count_of_unstable_bars()
    }
}

} // verus!

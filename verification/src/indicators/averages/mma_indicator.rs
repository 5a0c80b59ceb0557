//! The modified moving average: an exponential moving average with the
//! multiplier `1 / bar_count`.
use vstd::prelude::*;
use crate::bar::base_bar_series::{BaseBarSeries, SeriesView};
use crate::indicators::Indicator;
use crate::indicators::averages::base_ema_indicator::BaseEmaIndicator;
use crate::indicators::types::{IndicatorError, IndicatorErrorView, ValueView};
use crate::num::{DecimalNum, DecView, NumError, finite_view, spec_divided_by};

verus! {

/// The modified moving average over `bar_count` bars.
#[derive(Clone, Debug)]
pub struct MMAIndicator<I> {
    inner: BaseEmaIndicator<I>,
}

impl<I: Indicator> MMAIndicator<I> {
    /// The average with the multiplier `1 / bar_count`, or the error of that
    /// division (a division by zero for `bar_count == 0`).
    pub fn new(indicator: I, bar_count: usize) -> (r: Result<Self, IndicatorError>)
        ensures
            match spec_divided_by(finite_view(1, 0), finite_view(bar_count as i128, 0)) {
                Ok(m) => r matches Ok(a) && a.spec_inner().spec_multiplier()@ == m
                    && a.spec_inner().spec_indicator() == indicator && a.spec_inner().spec_bar_count() == bar_count
                    && forall|s: SeriesView| #[trigger] a.fresh(s) <== indicator.fresh(s),
                Err(e) => r matches Err(err) && err@ == IndicatorErrorView::NumError(e),
            },
            bar_count == 0 ==> (r matches Err(err) && err@ == IndicatorErrorView::NumError(NumError::DivisionByZero)),
    {
        let one = DecimalNum::one();
        let count = DecimalNum::from_usize(bar_count);
        let multiplier = match one.divided_by(&count) {
            Ok(m) => m,
            Err(e) => return Err(IndicatorError::NumError(e)),
        };
        let inner = BaseEmaIndicator::new(indicator, bar_count, multiplier);
        let r = MMAIndicator { inner };
        assert forall|s: SeriesView| indicator.fresh(s) implies #[trigger] r.fresh(s) by {
            assert(inner.fresh(s));
        }
        Ok(r)
    }

    pub closed spec fn spec_inner(&self) -> BaseEmaIndicator<I> {
        self.inner
    }

    /// The indicator averaged.
    pub fn indicator(&self) -> (r: &I)
        ensures
            *r == self.spec_inner().spec_indicator(),
    {
        self.inner.indicator()
    }

    pub fn get_count_of_unstable_bars(&self) -> (r: usize)
        ensures
            r == self.spec_inner().spec_bar_count(),
    {
        self.inner.bar_count()
    }
}

impl<I: Indicator> Indicator for MMAIndicator<I> {
    open spec fn spec_value(&self, series: SeriesView, index: int) -> ValueView {
        self.spec_inner().spec_value(series, index)
    }

    open spec fn fresh(&self, series: SeriesView) -> bool {
        self.spec_inner().fresh(series)
    }

    open spec fn spec_unstable_bars(&self) -> nat {
        self.spec_inner().spec_unstable_bars()
    }

    open spec fn stable_for(&self, series: SeriesView) -> bool {
        self.spec_inner().stable_for(series)
    }

    open spec fn exact_at(&self, series: SeriesView, index: int) -> bool {
        self.spec_inner().exact_at(series, index)
    }

    proof fn lemma_grown(&self, s: SeriesView, s2: SeriesView) {
        self.spec_inner().lemma_grown(s, s2);
    }

    fn get_value(&mut self, series: &BaseBarSeries, index: usize) -> (r: Result<DecimalNum, IndicatorError>) {
        self.inner.get_value(series, index)
    }

    fn count_of_unstable_bars(&self) -> (r: usize) {
        self.inner.count_of_unstable_bars()
    }
}

} // verus!

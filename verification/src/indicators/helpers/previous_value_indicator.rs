//! The value of an indicator a number of bars before.
use vstd::prelude::*;
use crate::bar::base_bar_series::{BaseBarSeries, SeriesView};
use crate::indicators::{Indicator, exact_upto, lemma_exact_upto_grown, lemma_same_exact};
use crate::indicators::cached_indicator::{CachedIndicator, IndicatorCalculator};
use crate::indicators::types::{IndicatorError, ValueView};
use crate::num::{DecimalNum, nan_view};

verus! {

/// Computes the value of an indicator `n` bars before.
#[derive(Clone, Copy, Debug)]
pub struct PreviousValueCalculator<I> {
    n: usize,
    indicator: I,
}

impl<I: Indicator> PreviousValueCalculator<I> {
    /// `n` must be positive.
    pub fn new(indicator: I, n: usize) -> (r: Self)
        requires
            n >= 1,
        ensures
            r.spec_indicator() == indicator,
            r.spec_n() == n,
    {
        PreviousValueCalculator { n, indicator }
    }

    pub closed spec fn spec_indicator(&self) -> I {
        self.indicator
    }

    pub closed spec fn spec_n(&self) -> usize {
        self.n
    }

    pub fn get_n(&self) -> (r: usize)
        ensures
            r == self.spec_n(),
    {
        self.n
    }
}

impl<I: Indicator> IndicatorCalculator for PreviousValueCalculator<I> {
    /// NaN before the `n`-th index, the value `n` bars before after it.
    open spec fn spec_calculate(&self, series: SeriesView, index: int) -> ValueView {
        if index < self.spec_n() {
            Ok(nan_view())
        } else {
            self.spec_indicator().spec_value(series, index - self.spec_n())
        }
    }

    open spec fn ready(&self, series: SeriesView) -> bool {
        self.spec_indicator().fresh(series)
    }

    open spec fn stable_for(&self, series: SeriesView) -> bool {
        self.spec_indicator().stable_for(series)
    }

    /// The indicator read is exact up to `index`.
    open spec fn exact_at(&self, series: SeriesView, index: int) -> bool {
        exact_upto(self.spec_indicator(), series, index)
    }

    proof fn lemma_grown(&self, s: SeriesView, s2: SeriesView) {
        self.spec_indicator().lemma_grown(s, s2);
        lemma_exact_upto_grown(self.spec_indicator(), s, s2);
    }

    open spec fn spec_unstable_bars(&self) -> nat {
        self.spec_n() as nat
    }

    fn calculate(&mut self, series: &BaseBarSeries, index: usize) -> (r: Result<DecimalNum, IndicatorError>) {
        if index < self.n {
            Ok(DecimalNum::nan())
        } else {
            let ghost ind0 = self.indicator;
            let r = self.indicator.get_value(series, index - self.n);
            proof {
                lemma_same_exact(self.indicator, ind0);
            }
            r
        }
    }

    fn count_of_unstable_bars(&self) -> (r: usize) {
        self.n
    }
}

/// The value of an indicator `n` bars before, kept once computed.
pub type PreviousValueIndicator<I> = CachedIndicator<PreviousValueCalculator<I>>;

impl<I: Indicator> CachedIndicator<PreviousValueCalculator<I>> {
    /// The value one bar before.
    pub fn new(indicator: I, series: &BaseBarSeries) -> (r: Self)
        ensures
            r.spec_calculator().spec_indicator() == indicator,
            r.spec_calculator().spec_n() == 1,
            forall|s: SeriesView| #[trigger] r.consistent(s) <== indicator.fresh(s),
            forall|s: SeriesView| #[trigger] r.stable(s) <== indicator.stable_for(s),
    {
        Self::with_n(indicator, series, 1)
    }

    /// The value `n` bars before; `n` must be positive.
    pub fn with_n(indicator: I, series: &BaseBarSeries, n: usize) -> (r: Self)
        requires
            n >= 1,
        ensures
            r.spec_calculator().spec_indicator() == indicator,
            r.spec_calculator().spec_n() == n,
            forall|s: SeriesView| #[trigger] r.consistent(s) <== indicator.fresh(s),
            forall|s: SeriesView| #[trigger] r.stable(s) <== indicator.stable_for(s),
    {
        CachedIndicator::new_from_series(series, PreviousValueCalculator::new(indicator, n))
    }

    pub fn get_n(&self) -> (r: usize)
        ensures
            r == self.spec_calculator().spec_n(),
    {
        self.calculator().get_n()
    }
}

} // verus!

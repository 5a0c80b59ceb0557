//! The simple moving average: the sum of the window divided by its length.
use vstd::prelude::*;
use crate::bar::base_bar_series::{BaseBarSeries, SeriesView};
use crate::indicators::{Indicator, values_of, lemma_same_values, lemma_same_exact};
use crate::indicators::cached_indicator::{CachedIndicator, IndicatorCalculator};
use crate::indicators::helpers::running_total_indicator::RunningTotalIndicator;
use crate::indicators::types::{IndicatorError, IndicatorErrorView, ValueView};
use crate::num::{DecView, DecimalNum, finite_view, spec_divided_by};

verus! {

/// The total `totals(index)` divided by the number of bars of its window
/// (`min(index + 1, bar_count)`), or the first error met.
pub open spec fn sma_value(totals: spec_fn(int) -> ValueView, index: int, bar_count: int) -> ValueView {
    let real_bar_count = if index + 1 < bar_count { index + 1 } else { bar_count };
    match totals(index) {
        Err(e) => Err(e),
        Ok(sum) => match spec_divided_by(sum, finite_view(real_bar_count as i128, 0)) {
            Ok(v) => Ok(v),
            Err(e) => Err(IndicatorErrorView::NumError(e)),
        },
    }
}

/// The average is the window total divided by the number of bars in the
/// window, `min(index + 1, bar_count)`: exact, at the total's scale, where that
/// number divides the total's mantissa.
pub proof fn law_sma_is_mean(totals: spec_fn(int) -> ValueView, index: int, bar_count: int, total: i128, scale: u32)
    requires
        0 <= index,
        1 <= bar_count < 0x1_0000_0000,
        totals(index) == Ok::<DecView, IndicatorErrorView>(finite_view(total, scale)),
        (total as int) % (if index + 1 < bar_count { index + 1 } else { bar_count }) == 0,
    ensures
        ({
            let n = if index + 1 < bar_count { index + 1 } else { bar_count };
            sma_value(totals, index, bar_count) == Ok::<DecView, IndicatorErrorView>(
                finite_view(((total as int) / n) as i128, if total == 0 { 0 } else { scale }),
            )
        }),
{
}

/// Computes the simple moving average of an indicator.
#[derive(Clone, Debug)]
pub struct SmaCalculator<I> {
    running_total: RunningTotalIndicator<I>,
    bar_count: usize,
}

impl<I: Indicator> SmaCalculator<I> {
    /// A window of `bar_count` bars (at least one).
    pub fn new(indicator: I, series: &BaseBarSeries, bar_count: usize) -> (r: Self)
        requires
            bar_count >= 1,
        ensures
            r.spec_indicator() == indicator,
            r.spec_bar_count() == bar_count,
            forall|s: SeriesView| #[trigger] r.ready(s) <== indicator.fresh(s),
            forall|s: SeriesView| #[trigger] r.stable_for(s) <== indicator.stable_for(s),
    {
        SmaCalculator { running_total: RunningTotalIndicator::new(indicator, series, bar_count), bar_count }
    }

    pub closed spec fn spec_indicator(&self) -> I {
        self.running_total.spec_calculator().spec_indicator()
    }

    pub closed spec fn spec_bar_count(&self) -> usize {
        self.bar_count
    }

    pub closed spec fn spec_running_total(&self) -> RunningTotalIndicator<I> {
        self.running_total
    }
}

impl<I: Indicator> IndicatorCalculator for SmaCalculator<I> {
    /// The running total of the indicator (the sum of its window) divided by
    /// the window's length.
    open spec fn spec_calculate(&self, series: SeriesView, index: int) -> ValueView {
        sma_value(values_of(self.spec_running_total(), series), index, self.spec_bar_count() as int)
    }

    open spec fn ready(&self, series: SeriesView) -> bool {
        &&& self.spec_running_total().fresh(series)
        &&& self.spec_running_total().spec_calculator().spec_bar_count() == self.spec_bar_count()
    }

    open spec fn stable_for(&self, series: SeriesView) -> bool {
        self.spec_running_total().stable_for(series)
    }

    /// The running total read is exact at `index`.
    open spec fn exact_at(&self, series: SeriesView, index: int) -> bool {
        self.spec_running_total().exact_at(series, index)
    }

    proof fn lemma_grown(&self, s: SeriesView, s2: SeriesView) {
        self.spec_running_total().lemma_grown(s, s2);
    }

    open spec fn spec_unstable_bars(&self) -> nat {
        self.spec_bar_count() as nat
    }

    fn calculate(&mut self, series: &BaseBarSeries, index: usize) -> (r: Result<DecimalNum, IndicatorError>) {
        let real_bar_count = if index < self.bar_count - 1 { index + 1 } else { self.bar_count };
        let ghost rt0 = self.running_total;
        let sum = self.running_total.get_value(series, index);
        proof {
            lemma_same_values(self.running_total, rt0);
            lemma_same_exact(self.running_total, rt0);
        }
        let sum = match sum {
            Ok(v) => v,
            Err(e) => return Err(e),
        };
        let denom = series.factory_ref().num_of_usize(real_bar_count);
        match sum.divided_by(&denom) {
            Ok(v) => Ok(v),
            Err(e) => Err(IndicatorError::NumError(e)),
        }
    }

    fn count_of_unstable_bars(&self) -> (r: usize) {
        self.bar_count
    }
}

/// The simple moving average of an indicator, kept once computed.
pub type SmaIndicator<I> = CachedIndicator<SmaCalculator<I>>;

impl<I: Indicator> CachedIndicator<SmaCalculator<I>> {
    /// `bar_count` must be positive.
    pub fn new(indicator: I, series: &BaseBarSeries, bar_count: usize) -> (r: Self)
        requires
            bar_count >= 1,
        ensures
            r.spec_calculator().spec_indicator() == indicator,
            r.spec_calculator().spec_bar_count() == bar_count,
            forall|s: SeriesView| #[trigger] r.consistent(s) <== indicator.fresh(s),
            forall|s: SeriesView| #[trigger] r.stable(s) <== indicator.stable_for(s),
    {
        CachedIndicator::new_from_series(series, SmaCalculator::new(indicator, series, bar_count))
    }
}

} // verus!

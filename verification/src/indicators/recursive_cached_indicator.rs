//! A kept indicator whose values are computed in index order when far ahead
//! of the values kept, for calculators that read earlier values.
use vstd::prelude::*;
use crate::bar::base_bar_series::{BaseBarSeries, SeriesView};
use crate::indicators::Indicator;
use crate::indicators::cached_indicator::{CachedIndicator, IndicatorCalculator};
use crate::indicators::types::{IndicatorError, ValueView, result_view};
use crate::num::DecimalNum;

verus! {

/// How far ahead of the values kept a value may be read before the values in
/// between are computed first.
pub const RECURSION_THRESHOLD: usize = 100usize;

/// A calculator with the distance beyond which values are computed in order.
#[derive(Clone, Copy, Debug)]
pub struct RecursiveCalcWrapper<C> {
    pub inner: C,
    pub threshold: usize,
}

impl<C: IndicatorCalculator> IndicatorCalculator for RecursiveCalcWrapper<C> {
    open spec fn spec_calculate(&self, series: SeriesView, index: int) -> ValueView {
        self.inner.spec_calculate(series, index)
    }

    open spec fn ready(&self, series: SeriesView) -> bool {
        self.inner.ready(series)
    }

    open spec fn stable_for(&self, series: SeriesView) -> bool {
        self.inner.stable_for(series)
    }

    open spec fn exact_at(&self, series: SeriesView, index: int) -> bool {
        self.inner.exact_at(series, index)
    }

    proof fn lemma_grown(&self, s: SeriesView, s2: SeriesView) {
        self.inner.lemma_grown(s, s2);
    }

    open spec fn spec_unstable_bars(&self) -> nat {
        self.inner.spec_unstable_bars()
    }

    fn calculate(&mut self, series: &BaseBarSeries, index: usize) -> (r: Result<DecimalNum, IndicatorError>) {
        self.inner.calculate(series, index)
    }

    fn count_of_unstable_bars(&self) -> (r: usize) {
        self.inner.count_of_unstable_bars()
    }
}

/// A kept indicator that computes the values between the highest kept and a
/// far index in order before the far one.
#[derive(Clone, Debug)]
pub struct RecursiveCachedIndicator<C> {
    cached: CachedIndicator<RecursiveCalcWrapper<C>>,
}

impl<C: IndicatorCalculator> RecursiveCachedIndicator<C> {
    /// With the threshold `RECURSION_THRESHOLD`.
    pub fn new(series: &BaseBarSeries, calculator: C) -> (r: Self)
        ensures
            r.spec_cached().spec_calculator() == (RecursiveCalcWrapper { inner: calculator, threshold: RECURSION_THRESHOLD }),
            forall|s: SeriesView| #[trigger] r.spec_cached().consistent(s) <== calculator.ready(s),
    {
        Self::new_with_threshold(series, calculator, RECURSION_THRESHOLD)
    }

    pub fn new_with_threshold(series: &BaseBarSeries, calculator: C, threshold: usize) -> (r: Self)
        ensures
            r.spec_cached().spec_calculator() == (RecursiveCalcWrapper { inner: calculator, threshold }),
            forall|s: SeriesView| #[trigger] r.spec_cached().consistent(s) <== calculator.ready(s),
    {
        let wrapper = RecursiveCalcWrapper { inner: calculator, threshold };
        RecursiveCachedIndicator { cached: CachedIndicator::new_from_series(series, wrapper) }
    }

    /// Reads the same series as `indicator`, with the threshold `RECURSION_THRESHOLD`.
    pub fn from_indicator<I: Indicator>(indicator: &I, series: &BaseBarSeries, calculator: C) -> (r: Self)
        ensures
            r.spec_cached().spec_calculator() == (RecursiveCalcWrapper { inner: calculator, threshold: RECURSION_THRESHOLD }),
            forall|s: SeriesView| #[trigger] r.spec_cached().consistent(s) <== calculator.ready(s),
    {
        Self::from_indicator_with_threshold(indicator, series, calculator, RECURSION_THRESHOLD)
    }

    /// Reads the same series as `indicator`, with the given threshold.
    pub fn from_indicator_with_threshold<I: Indicator>(indicator: &I, series: &BaseBarSeries, calculator: C, threshold: usize) -> (r: Self)
        ensures
            r.spec_cached().spec_calculator() == (RecursiveCalcWrapper { inner: calculator, threshold }),
            forall|s: SeriesView| #[trigger] r.spec_cached().consistent(s) <== calculator.ready(s),
    {
        let wrapper = RecursiveCalcWrapper { inner: calculator, threshold };
        RecursiveCachedIndicator { cached: CachedIndicator::new_from_indicator(indicator, series, wrapper) }
    }

    pub closed spec fn spec_cached(&self) -> CachedIndicator<RecursiveCalcWrapper<C>> {
        self.cached
    }

    /// The value at `index`. When `index` lies more than the threshold past
    /// the highest index kept (or the first bar still held), the values in
    /// between are read first, in order, and the first of their errors is
    /// returned. On a series with no bar removed, where the calculator is exact
    /// up to `index`, a value returned is the calculator's value at `index`,
    /// and an error is that of `index` or of an index before it.
    pub fn get_value(&mut self, series: &BaseBarSeries, index: usize) -> (r: Result<DecimalNum, IndicatorError>)
        requires
            series@.wf(),
            old(self).spec_cached().consistent(series@),
        ensures
            final(self).spec_cached().consistent(series@),
            forall|s: SeriesView, i: int| #[trigger] final(self).spec_cached().spec_calculator().spec_calculate(s, i)
                == old(self).spec_cached().spec_calculator().spec_calculate(s, i),
            series@.removed_bars_count == 0
                && (forall|i: int| 0 <= i <= index ==> #[trigger] old(self).spec_cached().spec_calculator().exact_at(series@, i))
                ==> match r {
                Ok(v) => old(self).spec_cached().spec_calculator().spec_calculate(series@, index as int) == Ok::<_, crate::indicators::types::IndicatorErrorView>(v@),
                Err(e) => exists|i: int| 0 <= i <= index
                    && #[trigger] old(self).spec_cached().spec_calculator().spec_calculate(series@, i) == Err::<crate::num::DecView, _>(e@),
            },
    {
        let ghost c0 = self.cached.spec_calculator();
        let ghost s = series@;
        let bar_count = series.get_bar_count();
        let end = match series.get_end_index() {
            Some(e) => e,
            None => usize::MAX,
        };
        if bar_count == 0 || index > end {
            let r = self.cached.get_cached_value(series, index);
            proof {
                if r is Err && s.removed_bars_count == 0 && c0.exact_at(s, index as int) {
                    assert(c0.spec_calculate(s, index as int) == Err::<crate::num::DecView, crate::indicators::types::IndicatorErrorView>((r->Err_0)@));
                }
            }
            return r;
        }
        let removed = series.get_removed_bars_count();
        let highest = match self.cached.highest_result_index() {
            Some(h) => h,
            None => 0,
        };
        let start = if removed > highest { removed } else { highest };
        if index > start && index - start > self.cached.calculator().threshold {
            let mut i = start;
            while i < index
                invariant
                    start <= i <= index,
                    s == series@,
                    series@.wf(),
                    self.cached.consistent(s),
                    forall|s2: SeriesView, i2: int| #[trigger] self.cached.spec_calculator().spec_calculate(s2, i2)
                        == c0.spec_calculate(s2, i2),
                    forall|s2: SeriesView, i2: int| #[trigger] self.cached.spec_calculator().exact_at(s2, i2)
                        == c0.exact_at(s2, i2),
                    c0 == old(self).cached.spec_calculator(),
                decreases index - i,
            {
                let v = self.cached.get_cached_value(series, i);
                if let Err(e) = v {
                    proof {
                        if s.removed_bars_count == 0 && c0.exact_at(s, i as int) {
                            assert(c0.spec_calculate(s, i as int) == Err::<crate::num::DecView, crate::indicators::types::IndicatorErrorView>(e@));
                        }
                    }
                    return Err(e);
                }
                i = i + 1;
            }
        }
        let r = self.cached.get_cached_value(series, index);
        proof {
            if r is Err && s.removed_bars_count == 0 && c0.exact_at(s, index as int) {
                assert(c0.spec_calculate(s, index as int) == Err::<crate::num::DecView, crate::indicators::types::IndicatorErrorView>((r->Err_0)@));
            }
        }
        r
    }
}

} // verus!

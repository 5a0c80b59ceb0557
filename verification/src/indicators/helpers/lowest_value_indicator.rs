//! The lowest value of an indicator over a window of bars.
use vstd::prelude::*;
use crate::bar::base_bar_series::{BaseBarSeries, SeriesView};
use crate::indicators::{Indicator, values_of, lemma_same_values, exact_upto, lemma_exact_upto_grown, lemma_same_exact};
use crate::indicators::cached_indicator::{CachedIndicator, IndicatorCalculator};
use crate::indicators::types::{IndicatorError, IndicatorErrorView, ValueView, result_view};
use crate::num::{DecimalNum, DecView, spec_lt};

verus! {

/// Scans `values` at `j`, `j - 1`, ... down to `end`, from the lowest `h`
/// so far: the lowest value, or the first error met.
pub open spec fn lowest_scan(values: spec_fn(int) -> ValueView, h: DecView, j: int, end: int) -> ValueView
    decreases j - end + 1,
{
    if j < end {
        Ok(h)
    } else {
        match values(j) {
            Err(e) => Err(e),
            Ok(v) => lowest_scan(values, if spec_lt(v, h) { v } else { h }, j - 1, end),
        }
    }
}

/// The lowest of the `bar_count` values up to `index`. A NaN value at
/// `index` (past index 0, with a window longer than one) gives the lowest
/// value of the window one shorter ending one index before.
pub open spec fn lowest_value(values: spec_fn(int) -> ValueView, index: int, bar_count: int) -> ValueView
    decreases bar_count,
{
    match values(index) {
        Err(e) => Err(e),
        Ok(v) => if v.nan && bar_count > 1 && index > 0 {
            lowest_value(values, index - 1, bar_count - 1)
        } else {
            let end = if index - (bar_count - 1) > 0 { index - (bar_count - 1) } else { 0 };
            lowest_scan(values, v, index - 1, end)
        },
    }
}

/// Scanning finite values from a finite `h` gives a finite value that is
/// at least (at most, for the lowest) `h` and each value scanned, and is `h`
/// or one of them.
proof fn lemma_lowest_scan(values: spec_fn(int) -> ValueView, h: DecView, j: int, end: int)
    requires
        !h.nan,
        forall|k: int| end <= k <= j ==> (#[trigger] values(k)) is Ok && !values(k)->Ok_0.nan,
    ensures
        lowest_scan(values, h, j, end) is Ok,
        !lowest_scan(values, h, j, end)->Ok_0.nan,
        lowest_scan(values, h, j, end)->Ok_0.value() <= h.value(),
        forall|k: int| end <= k <= j ==> lowest_scan(values, h, j, end)->Ok_0.value() <= (#[trigger] values(k))->Ok_0.value(),
        lowest_scan(values, h, j, end)->Ok_0 == h || exists|k: int| end <= k <= j
            && #[trigger] values(k) == Ok::<DecView, IndicatorErrorView>(lowest_scan(values, h, j, end)->Ok_0),
    decreases j - end + 1,
{
    if j >= end {
        let v = values(j)->Ok_0;
        let h2 = if spec_lt(v, h) { v } else { h };
        lemma_lowest_scan(values, h2, j - 1, end);
    }
}

/// Over a window of finite values, the lowest value is one of the window's
/// values and is at most every value of the window.
pub proof fn law_lowest_of_window(values: spec_fn(int) -> ValueView, index: int, bar_count: int)
    requires
        index >= 0,
        bar_count >= 1,
        forall|k: int| (if index - (bar_count - 1) > 0 { index - (bar_count - 1) } else { 0 }) <= k <= index
            ==> (#[trigger] values(k)) is Ok && !values(k)->Ok_0.nan,
    ensures
        lowest_value(values, index, bar_count) is Ok,
        forall|k: int| (if index - (bar_count - 1) > 0 { index - (bar_count - 1) } else { 0 }) <= k <= index
            ==> lowest_value(values, index, bar_count)->Ok_0.value() <= (#[trigger] values(k))->Ok_0.value(),
        exists|k: int| (if index - (bar_count - 1) > 0 { index - (bar_count - 1) } else { 0 }) <= k <= index
            && #[trigger] values(k) == Ok::<DecView, IndicatorErrorView>(lowest_value(values, index, bar_count)->Ok_0),
{
    let end = if index - (bar_count - 1) > 0 { index - (bar_count - 1) } else { 0 };
    assert(values(index) is Ok);
    let v = values(index)->Ok_0;
    lemma_lowest_scan(values, v, index - 1, end);
    assert(values(index) == Ok::<DecView, IndicatorErrorView>(v));
}

/// The scan reads the values from `j` down to `end` only.
proof fn lemma_lowest_scan_agree(f1: spec_fn(int) -> ValueView, f2: spec_fn(int) -> ValueView, h: DecView, j: int, end: int)
    requires
        forall|k: int| end <= k <= j ==> #[trigger] f1(k) == f2(k),
    ensures
        lowest_scan(f1, h, j, end) == lowest_scan(f2, h, j, end),
    decreases j - end + 1,
{
    if j >= end {
        match f1(j) {
            Err(_) => {},
            Ok(v) => lemma_lowest_scan_agree(f1, f2, if spec_lt(v, h) { v } else { h }, j - 1, end),
        }
    }
}

/// The lowest value at `index` reads the values up to `index` only.
proof fn lemma_lowest_agree(f1: spec_fn(int) -> ValueView, f2: spec_fn(int) -> ValueView, index: int, bar_count: int)
    requires
        index >= 0,
        forall|j: int| 0 <= j <= index ==> #[trigger] f1(j) == f2(j),
    ensures
        lowest_value(f1, index, bar_count) == lowest_value(f2, index, bar_count),
    decreases bar_count,
{
    match f1(index) {
        Err(_) => {},
        Ok(v) => {
            if v.nan && bar_count > 1 && index > 0 {
                lemma_lowest_agree(f1, f2, index - 1, bar_count - 1);
            } else {
                let end = if index - (bar_count - 1) > 0 { index - (bar_count - 1) } else { 0 };
                lemma_lowest_scan_agree(f1, f2, v, index - 1, end);
            }
        },
    }
}

/// Computes the lowest value of an indicator over a window of bars.
#[derive(Clone, Copy, Debug)]
pub struct LowestValueCalculator<I> {
    indicator: I,
    bar_count: usize,
}

impl<I: Indicator> LowestValueCalculator<I> {
    /// A window of `bar_count` bars (at least one).
    pub fn new(indicator: I, bar_count: usize) -> (r: Self)
        requires
            bar_count >= 1,
        ensures
            r.spec_indicator() == indicator,
            r.spec_bar_count() == bar_count,
    {
        LowestValueCalculator { indicator, bar_count }
    }

    pub closed spec fn spec_indicator(&self) -> I {
        self.indicator
    }

    pub closed spec fn spec_bar_count(&self) -> usize {
        self.bar_count
    }
}

impl<I: Indicator> IndicatorCalculator for LowestValueCalculator<I> {
    open spec fn spec_calculate(&self, series: SeriesView, index: int) -> ValueView {
        lowest_value(values_of(self.spec_indicator(), series), index, self.spec_bar_count() as int)
    }

    open spec fn ready(&self, series: SeriesView) -> bool {
        self.spec_indicator().fresh(series) && self.spec_bar_count() >= 1
    }

    open spec fn stable_for(&self, series: SeriesView) -> bool {
        self.spec_indicator().stable_for(series)
    }

    /// The indicator read is exact up to `index`.
    open spec fn exact_at(&self, series: SeriesView, index: int) -> bool {
        exact_upto(self.spec_indicator(), series, index)
    }

    proof fn lemma_grown(&self, s: SeriesView, s2: SeriesView) {
        self.spec_indicator().lemma_grown(s, s2);
        lemma_exact_upto_grown(self.spec_indicator(), s, s2);
        assert forall|g: int| 0 <= g < s.bars.len() implies #[trigger] self.spec_calculate(s2, g) == self.spec_calculate(s, g) by {
            let f2 = values_of(self.spec_indicator(), s2);
            let f1 = values_of(self.spec_indicator(), s);
            assert forall|j: int| 0 <= j <= g implies #[trigger] f2(j) == f1(j) by {
                assert(self.spec_indicator().spec_value(s2, j) == self.spec_indicator().spec_value(s, j));
            }
            lemma_lowest_agree(f2, f1, g, self.spec_bar_count() as int);
        }
    }

    open spec fn spec_unstable_bars(&self) -> nat {
        self.spec_bar_count() as nat
    }

    fn calculate(&mut self, series: &BaseBarSeries, index: usize) -> (r: Result<DecimalNum, IndicatorError>) {
        let ghost ind0 = self.indicator;
        let ghost s = series@;
        let ghost vals = values_of(ind0, s);
        let ghost target = lowest_value(vals, index as int, self.bar_count as int);
        let mut idx = index;
        let mut n = self.bar_count;
        let first = self.indicator.get_value(series, idx);
        proof {
            lemma_same_values(self.indicator, ind0);
            lemma_same_exact(self.indicator, ind0);
        }
        let mut value = match first {
            Ok(v) => v,
            Err(e) => return Err(e),
        };
        while value.is_nan() && n > 1 && idx > 0
            invariant
                1 <= n <= self.bar_count,
                self.bar_count == old(self).bar_count,
                self.bar_count >= 1,
                ind0 == old(self).indicator,
                s == series@,
                series@.wf(),
                vals == values_of(ind0, s),
                target == lowest_value(vals, index as int, old(self).bar_count as int),
                self.indicator.fresh(s),
                s.removed_bars_count == 0 && old(self).indicator.stable_for(s) && index < s.bars.len()
                    ==> self.indicator.stable_for(s),
                idx <= index,
                self.indicator.spec_unstable_bars() == ind0.spec_unstable_bars(),
                forall|s2: SeriesView, i2: int| #[trigger] self.indicator.spec_value(s2, i2) == ind0.spec_value(s2, i2),
                forall|s2: SeriesView| #[trigger] values_of(self.indicator, s2) == values_of(ind0, s2),
                forall|s2: SeriesView, i2: int| #[trigger] self.indicator.exact_at(s2, i2) == ind0.exact_at(s2, i2),
                forall|s2: SeriesView, i2: int| #[trigger] exact_upto(self.indicator, s2, i2) == exact_upto(ind0, s2, i2),
                exact_upto(ind0, s, index as int) ==> {
                    &&& Ok::<DecView, IndicatorErrorView>(value@) == vals(idx as int)
                    &&& target == lowest_value(vals, idx as int, n as int)
                },
            decreases n,
        {
            idx = idx - 1;
            n = n - 1;
            let next = self.indicator.get_value(series, idx);
            proof {
            lemma_same_values(self.indicator, ind0);
            lemma_same_exact(self.indicator, ind0);
        }
            value = match next {
                Ok(v) => v,
                Err(e) => return Err(e),
            };
        }
        let end = if idx > n - 1 { idx - (n - 1) } else { 0 };
        let mut lowest = value;
        let mut i = idx;
        while i > end
            invariant
                end <= i <= idx,
                self.bar_count == old(self).bar_count,
                self.bar_count >= 1,
                ind0 == old(self).indicator,
                s == series@,
                series@.wf(),
                vals == values_of(ind0, s),
                target == lowest_value(vals, index as int, old(self).bar_count as int),
                self.indicator.fresh(s),
                s.removed_bars_count == 0 && old(self).indicator.stable_for(s) && index < s.bars.len()
                    ==> self.indicator.stable_for(s),
                idx <= index,
                self.indicator.spec_unstable_bars() == ind0.spec_unstable_bars(),
                forall|s2: SeriesView, i2: int| #[trigger] self.indicator.spec_value(s2, i2) == ind0.spec_value(s2, i2),
                forall|s2: SeriesView| #[trigger] values_of(self.indicator, s2) == values_of(ind0, s2),
                forall|s2: SeriesView, i2: int| #[trigger] self.indicator.exact_at(s2, i2) == ind0.exact_at(s2, i2),
                forall|s2: SeriesView, i2: int| #[trigger] exact_upto(self.indicator, s2, i2) == exact_upto(ind0, s2, i2),
                exact_upto(ind0, s, index as int) ==> target == lowest_scan(vals, lowest@, i - 1, end as int),
            decreases i,
        {
            i = i - 1;
            let next = self.indicator.get_value(series, i);
            proof {
            lemma_same_values(self.indicator, ind0);
            lemma_same_exact(self.indicator, ind0);
        }
            let v = match next {
                Ok(v) => v,
                Err(e) => return Err(e),
            };
            if lowest.is_greater_than(&v) {
                lowest = v;
            }
        }
        Ok(lowest)
    }

    fn count_of_unstable_bars(&self) -> (r: usize) {
        self.bar_count
    }
}

/// The lowest value of an indicator over a window, kept once computed.
pub type LowestValueIndicator<I> = CachedIndicator<LowestValueCalculator<I>>;

impl<I: Indicator> CachedIndicator<LowestValueCalculator<I>> {
    /// `bar_count` must be positive.
    pub fn new(indicator: I, series: &BaseBarSeries, bar_count: usize) -> (r: Self)
        requires
            bar_count >= 1,
        ensures
            r.spec_calculator().spec_indicator() == indicator,
            r.spec_calculator().spec_bar_count() == bar_count,
            forall|s: SeriesView| #[trigger] r.consistent(s) <== indicator.fresh(s),
            forall|s: SeriesView| #[trigger] r.stable(s) <== indicator.stable_for(s),
    {
        CachedIndicator::new_from_series(series, LowestValueCalculator::new(indicator, bar_count))
    }
}

} // verus!

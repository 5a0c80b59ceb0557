//! The running total of an indicator over a window of bars.
use vstd::prelude::*;
use crate::bar::base_bar_series::{BaseBarSeries, SeriesView};
use crate::indicators::{Indicator, values_of, lemma_same_values, exact_upto, lemma_exact_upto_grown, lemma_same_exact};
use crate::indicators::cached_indicator::{CachedIndicator, IndicatorCalculator};
use crate::indicators::types::{IndicatorError, IndicatorErrorView, ValueView};
use crate::num::{DecimalNum, DecView, MAX_SCALE, finite_view, spec_minus, spec_plus};

verus! {

/// Adds the values from `j` to `end` to `acc`, in index order: the sum, or
/// the first error met.
pub open spec fn window_fold(values: spec_fn(int) -> ValueView, j: int, end: int, acc: DecView) -> ValueView
    decreases end - j + 1,
{
    if j > end {
        Ok(acc)
    } else {
        match values(j) {
            Err(e) => Err(e),
            Ok(v) => window_fold(values, j + 1, end, spec_plus(acc, v)),
        }
    }
}

/// The first index of the window of `bar_count` bars that ends at `index`.
pub open spec fn window_start(index: int, bar_count: int) -> int {
    if index - (bar_count - 1) > 0 { index - (bar_count - 1) } else { 0 }
}

/// The sum of the values of the window of `bar_count` bars ending at `index`.
pub open spec fn window_total(values: spec_fn(int) -> ValueView, index: int, bar_count: int) -> ValueView {
    window_fold(values, window_start(index, bar_count), index, finite_view(0, 0))
}

/// The summed mantissas of the values from `j` to `end` (an error counting 0).
pub open spec fn mantissa_total(values: spec_fn(int) -> ValueView, j: int, end: int) -> int
    decreases end - j + 1,
{
    if j > end {
        0
    } else {
        (match values(j) {
            Ok(v) => v.mantissa as int,
            Err(_) => 0,
        }) + mantissa_total(values, j + 1, end)
    }
}

/// A value at scale `s` with a mantissa below `2^40`.
pub open spec fn small_at_scale(r: ValueView, s: u32) -> bool {
    r matches Ok(v) && !v.nan && v.scale == s && -0x100_0000_0000 < v.mantissa < 0x100_0000_0000
}

/// Folding small values of one scale into a sum is exact.
proof fn lemma_window_fold_exact(values: spec_fn(int) -> ValueView, start: int, j: int, end: int, a: i128, sa: u32, s: u32)
    requires
        start <= j <= end + 1,
        end - start + 1 <= 0x10_0000,
        s <= MAX_SCALE,
        forall|k: int| j <= k <= end ==> small_at_scale(#[trigger] values(k), s),
        a != 0 ==> sa == s,
        -(j - start) * 0x100_0000_0000 <= a <= (j - start) * 0x100_0000_0000,
    ensures
        window_fold(values, j, end, finite_view(a, sa)) matches Ok(t) && {
            &&& !t.nan
            &&& t.mantissa == a + mantissa_total(values, j, end)
            &&& t.mantissa != 0 ==> t.scale == s
        },
    decreases end - j + 1,
{
    if j <= end {
        let v = values(j)->Ok_0;
        assert(small_at_scale(values(j), s));
        let next = spec_plus(finite_view(a, sa), v);
        assert(next.mantissa == a + v.mantissa);
        assert(next.mantissa != 0 ==> next.scale == s);
        lemma_window_fold_exact(values, start, j + 1, end, next.mantissa, next.scale, s);
    }
}

/// The window total of values at one scale with mantissas below `2^40`, over a
/// window of at most `2^20` bars, is exactly their sum (at that scale, unless
/// it is zero).
pub proof fn law_window_total_is_sum(values: spec_fn(int) -> ValueView, index: int, bar_count: int, s: u32)
    requires
        0 <= index,
        1 <= bar_count <= 0x10_0000,
        s <= MAX_SCALE,
        forall|k: int| window_start(index, bar_count) <= k <= index ==> small_at_scale(#[trigger] values(k), s),
    ensures
        window_total(values, index, bar_count) matches Ok(t) && {
            &&& !t.nan
            &&& t.mantissa == mantissa_total(values, window_start(index, bar_count), index)
            &&& t.mantissa != 0 ==> t.scale == s
        },
{
    let start = window_start(index, bar_count);
    lemma_window_fold_exact(values, start, start, index, 0, 0, s);
}

/// The total at `index` from the total `previous` at `index - 1`: the value
/// at `index` added and, once the window is full, the value leaving it
/// subtracted.
pub open spec fn running_step(values: spec_fn(int) -> ValueView, previous: DecView, index: int, bar_count: int) -> ValueView {
    match values(index) {
        Err(e) => Err(e),
        Ok(x) => {
            let added = spec_plus(previous, x);
            if index >= bar_count {
                match values(index - bar_count) {
                    Err(e) => Err(e),
                    Ok(d) => Ok(spec_minus(added, d)),
                }
            } else {
                Ok(added)
            }
        },
    }
}

/// Stepping from the window sum at `i - 1` to `i` gives the window sum at
/// `i` (where the sum at `i - 1` is a number).
pub open spec fn step_exact(values: spec_fn(int) -> ValueView, i: int, bar_count: int) -> bool {
    match window_total(values, i - 1, bar_count) {
        Ok(w) => running_step(values, w, i, bar_count) == window_total(values, i, bar_count),
        Err(_) => true,
    }
}

/// Every step from index 1 up to `index` gives the window sum. Where a step
/// does not (the decimal sum rounds, or a NaN leaves the window), the total
/// reached step by step differs from the window summed afresh, and so the
/// running total depends on the order in which it is read.
pub open spec fn steps_exact_upto(values: spec_fn(int) -> ValueView, index: int, bar_count: int) -> bool {
    forall|i: int| 1 <= i <= index ==> #[trigger] step_exact(values, i, bar_count)
}

/// Adding the values from `j` to `end` reads those values only.
proof fn lemma_window_fold_agree(f1: spec_fn(int) -> ValueView, f2: spec_fn(int) -> ValueView, j: int, end: int, acc: DecView)
    requires
        forall|k: int| j <= k <= end ==> #[trigger] f1(k) == f2(k),
    ensures
        window_fold(f1, j, end, acc) == window_fold(f2, j, end, acc),
    decreases end - j + 1,
{
    if j <= end {
        match f1(j) {
            Err(_) => {},
            Ok(v) => lemma_window_fold_agree(f1, f2, j + 1, end, spec_plus(acc, v)),
        }
    }
}

/// Whether the steps up to `index` give the window sums reads the values up
/// to `index` only.
proof fn lemma_steps_agree(f1: spec_fn(int) -> ValueView, f2: spec_fn(int) -> ValueView, index: int, bar_count: int)
    requires
        bar_count >= 0,
        forall|j: int| 0 <= j <= index ==> #[trigger] f1(j) == f2(j),
    ensures
        steps_exact_upto(f1, index, bar_count) == steps_exact_upto(f2, index, bar_count),
        index >= 0 ==> window_total(f1, index, bar_count) == window_total(f2, index, bar_count),
{
    if index >= 0 {
        lemma_window_fold_agree(f1, f2, window_start(index, bar_count), index, finite_view(0, 0));
    }
    assert forall|i: int| 1 <= i <= index implies #[trigger] step_exact(f1, i, bar_count) == step_exact(f2, i, bar_count) by {
        lemma_window_fold_agree(f1, f2, window_start(i - 1, bar_count), i - 1, finite_view(0, 0));
        lemma_window_fold_agree(f1, f2, window_start(i, bar_count), i, finite_view(0, 0));
        assert(f1(i) == f2(i));
        if i >= bar_count {
            assert(f1(i - bar_count) == f2(i - bar_count));
        }
    }
    if steps_exact_upto(f1, index, bar_count) {
        assert forall|i: int| 1 <= i <= index implies #[trigger] step_exact(f2, i, bar_count) by {
            assert(step_exact(f1, i, bar_count));
        }
    }
    if steps_exact_upto(f2, index, bar_count) {
        assert forall|i: int| 1 <= i <= index implies #[trigger] step_exact(f1, i, bar_count) by {
            assert(step_exact(f2, i, bar_count));
        }
    }
}

/// Computes the running total of an indicator. The total last computed is
/// kept: the index right after it takes one step from it, any other index
/// sums its window afresh.
#[derive(Clone, Copy, Debug)]
pub struct RunningTotalCalculator<I> {
    indicator: I,
    bar_count: usize,
    prev_index: Option<usize>,
    prev_sum: DecimalNum,
}

impl<I: Indicator> RunningTotalCalculator<I> {
    /// A window of `bar_count` bars (at least one).
    pub fn new(indicator: I, bar_count: usize) -> (r: Self)
        requires
            bar_count >= 1,
        ensures
            r.spec_indicator() == indicator,
            r.spec_bar_count() == bar_count,
            r.spec_prev_index() is None,
            forall|s: SeriesView| #[trigger] r.ready(s) <== indicator.fresh(s),
            forall|s: SeriesView| #[trigger] r.stable_for(s) <== indicator.stable_for(s),
    {
        RunningTotalCalculator { indicator, bar_count, prev_index: None, prev_sum: DecimalNum::zero() }
    }

    pub closed spec fn spec_indicator(&self) -> I {
        self.indicator
    }

    pub closed spec fn spec_bar_count(&self) -> usize {
        self.bar_count
    }

    /// The index of the total kept, if any.
    pub closed spec fn spec_prev_index(&self) -> Option<usize> {
        self.prev_index
    }

    /// The total kept.
    pub closed spec fn spec_prev_sum(&self) -> DecimalNum {
        self.prev_sum
    }

    /// The total kept is the window sum at its index wherever the indicator is
    /// exact and the steps give the window sums up to that index.
    pub closed spec fn kept_ok(&self, series: SeriesView) -> bool {
        self.prev_index matches Some(p) ==> (
            exact_upto(self.indicator, series, p as int)
                && steps_exact_upto(values_of(self.indicator, series), p as int, self.bar_count as int)
            ==> window_total(values_of(self.indicator, series), p as int, self.bar_count as int)
                == Ok::<DecView, IndicatorErrorView>(self.prev_sum@))
    }

    /// The total kept (if any) is for an index below `n`.
    pub closed spec fn kept_below(&self, n: int) -> bool {
        self.prev_index matches Some(p) ==> p < n
    }

    /// The total at `index` as this calculator computes it now: one step from
    /// the total kept when `index` comes right after it, the window sum
    /// otherwise.
    pub open spec fn next_total(&self, series: SeriesView, index: int) -> ValueView {
        let vals = values_of(self.spec_indicator(), series);
        if index >= 1 && self.spec_prev_index() == Some((index - 1) as usize) {
            running_step(vals, self.spec_prev_sum()@, index, self.spec_bar_count() as int)
        } else {
            window_total(vals, index, self.spec_bar_count() as int)
        }
    }

    /// Appending bars keeps the total kept right.
    proof fn lemma_kept_ok_grown(&self, s: SeriesView, s2: SeriesView)
        requires
            s.wf(),
            s2.wf(),
            s.grows_to(s2),
            self.bar_count >= 1,
            self.kept_ok(s),
            self.kept_below(s.bars.len() as int),
        ensures
            self.kept_ok(s2),
    {
        self.indicator.lemma_grown(s, s2);
        lemma_exact_upto_grown(self.indicator, s, s2);
        if let Some(p) = self.prev_index {
            let f2 = values_of(self.indicator, s2);
            let f1 = values_of(self.indicator, s);
            assert forall|j: int| 0 <= j <= p implies #[trigger] f2(j) == f1(j) by {
                assert(self.indicator.spec_value(s2, j) == self.indicator.spec_value(s, j));
            }
            lemma_steps_agree(f2, f1, p as int, self.bar_count as int);
            assert(exact_upto(self.indicator, s2, p as int) == exact_upto(self.indicator, s, p as int));
        }
    }

    /// The sum of the window ending at `index`.
    fn window_sum(&mut self, series: &BaseBarSeries, index: usize) -> (r: Result<DecimalNum, IndicatorError>)
        requires
            series@.wf(),
            old(self).indicator.fresh(series@),
            old(self).bar_count >= 1,
        ensures
            final(self).indicator.fresh(series@),
            final(self).bar_count == old(self).bar_count,
            final(self).prev_index == old(self).prev_index,
            final(self).prev_sum == old(self).prev_sum,
            final(self).indicator.spec_unstable_bars() == old(self).indicator.spec_unstable_bars(),
            forall|s2: SeriesView, i2: int| #[trigger] final(self).indicator.spec_value(s2, i2) == old(self).indicator.spec_value(s2, i2),
            forall|s2: SeriesView, i2: int| #[trigger] final(self).indicator.exact_at(s2, i2) == old(self).indicator.exact_at(s2, i2),
            forall|s2: SeriesView| #[trigger] values_of(final(self).indicator, s2) == values_of(old(self).indicator, s2),
            exact_upto(old(self).indicator, series@, index as int) ==> crate::indicators::types::result_view(r)
                == window_total(values_of(old(self).indicator, series@), index as int, old(self).bar_count as int),
            series@.removed_bars_count == 0 && old(self).indicator.stable_for(series@) && index < series@.bars.len()
                ==> final(self).indicator.stable_for(series@),
    {
        let ghost ind0 = self.indicator;
        let ghost s = series@;
        let ghost vals = values_of(ind0, s);
        proof {
            lemma_same_values(self.indicator, ind0);
            lemma_same_exact(self.indicator, ind0);
        }
        let start = if index > self.bar_count - 1 { index - (self.bar_count - 1) } else { 0 };
        let mut sum = series.factory_ref().zero();
        let mut i = start;
        while i <= index
            invariant
                start <= i,
                i <= index + 1,
                s == series@,
                series@.wf(),
                ind0 == old(self).indicator,
                vals == values_of(ind0, s),
                self.bar_count == old(self).bar_count,
                self.prev_index == old(self).prev_index,
                self.prev_sum == old(self).prev_sum,
                self.indicator.fresh(s),
                s.removed_bars_count == 0 && old(self).indicator.stable_for(s) && index < s.bars.len()
                    ==> self.indicator.stable_for(s),
                self.indicator.spec_unstable_bars() == ind0.spec_unstable_bars(),
                forall|s2: SeriesView, i2: int| #[trigger] self.indicator.spec_value(s2, i2) == ind0.spec_value(s2, i2),
                forall|s2: SeriesView, i2: int| #[trigger] self.indicator.exact_at(s2, i2) == ind0.exact_at(s2, i2),
                forall|s2: SeriesView, i2: int| #[trigger] exact_upto(self.indicator, s2, i2) == exact_upto(ind0, s2, i2),
                forall|s2: SeriesView| #[trigger] values_of(self.indicator, s2) == values_of(ind0, s2),
                exact_upto(ind0, s, index as int) ==> window_total(vals, index as int, self.bar_count as int)
                    == window_fold(vals, i as int, index as int, sum@),
            decreases index + 1 - i,
        {
            let v = self.indicator.get_value(series, i);
            proof {
            lemma_same_values(self.indicator, ind0);
            lemma_same_exact(self.indicator, ind0);
        }
            let v = match v {
                Ok(v) => v,
                Err(e) => return Err(e),
            };
            let ghost before = sum@;
            sum = sum.plus(&v);
            if i == index {
                proof {
                    if exact_upto(ind0, s, index as int) {
                        assert(window_fold(vals, i as int, index as int, before) == window_fold(vals, i + 1, index as int, sum@));
                        assert(window_fold(vals, i + 1, index as int, sum@) == Ok::<DecView, IndicatorErrorView>(sum@));
                    }
                }
                return Ok(sum);
            }
            i = i + 1;
        }
        Ok(sum)
    }

    /// The total at `index` from the total `prev_sum` at `index - 1`.
    fn partial_sum(&mut self, series: &BaseBarSeries, index: usize, prev_sum: DecimalNum) -> (r: Result<DecimalNum, IndicatorError>)
        requires
            series@.wf(),
            old(self).indicator.fresh(series@),
        ensures
            final(self).indicator.fresh(series@),
            final(self).bar_count == old(self).bar_count,
            final(self).prev_index == old(self).prev_index,
            final(self).prev_sum == old(self).prev_sum,
            final(self).indicator.spec_unstable_bars() == old(self).indicator.spec_unstable_bars(),
            forall|s2: SeriesView, i2: int| #[trigger] final(self).indicator.spec_value(s2, i2) == old(self).indicator.spec_value(s2, i2),
            forall|s2: SeriesView, i2: int| #[trigger] final(self).indicator.exact_at(s2, i2) == old(self).indicator.exact_at(s2, i2),
            forall|s2: SeriesView| #[trigger] values_of(final(self).indicator, s2) == values_of(old(self).indicator, s2),
            exact_upto(old(self).indicator, series@, index as int) ==> crate::indicators::types::result_view(r)
                == running_step(values_of(old(self).indicator, series@), prev_sum@, index as int, old(self).bar_count as int),
            series@.removed_bars_count == 0 && old(self).indicator.stable_for(series@) && index < series@.bars.len()
                ==> final(self).indicator.stable_for(series@),
    {
        let ghost ind0 = self.indicator;
        let x = self.indicator.get_value(series, index);
        proof {
            lemma_same_values(self.indicator, ind0);
            lemma_same_exact(self.indicator, ind0);
        }
        let x = match x {
            Ok(v) => v,
            Err(e) => return Err(e),
        };
        let mut sum = prev_sum.plus(&x);
        if index >= self.bar_count {
            let drop = self.indicator.get_value(series, index - self.bar_count);
            proof {
            lemma_same_values(self.indicator, ind0);
            lemma_same_exact(self.indicator, ind0);
        }
            let drop = match drop {
                Ok(v) => v,
                Err(e) => return Err(e),
            };
            sum = sum.minus(&drop);
        }
        Ok(sum)
    }
}

impl<I: Indicator> IndicatorCalculator for RunningTotalCalculator<I> {
    /// The sum of the values of the window of `bar_count` bars ending at `index`.
    open spec fn spec_calculate(&self, series: SeriesView, index: int) -> ValueView {
        window_total(values_of(self.spec_indicator(), series), index, self.spec_bar_count() as int)
    }

    open spec fn ready(&self, series: SeriesView) -> bool {
        &&& self.spec_indicator().fresh(series)
        &&& self.spec_bar_count() >= 1
        &&& self.kept_ok(series)
    }

    open spec fn stable_for(&self, series: SeriesView) -> bool {
        self.spec_indicator().stable_for(series) && self.kept_below(series.bars.len() as int)
    }

    /// The indicator is exact up to `index` and every step up to `index` gives
    /// the window sum, so that a total reached step by step is the window sum.
    open spec fn exact_at(&self, series: SeriesView, index: int) -> bool {
        &&& exact_upto(self.spec_indicator(), series, index)
        &&& steps_exact_upto(values_of(self.spec_indicator(), series), index, self.spec_bar_count() as int)
    }

    proof fn lemma_grown(&self, s: SeriesView, s2: SeriesView) {
        self.spec_indicator().lemma_grown(s, s2);
        lemma_exact_upto_grown(self.spec_indicator(), s, s2);
        let f2 = values_of(self.spec_indicator(), s2);
        let f1 = values_of(self.spec_indicator(), s);
        assert forall|j: int| 0 <= j < s.bars.len() implies #[trigger] f2(j) == f1(j) by {
            assert(self.spec_indicator().spec_value(s2, j) == self.spec_indicator().spec_value(s, j));
        }
        assert forall|g: int| 0 <= g < s.bars.len() implies #[trigger] self.spec_calculate(s2, g) == self.spec_calculate(s, g) by {
            lemma_steps_agree(f2, f1, g, self.spec_bar_count() as int);
        }
        assert forall|g: int| 0 <= g < s.bars.len() implies #[trigger] self.exact_at(s2, g) == self.exact_at(s, g) by {
            lemma_steps_agree(f2, f1, g, self.spec_bar_count() as int);
            assert(exact_upto(self.spec_indicator(), s2, g) == exact_upto(self.spec_indicator(), s, g));
        }
        if self.ready(s) && self.stable_for(s) {
            self.lemma_kept_ok_grown(s, s2);
        }
    }

    open spec fn spec_unstable_bars(&self) -> nat {
        self.spec_bar_count() as nat
    }

    /// One step from the total kept when `index` comes right after it (see
    /// `next_total`), the window sum otherwise; a total computed is kept.
    fn calculate(&mut self, series: &BaseBarSeries, index: usize) -> (r: Result<DecimalNum, IndicatorError>)
        ensures
            exact_upto(old(self).spec_indicator(), series@, index as int)
                ==> crate::indicators::types::result_view(r) == old(self).next_total(series@, index as int),
            r is Ok ==> final(self).spec_prev_index() == Some(index) && final(self).spec_prev_sum() == r->Ok_0,
            r is Err ==> final(self).spec_prev_index() == old(self).spec_prev_index()
                && final(self).spec_prev_sum() == old(self).spec_prev_sum(),
    {
        let ghost ind0 = self.indicator;
        let ghost s = series@;
        let ghost vals = values_of(ind0, s);
        let ghost n = self.bar_count as int;
        let ghost pre = *self;
        proof {
            lemma_same_values(self.indicator, ind0);
            lemma_same_exact(self.indicator, ind0);
        }
        let sequential = match self.prev_index {
            Some(last) => last < index && index - last == 1,
            None => false,
        };
        let sum = if sequential {
            let prev = self.prev_sum;
            self.partial_sum(series, index, prev)
        } else {
            self.window_sum(series, index)
        };
        proof {
            lemma_same_values(self.indicator, ind0);
            lemma_same_exact(self.indicator, ind0);
        }
        if let Ok(v) = sum {
            self.prev_index = Some(index);
            self.prev_sum = v;
        }
        proof {
            if exact_upto(ind0, s, index as int) && steps_exact_upto(vals, index as int, n) {
                if sequential {
                    let p = (index - 1) as int;
                    assert(exact_upto(ind0, s, p));
                    assert(steps_exact_upto(vals, p, n));
                    assert(step_exact(vals, index as int, n));
                }
            }
            if sum is Ok {
                assert(exact_upto(ind0, s, index as int) && steps_exact_upto(vals, index as int, n)
                    ==> window_total(vals, index as int, n) == Ok::<DecView, IndicatorErrorView>(self.prev_sum@));
            }
        }
        sum
    }

    fn count_of_unstable_bars(&self) -> (r: usize) {
        self.bar_count
    }
}

/// The running total of an indicator, kept once computed.
pub type RunningTotalIndicator<I> = CachedIndicator<RunningTotalCalculator<I>>;

impl<I: Indicator> CachedIndicator<RunningTotalCalculator<I>> {
    /// `bar_count` must be positive.
    pub fn new(indicator: I, series: &BaseBarSeries, bar_count: usize) -> (r: Self)
        requires
            bar_count >= 1,
        ensures
            r.spec_calculator().spec_indicator() == indicator,
            r.spec_calculator().spec_bar_count() == bar_count,
            forall|s: SeriesView| #[trigger] r.consistent(s) <== indicator.fresh(s),
            forall|s: SeriesView| #[trigger] r.stable(s) <== indicator.stable_for(s),
    {
        CachedIndicator::new_from_series(series, RunningTotalCalculator::new(indicator, bar_count))
    }
}

} // verus!

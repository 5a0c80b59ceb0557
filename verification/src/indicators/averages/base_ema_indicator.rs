//! Exponential moving averages with a given multiplier.
use vstd::prelude::*;
use crate::bar::base_bar_series::{BaseBarSeries, SeriesView};
use crate::indicators::{Indicator, values_of, lemma_same_values, lemma_same_exact, exact_upto, lemma_exact_upto_grown};
use crate::indicators::types::{IndicatorError, IndicatorErrorView, ValueView};
use crate::num::{
    DecimalNum, DecView, I32_BOUND, MAX_ALIGN, MAX_SCALE, finite_view, fits_i32, lemma_pow10_align, lemma_small_product,
    spec_minus, spec_plus, spec_times,
};
use vstd::arithmetic::power::pow;

verus! {

/// The exponential moving average of `values` at `index`: the first value at
/// index 0, then `(value - previous) * multiplier + previous`, where
/// `previous` is the average one index before; the first error met otherwise.
pub open spec fn ema_value(values: spec_fn(int) -> ValueView, multiplier: DecView, index: int) -> ValueView
    decreases index,
{
    if index <= 0 {
        values(index)
    } else {
        match ema_value(values, multiplier, index - 1) {
            Err(e) => Err(e),
            Ok(previous) => match values(index) {
                Err(e) => Err(e),
                Ok(current) => Ok(spec_plus(spec_times(spec_minus(current, previous), multiplier), previous)),
            },
        }
    }
}

/// Each step of the average moves it from the previous average toward the new
/// value by the multiplier: `ema(i) - ema(i - 1) == multiplier * (value(i) -
/// ema(i - 1))`, so that with multiplier 0 the average stays where it was and
/// with multiplier 1 it is the new value. Stated where this is exact: whole
/// numbers, a multiplier below `2^31` and the two values below `2^30`.
pub proof fn law_ema_step(values: spec_fn(int) -> ValueView, multiplier: DecView, index: int, previous: i128, current: i128)
    requires
        index > 0,
        ema_value(values, multiplier, index - 1) == Ok::<DecView, IndicatorErrorView>(finite_view(previous, 0)),
        values(index) == Ok::<DecView, IndicatorErrorView>(finite_view(current, 0)),
        !multiplier.nan,
        multiplier.scale == 0,
        fits_i32(multiplier.mantissa as int),
        -I32_BOUND / 2 < previous < I32_BOUND / 2,
        -I32_BOUND / 2 < current < I32_BOUND / 2,
    ensures
        ema_value(values, multiplier, index) == Ok::<DecView, IndicatorErrorView>(
            finite_view(((current - previous) * multiplier.mantissa + previous) as i128, 0),
        ),
{
    let d = current - previous;
    let mu = multiplier.mantissa as int;
    lemma_small_product(d, mu);
    assert(d == 0 || mu == 0 ==> d * mu == 0) by (nonlinear_arith);
    assert(d != 0 && mu != 0 ==> d * mu != 0) by (nonlinear_arith);
    assert(spec_minus(finite_view(current, 0), finite_view(previous, 0)) == finite_view(d as i128, 0));
    assert(spec_times(finite_view(d as i128, 0), multiplier) == finite_view((d * mu) as i128, 0));
}

/// The same step with any multiplier, such as `0.25`: where the previous
/// average and the new value share a scale, the new average is, as a number,
/// `(value(i) - ema(i - 1)) * multiplier + ema(i - 1)` exactly. Stated for
/// mantissas of the two values below `2^30` and of the multiplier below `2^31`,
/// a multiplier of at most 19 digits, and scales that add up to at most 28.
pub proof fn law_ema_step_exact(
    values: spec_fn(int) -> ValueView,
    multiplier: DecView,
    index: int,
    previous: DecView,
    current: DecView,
)
    requires
        index > 0,
        ema_value(values, multiplier, index - 1) == Ok::<DecView, IndicatorErrorView>(previous),
        values(index) == Ok::<DecView, IndicatorErrorView>(current),
        !previous.nan && !current.nan && !multiplier.nan,
        previous.scale == current.scale,
        previous.scale + multiplier.scale <= MAX_SCALE,
        multiplier.scale <= MAX_ALIGN,
        fits_i32(multiplier.mantissa as int),
        -I32_BOUND / 2 < previous.mantissa < I32_BOUND / 2,
        -I32_BOUND / 2 < current.mantissa < I32_BOUND / 2,
    ensures
        ema_value(values, multiplier, index) matches Ok(v) && !v.nan && v.value() == {
            let (p, c, mu) = (previous.mantissa as int, current.mantissa as int, multiplier.mantissa as int);
            ((c - p) * mu + p * pow(10, multiplier.scale as nat))
                * pow(10, (MAX_SCALE - previous.scale - multiplier.scale) as nat)
        },
{
    let (p, c, mu) = (previous.mantissa as int, current.mantissa as int, multiplier.mantissa as int);
    let (s, sm) = (previous.scale, multiplier.scale);
    let d = c - p;
    lemma_small_product(d, mu);
    assert(d == 0 || mu == 0 ==> d * mu == 0) by (nonlinear_arith);
    assert(d != 0 && mu != 0 ==> d * mu != 0) by (nonlinear_arith);
    let diff = spec_minus(current, previous);
    assert(diff == finite_view(d as i128, s));
    let prod = spec_times(diff, multiplier);
    assert(d * mu == 0 ==> prod == finite_view(0, 0));
    assert(d * mu != 0 ==> prod == finite_view((d * mu) as i128, (s + sm) as u32));
    lemma_pow10_align(p, s, sm);
    lemma_pow10_align(d * mu, (s + sm) as u32, 0);
    let q = pow(10, sm as nat);
    let r = pow(10, (MAX_SCALE - s - sm) as nat);
    let sum = spec_plus(prod, previous);
    if d * mu == 0 {
        assert(sum == previous);
        assert(sum.value() == (d * mu + p * q) * r);
    } else if p == 0 {
        assert(sum == prod);
        assert(p * q == 0) by (nonlinear_arith)
            requires
                p == 0,
        ;
        assert(sum.value() == (d * mu + p * q) * r);
    } else if sm == 0 {
        assert(sum == finite_view((d * mu + p) as i128, s));
        assert(p * q == p) by (nonlinear_arith)
            requires
                q == 1,
        ;
        assert(sum.value() == (d * mu + p * q) * r);
    } else {
        assert(sum == finite_view((d * mu + p * q) as i128, (s + sm) as u32));
        assert(sum.value() == (d * mu + p * q) * r);
    }
}

/// An exponential moving average of an indicator. The averages are computed
/// in index order and kept, so that each is computed from the one before
/// without recursion.
#[derive(Clone, Debug)]
pub struct BaseEmaIndicator<I> {
    indicator: I,
    bar_count: usize,
    multiplier: DecimalNum,
    values: Vec<DecimalNum>,
}

impl<I: Indicator> BaseEmaIndicator<I> {
    pub fn new(indicator: I, bar_count: usize, multiplier: DecimalNum) -> (r: Self)
        ensures
            r.spec_indicator() == indicator,
            r.spec_bar_count() == bar_count,
            r.spec_multiplier() == multiplier,
            forall|s: SeriesView| #[trigger] r.fresh(s) <== indicator.fresh(s),
            forall|s: SeriesView| #[trigger] r.stable_for(s) <== indicator.stable_for(s),
    {
        BaseEmaIndicator { indicator, bar_count, multiplier, values: Vec::new() }
    }

    pub closed spec fn spec_indicator(&self) -> I {
        self.indicator
    }

    pub closed spec fn spec_bar_count(&self) -> usize {
        self.bar_count
    }

    pub closed spec fn spec_multiplier(&self) -> DecimalNum {
        self.multiplier
    }

    /// The averages kept, from index 0 on.
    pub closed spec fn spec_kept(&self) -> Seq<DecimalNum> {
        self.values@
    }

    /// The indicator averaged.
    pub fn indicator(&self) -> (r: &I)
        ensures
            *r == self.spec_indicator(),
    {
        &self.indicator
    }

    pub fn bar_count(&self) -> (r: usize)
        ensures
            r == self.spec_bar_count(),
    {
        self.bar_count
    }
}

impl<I: Indicator> Indicator for BaseEmaIndicator<I> {
    open spec fn spec_value(&self, series: SeriesView, index: int) -> ValueView {
        ema_value(values_of(self.spec_indicator(), series), self.spec_multiplier()@, index)
    }

    /// The indicator read is fresh and, if no bar has been removed, the
    /// averages kept are those of `spec_value` where the indicator is exact.
    open spec fn fresh(&self, series: SeriesView) -> bool {
        &&& self.spec_indicator().fresh(series)
        &&& series.removed_bars_count == 0 ==> forall|k: int| 0 <= k < self.spec_kept().len()
            && exact_upto(self.spec_indicator(), series, k)
            ==> #[trigger] self.spec_value(series, k) == Ok::<DecView, IndicatorErrorView>(self.spec_kept()[k]@)
    }

    /// The averages kept may have been computed before the series dropped
    /// bars: exact while no bar has been removed and the indicator is exact up
    /// to `index`.
    open spec fn exact_at(&self, series: SeriesView, index: int) -> bool {
        series.removed_bars_count == 0 && exact_upto(self.spec_indicator(), series, index)
    }

    open spec fn spec_unstable_bars(&self) -> nat {
        self.spec_bar_count() as nat
    }

    open spec fn stable_for(&self, series: SeriesView) -> bool {
        self.spec_indicator().stable_for(series) && self.spec_kept().len() <= series.bars.len()
    }

    proof fn lemma_grown(&self, s: SeriesView, s2: SeriesView) {
        self.spec_indicator().lemma_grown(s, s2);
        lemma_exact_upto_grown(self.spec_indicator(), s, s2);
        let f2 = values_of(self.spec_indicator(), s2);
        let f1 = values_of(self.spec_indicator(), s);
        assert forall|j: int| 0 <= j < s.bars.len() implies #[trigger] f2(j) == f1(j) by {
            assert(self.spec_indicator().spec_value(s2, j) == self.spec_indicator().spec_value(s, j));
        }
        assert forall|g: int| 0 <= g < s.bars.len() implies #[trigger] self.spec_value(s2, g) == self.spec_value(s, g) by {
            lemma_ema_agree(f2, f1, self.spec_multiplier()@, g);
        }
    }

    fn get_value(&mut self, series: &BaseBarSeries, index: usize) -> (r: Result<DecimalNum, IndicatorError>) {
        let ghost ind0 = self.indicator;
        let ghost s = series@;
        let ghost vals = values_of(ind0, s);
        let ghost m = self.multiplier@;
        if index < self.values.len() {
            return Ok(self.values[index]);
        }
        proof {
            assert forall|k: int| s.removed_bars_count == 0 && 0 <= k < self.values@.len() && exact_upto(ind0, s, k)
                implies #[trigger] ema_value(vals, m, k) == Ok::<DecView, IndicatorErrorView>(self.values@[k]@) by {
                assert(old(self).spec_value(s, k) == Ok::<DecView, IndicatorErrorView>(old(self).spec_kept()[k]@));
            }
        }
        while self.values.len() <= index
            invariant
                s == series@,
                series@.wf(),
                ind0 == old(self).indicator,
                vals == values_of(ind0, s),
                m == old(self).multiplier@,
                self.multiplier == old(self).multiplier,
                self.bar_count == old(self).bar_count,
                self.indicator.fresh(s),
                s.removed_bars_count == 0 && old(self).indicator.stable_for(s) && index < s.bars.len()
                    ==> self.indicator.stable_for(s),
                self.values@.len() <= index + 1,
                self.indicator.spec_unstable_bars() == ind0.spec_unstable_bars(),
                forall|s2: SeriesView, i2: int| #[trigger] self.indicator.spec_value(s2, i2) == ind0.spec_value(s2, i2),
                forall|s2: SeriesView| #[trigger] values_of(self.indicator, s2) == values_of(ind0, s2),
                forall|s2: SeriesView, i2: int| #[trigger] self.indicator.exact_at(s2, i2) == ind0.exact_at(s2, i2),
                s.removed_bars_count == 0 ==> forall|k: int| 0 <= k < self.values@.len() && exact_upto(ind0, s, k)
                    ==> #[trigger] ema_value(vals, m, k) == Ok::<DecView, IndicatorErrorView>(self.values@[k]@),
            decreases index + 1 - self.values@.len(),
        {
            let k = self.values.len();
            let current = self.indicator.get_value(series, k);
            proof {
                lemma_same_values(self.indicator, ind0);
                lemma_same_exact(self.indicator, ind0);
            }
            let current = match current {
                Ok(v) => v,
                Err(e) => {
                    proof {
                        if s.removed_bars_count == 0 && exact_upto(ind0, s, index as int) && k > 0 {
                            assert(exact_upto(ind0, s, k - 1));
                            assert(ema_value(vals, m, k - 1) == Ok::<DecView, IndicatorErrorView>(self.values@[k - 1]@));
                        }
                        if s.removed_bars_count == 0 && exact_upto(ind0, s, index as int) {
                            assert(ind0.exact_at(s, k as int));
                            assert(vals(k as int) == ind0.spec_value(s, k as int));
                            lemma_ema_error_propagates(vals, m, k as int, index as int);
                        }
                    }
                    return Err(e);
                },
            };
            let v = if k == 0 {
                current
            } else {
                let previous = self.values[k - 1];
                proof {
                    if s.removed_bars_count == 0 && exact_upto(ind0, s, k as int) {
                        assert(exact_upto(ind0, s, k - 1));
                        assert(ema_value(vals, m, k - 1) == Ok::<DecView, IndicatorErrorView>(self.values@[k - 1]@));
                    }
                }
                current.minus(&previous).multiplied_by(&self.multiplier).plus(&previous)
            };
            self.values.push(v);
        }
        proof {
            lemma_same_values(self.indicator, ind0);
            lemma_same_exact(self.indicator, ind0);
            if s.removed_bars_count == 0 && exact_upto(ind0, s, index as int) {
                assert(ema_value(vals, m, index as int) == Ok::<DecView, IndicatorErrorView>(self.values@[index as int]@));
            }
        }
        Ok(self.values[index])
    }

    fn count_of_unstable_bars(&self) -> (r: usize) {
        self.bar_count
    }
}

/// The average at `index` reads the values up to `index` only.
proof fn lemma_ema_agree(f1: spec_fn(int) -> ValueView, f2: spec_fn(int) -> ValueView, m: DecView, index: int)
    requires
        index >= 0,
        forall|j: int| 0 <= j <= index ==> #[trigger] f1(j) == f2(j),
    ensures
        ema_value(f1, m, index) == ema_value(f2, m, index),
    decreases index,
{
    if index > 0 {
        lemma_ema_agree(f1, f2, m, index - 1);
    }
}

/// An error of the values at `k`, with the averages before `k` defined, is
/// the average's error at every later index.
proof fn lemma_ema_error_propagates(values: spec_fn(int) -> ValueView, m: DecView, k: int, index: int)
    requires
        0 <= k <= index,
        values(k) is Err,
        k > 0 ==> ema_value(values, m, k - 1) is Ok,
    ensures
        ema_value(values, m, index) == Err::<DecView, IndicatorErrorView>(values(k)->Err_0),
    decreases index - k,
{
    if index > k {
        lemma_ema_error_propagates(values, m, k, index - 1);
    }
}

} // verus!

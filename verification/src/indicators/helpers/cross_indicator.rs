//! Whether one indicator crossed down below another.
use vstd::prelude::*;
use crate::bar::base_bar_series::{BaseBarSeries, SeriesView};
use crate::indicators::{Indicator, values_of, lemma_same_values, exact_upto, lemma_exact_upto_grown, lemma_same_exact};
use crate::indicators::cached_indicator::{CachedIndicator, IndicatorCalculator};
use crate::indicators::types::{IndicatorError, IndicatorErrorView, ValueView};
use crate::num::{DecimalNum, DecView, finite_view, spec_ge, spec_gt, spec_num_eq};

verus! {

/// A truth value as a number: 1 or 0.
pub open spec fn bool_num(b: bool) -> DecView {
    finite_view(if b { 1 } else { 0 }, 0)
}

/// Looking back from index `i - 1` past the indices where `up` and `low` are
/// equal: whether `up` was above `low` at the first index where they differ
/// (false if they never do), or the first error met.
pub open spec fn crossed_before(up: spec_fn(int) -> ValueView, low: spec_fn(int) -> ValueView, i: int) -> Result<bool, IndicatorErrorView>
    decreases i,
{
    if i <= 0 {
        Ok(false)
    } else {
        match up(i - 1) {
            Err(e) => Err(e),
            Ok(u) => match low(i - 1) {
                Err(e) => Err(e),
                Ok(l) => if spec_num_eq(u, l) { crossed_before(up, low, i - 1) } else { Ok(spec_gt(u, l)) },
            },
        }
    }
}

/// 1 if `up` is below `low` at `index` and was above it before (looking past
/// equal values), 0 otherwise; or the first error met.
pub open spec fn cross_value(up: spec_fn(int) -> ValueView, low: spec_fn(int) -> ValueView, index: int) -> ValueView {
    if index == 0 {
        Ok(bool_num(false))
    } else {
        match up(index) {
            Err(e) => Err(e),
            Ok(u) => match low(index) {
                Err(e) => Err(e),
                Ok(l) => if spec_ge(u, l) {
                    Ok(bool_num(false))
                } else {
                    match crossed_before(up, low, index) {
                        Err(e) => Err(e),
                        Ok(b) => Ok(bool_num(b)),
                    }
                },
            },
        }
    }
}

/// A cross value is 1 or 0.
pub proof fn law_cross_is_boolean(up: spec_fn(int) -> ValueView, low: spec_fn(int) -> ValueView, index: int)
    ensures
        cross_value(up, low, index) matches Ok(v) ==> (v == bool_num(true) || v == bool_num(false)),
{
}

/// Looking back from `i - 1` reads the values below `i` only.
proof fn lemma_crossed_before_agree(
    up1: spec_fn(int) -> ValueView,
    low1: spec_fn(int) -> ValueView,
    up2: spec_fn(int) -> ValueView,
    low2: spec_fn(int) -> ValueView,
    i: int,
)
    requires
        forall|j: int| 0 <= j <= i ==> #[trigger] up1(j) == up2(j) && low1(j) == low2(j),
    ensures
        crossed_before(up1, low1, i) == crossed_before(up2, low2, i),
    decreases i,
{
    if i > 0 {
        lemma_crossed_before_agree(up1, low1, up2, low2, i - 1);
    }
}

/// Computes whether `up` crossed down below `low`.
#[derive(Clone, Copy, Debug)]
pub struct CrossCalculator<IU, IL> {
    up: IU,
    low: IL,
}

impl<IU: Indicator, IL: Indicator> CrossCalculator<IU, IL> {
    pub fn new(up: IU, low: IL) -> (r: Self)
        ensures
            r.spec_up() == up,
            r.spec_low() == low,
    {
        CrossCalculator { up, low }
    }

    pub closed spec fn spec_up(&self) -> IU {
        self.up
    }

    pub closed spec fn spec_low(&self) -> IL {
        self.low
    }
}

fn bool_to_num(b: bool) -> (r: DecimalNum)
    ensures
        r@ == bool_num(b),
{
    DecimalNum::from_i64(if b { 1 } else { 0 })
}

impl<IU: Indicator, IL: Indicator> IndicatorCalculator for CrossCalculator<IU, IL> {
    open spec fn spec_calculate(&self, series: SeriesView, index: int) -> ValueView {
        cross_value(values_of(self.spec_up(), series), values_of(self.spec_low(), series), index)
    }

    open spec fn ready(&self, series: SeriesView) -> bool {
        self.spec_up().fresh(series) && self.spec_low().fresh(series)
    }

    open spec fn stable_for(&self, series: SeriesView) -> bool {
        self.spec_up().stable_for(series) && self.spec_low().stable_for(series)
    }

    /// Both indicators read are exact up to `index`.
    open spec fn exact_at(&self, series: SeriesView, index: int) -> bool {
        exact_upto(self.spec_up(), series, index) && exact_upto(self.spec_low(), series, index)
    }

    proof fn lemma_grown(&self, s: SeriesView, s2: SeriesView) {
        self.spec_up().lemma_grown(s, s2);
        self.spec_low().lemma_grown(s, s2);
        lemma_exact_upto_grown(self.spec_up(), s, s2);
        lemma_exact_upto_grown(self.spec_low(), s, s2);
        assert forall|g: int| 0 <= g < s.bars.len() implies #[trigger] self.spec_calculate(s2, g) == self.spec_calculate(s, g) by {
            let u2 = values_of(self.spec_up(), s2);
            let u1 = values_of(self.spec_up(), s);
            let l2 = values_of(self.spec_low(), s2);
            let l1 = values_of(self.spec_low(), s);
            assert forall|j: int| 0 <= j <= g implies #[trigger] u2(j) == u1(j) && l2(j) == l1(j) by {
                assert(self.spec_up().spec_value(s2, j) == self.spec_up().spec_value(s, j));
                assert(self.spec_low().spec_value(s2, j) == self.spec_low().spec_value(s, j));
            }
            lemma_crossed_before_agree(u2, l2, u1, l1, g);
        }
    }

    open spec fn spec_unstable_bars(&self) -> nat {
        0
    }

    fn calculate(&mut self, series: &BaseBarSeries, index: usize) -> (r: Result<DecimalNum, IndicatorError>) {
        let ghost up0 = self.up;
        let ghost low0 = self.low;
        let ghost s = series@;
        if index == 0 {
            return Ok(bool_to_num(false));
        }
        let up_value = self.up.get_value(series, index);
        proof {
            lemma_same_values(self.up, up0);
            lemma_same_exact(self.up, up0);
        }
        let up_value = match up_value {
            Ok(v) => v,
            Err(e) => return Err(e),
        };
        let low_value = self.low.get_value(series, index);
        proof {
            lemma_same_values(self.low, low0);
            lemma_same_exact(self.low, low0);
        }
        let low_value = match low_value {
            Ok(v) => v,
            Err(e) => return Err(e),
        };
        if up_value.is_greater_than_or_equal(&low_value) {
            return Ok(bool_to_num(false));
        }
        let mut i = index;
        while i > 0
            invariant
                i <= index,
                s == series@,
                series@.wf(),
                up0 == old(self).up,
                low0 == old(self).low,
                self.up.fresh(s),
                self.low.fresh(s),
                s.removed_bars_count == 0 && old(self).up.stable_for(s) && old(self).low.stable_for(s) && index < s.bars.len()
                    ==> self.up.stable_for(s) && self.low.stable_for(s),
                self.up.spec_unstable_bars() == up0.spec_unstable_bars(),
                self.low.spec_unstable_bars() == low0.spec_unstable_bars(),
                forall|s2: SeriesView, i2: int| #[trigger] self.up.spec_value(s2, i2) == up0.spec_value(s2, i2),
                forall|s2: SeriesView, i2: int| #[trigger] self.low.spec_value(s2, i2) == low0.spec_value(s2, i2),
                forall|s2: SeriesView| #[trigger] values_of(self.up, s2) == values_of(up0, s2),
                forall|s2: SeriesView| #[trigger] values_of(self.low, s2) == values_of(low0, s2),
                forall|s2: SeriesView, i2: int| #[trigger] self.up.exact_at(s2, i2) == up0.exact_at(s2, i2),
                forall|s2: SeriesView, i2: int| #[trigger] self.low.exact_at(s2, i2) == low0.exact_at(s2, i2),
                forall|s2: SeriesView, i2: int| #[trigger] exact_upto(self.up, s2, i2) == exact_upto(up0, s2, i2),
                forall|s2: SeriesView, i2: int| #[trigger] exact_upto(self.low, s2, i2) == exact_upto(low0, s2, i2),
                old(self).exact_at(s, index as int) ==> old(self).spec_calculate(s, index as int) == (match crossed_before(
                    values_of(up0, s), values_of(low0, s), i as int) {
                    Err(e) => Err(e),
                    Ok(b) => Ok(bool_num(b)),
                }),
            decreases i,
        {
            let prev_up = self.up.get_value(series, i - 1);
            proof {
            lemma_same_values(self.up, up0);
            lemma_same_exact(self.up, up0);
        }
            let prev_up = match prev_up {
                Ok(v) => v,
                Err(e) => return Err(e),
            };
            let prev_low = self.low.get_value(series, i - 1);
            proof {
            lemma_same_values(self.low, low0);
            lemma_same_exact(self.low, low0);
        }
            let prev_low = match prev_low {
                Ok(v) => v,
                Err(e) => return Err(e),
            };
            if !prev_up.is_equal(&prev_low) {
                return Ok(bool_to_num(prev_up.is_greater_than(&prev_low)));
            }
            i = i - 1;
        }
        Ok(bool_to_num(false))
    }

    fn count_of_unstable_bars(&self) -> (r: usize) {
        0
    }
}

/// Whether `up` crossed down below `low`, kept once computed.
pub type CrossIndicator<IU, IL> = CachedIndicator<CrossCalculator<IU, IL>>;

impl<IU: Indicator, IL: Indicator> CachedIndicator<CrossCalculator<IU, IL>> {
    pub fn new(up: IU, low: IL, series: &BaseBarSeries) -> (r: Self)
        ensures
            r.spec_calculator().spec_up() == up,
            r.spec_calculator().spec_low() == low,
            forall|s: SeriesView| #[trigger] r.consistent(s) <== up.fresh(s) && low.fresh(s),
            forall|s: SeriesView| #[trigger] r.stable(s) <== up.stable_for(s) && low.stable_for(s),
    {
        CachedIndicator::new_from_series(series, CrossCalculator::new(up, low))
    }

    pub fn get_up(&self) -> (r: &IU)
        ensures
            *r == self.spec_calculator().spec_up(),
    {
        &self.calculator().up
    }

    pub fn get_low(&self) -> (r: &IL)
        ensures
            *r == self.spec_calculator().spec_low(),
    {
        &self.calculator().low
    }
}

} // verus!

//! Indicators: a value (or an error) at each index of a bar series.
//!
//! An indicator is read with the series it is computed on. Indicators that
//! keep computed values (caches) state, through `fresh`, that what they keep
//! for a series agrees with what they compute on it; on such a series, every
//! read gives the value that `spec_value` defines.
use vstd::prelude::*;
use crate::bar::base_bar::BaseBar;
use crate::bar::base_bar_series::{BaseBarSeries, SeriesView, law_append_grows};
use crate::indicators::types::{IndicatorError, ValueView, result_view};
use crate::num::DecimalNum;

pub mod types;
pub mod cached_indicator;
pub mod cached_aux_indicator;
pub mod recursive_cached_indicator;
pub mod helpers;
pub mod averages;
pub mod atr_indicator;
pub mod numeric;

verus! {

/// A value at each index of a bar series.
pub trait Indicator: Sized {
    /// The value at `index` on `series`.
    spec fn spec_value(&self, series: SeriesView, index: int) -> ValueView;

    /// What the indicator keeps for `series` agrees with `spec_value`.
    spec fn fresh(&self, series: SeriesView) -> bool;

    /// The number of first bars whose values are not yet meaningful.
    spec fn spec_unstable_bars(&self) -> nat;

    /// Every value kept (here or by the indicators read) is for a bar of
    /// `series` (none removed) and agrees with `spec_value`.
    spec fn stable_for(&self, series: SeriesView) -> bool;

    /// Reading the indicator at `index` on `series` gives `spec_value`. This
    /// holds everywhere for an indicator that reads bars only; a cache can hold
    /// values computed before the series dropped bars, so for one it holds while
    /// no bar has been removed (and what it reads is exact); a running total
    /// read out of order sums its window afresh, so it holds where that sum
    /// agrees with the step from the total before.
    spec fn exact_at(&self, series: SeriesView, index: int) -> bool;

    /// Appending bars to a series leaves the values at its bars as they were,
    /// and keeps a fresh and stable indicator fresh and stable.
    proof fn lemma_grown(&self, s: SeriesView, s2: SeriesView)
        requires
            s.wf(),
            s2.wf(),
            s.grows_to(s2),
        ensures
            forall|g: int| 0 <= g < s.bars.len() ==> #[trigger] self.spec_value(s2, g) == self.spec_value(s, g),
            forall|g: int| 0 <= g < s.bars.len() ==> #[trigger] self.exact_at(s2, g) == self.exact_at(s, g),
            self.fresh(s) && self.stable_for(s) ==> self.fresh(s2) && self.stable_for(s2),
    ;

    /// The value at `index`. Where the indicator is exact it is
    /// `spec_value`; reading keeps the indicator fresh and its values unchanged.
    fn get_value(&mut self, series: &BaseBarSeries, index: usize) -> (r: Result<DecimalNum, IndicatorError>)
        requires
            series@.wf(),
            old(self).fresh(series@),
        ensures
            final(self).fresh(series@),
            final(self).spec_unstable_bars() == old(self).spec_unstable_bars(),
            forall|s: SeriesView, i: int| #[trigger] final(self).spec_value(s, i) == old(self).spec_value(s, i),
            forall|s: SeriesView, i: int| #[trigger] final(self).exact_at(s, i) == old(self).exact_at(s, i),
            old(self).exact_at(series@, index as int) ==> result_view(r) == old(self).spec_value(series@, index as int),
            series@.removed_bars_count == 0 && old(self).stable_for(series@) && index < series@.bars.len()
                ==> final(self).stable_for(series@),
    ;

    fn count_of_unstable_bars(&self) -> (r: usize)
        ensures
            r == self.spec_unstable_bars(),
    ;

    /// Whether the value at `index` is meaningful.
    fn is_stable_at(&self, index: usize) -> (r: bool)
        ensures
            r == (index >= self.spec_unstable_bars()),
    {
        index >= self.count_of_unstable_bars()
    }

    /// Whether the series has more bars than the unstable ones.
    fn is_stable(&self, series: &BaseBarSeries) -> (r: bool)
        requires
            series@.wf(),
        ensures
            r == (series@.bar_count() >= self.spec_unstable_bars()),
    {
        series.get_bar_count() >= self.count_of_unstable_bars()
    }
}

/// Appending a bar to a series (when no bar is removed) leaves an
/// indicator's values at the earlier bars as they were; an indicator that is
/// fresh for the series and keeps values only for its bars stays so, so that
/// reading it on the longer series gives its values there.
pub proof fn law_indicator_survives_append<I: Indicator>(indicator: I, s: SeriesView, bar: BaseBar, s2: SeriesView)
    requires
        s.wf(),
        s2.wf(),
        s.appended(bar, s2),
        s2.removed_bars_count == 0,
    ensures
        forall|g: int| 0 <= g < s.bars.len() ==> #[trigger] indicator.spec_value(s2, g) == indicator.spec_value(s, g),
        indicator.fresh(s) && indicator.stable_for(s) ==> indicator.fresh(s2) && indicator.stable_for(s2),
{
    law_append_grows(s, bar, s2);
    indicator.lemma_grown(s, s2);
}

/// `indicator` is exact at every index from 0 to `index`.
pub open spec fn exact_upto<I: Indicator>(indicator: I, series: SeriesView, index: int) -> bool {
    forall|j: int| 0 <= j <= index ==> #[trigger] indicator.exact_at(series, j)
}

/// Appending bars leaves where an indicator is exact up to an index of an
/// earlier bar as it was.
pub proof fn lemma_exact_upto_grown<I: Indicator>(indicator: I, s: SeriesView, s2: SeriesView)
    requires
        s.wf(),
        s2.wf(),
        s.grows_to(s2),
    ensures
        forall|g: int| 0 <= g < s.bars.len() ==> #[trigger] exact_upto(indicator, s2, g) == exact_upto(indicator, s, g),
{
    indicator.lemma_grown(s, s2);
    assert forall|g: int| 0 <= g < s.bars.len() implies #[trigger] exact_upto(indicator, s2, g) == exact_upto(indicator, s, g) by {
        if exact_upto(indicator, s, g) {
            assert forall|j: int| 0 <= j <= g implies #[trigger] indicator.exact_at(s2, j) by {
                assert(indicator.exact_at(s, j));
            }
        }
        if exact_upto(indicator, s2, g) {
            assert forall|j: int| 0 <= j <= g implies #[trigger] indicator.exact_at(s, j) by {
                assert(indicator.exact_at(s2, j));
            }
        }
    }
}

/// The values of an indicator on a series, by index.
pub open spec fn values_of<I: Indicator>(indicator: I, series: SeriesView) -> spec_fn(int) -> ValueView {
    |j: int| indicator.spec_value(series, j)
}

/// Indicators with the same values on every series have the same values by index.
pub proof fn lemma_same_values<I: Indicator>(a: I, b: I)
    requires
        forall|s: SeriesView, i: int| #[trigger] a.spec_value(s, i) == b.spec_value(s, i),
    ensures
        forall|s: SeriesView| #[trigger] values_of(a, s) == values_of(b, s),
{
    assert forall|s: SeriesView| #[trigger] values_of(a, s) == values_of(b, s) by {
        assert(values_of(a, s) =~= values_of(b, s));
    }
}

/// Indicators exact at the same indices of every series are exact up to the
/// same indices.
pub proof fn lemma_same_exact<I: Indicator>(a: I, b: I)
    requires
        forall|s: SeriesView, i: int| #[trigger] a.exact_at(s, i) == b.exact_at(s, i),
    ensures
        forall|s: SeriesView, i: int| #[trigger] exact_upto(a, s, i) == exact_upto(b, s, i),
{
    assert forall|s: SeriesView, i: int| #[trigger] exact_upto(a, s, i) == exact_upto(b, s, i) by {
        if exact_upto(a, s, i) {
            assert forall|j: int| 0 <= j <= i implies #[trigger] b.exact_at(s, j) by {
                assert(a.exact_at(s, j));
            }
        }
        if exact_upto(b, s, i) {
            assert forall|j: int| 0 <= j <= i implies #[trigger] a.exact_at(s, j) by {
                assert(b.exact_at(s, j));
            }
        }
    }
}

} // verus!

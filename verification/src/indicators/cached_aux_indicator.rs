//! An indicator whose values are kept by index, with no limit.
use vstd::prelude::*;
use crate::bar::base_bar_series::{BaseBarSeries, SeriesView};
use crate::indicators::Indicator;
use crate::indicators::types::{IndicatorError, IndicatorErrorView, ValueView};
use crate::num::{DecimalNum, DecView};

verus! {

/// Keeps the values of `indicator`, by index, once computed.
#[derive(Clone, Debug)]
pub struct CachedAuxIndicator<I> {
    indicator: I,
    cache: Vec<Option<DecimalNum>>,
}

impl<I: Indicator> CachedAuxIndicator<I> {
    pub fn new(indicator: I) -> (r: Self)
        ensures
            r.spec_indicator() == indicator,
            r.spec_cache() == Seq::<Option<DecimalNum>>::empty(),
            forall|s: SeriesView| #[trigger] r.fresh(s) <== indicator.fresh(s),
            forall|s: SeriesView| #[trigger] r.stable_for(s) <== indicator.stable_for(s),
    {
        CachedAuxIndicator { indicator, cache: Vec::new() }
    }

    pub closed spec fn spec_indicator(&self) -> I {
        self.indicator
    }

    /// The values kept: slot `k` for index `k`.
    pub closed spec fn spec_cache(&self) -> Seq<Option<DecimalNum>> {
        self.cache@
    }
}

impl<I: Indicator> Indicator for CachedAuxIndicator<I> {
    open spec fn spec_value(&self, series: SeriesView, index: int) -> ValueView {
        self.spec_indicator().spec_value(series, index)
    }

    /// The indicator is fresh and, with no bar removed, every value kept is its value.
    open spec fn fresh(&self, series: SeriesView) -> bool {
        &&& self.spec_indicator().fresh(series)
        &&& series.removed_bars_count == 0 ==> forall|k: int| 0 <= k < self.spec_cache().len() && #[trigger] self.spec_cache()[k] is Some
            && self.spec_indicator().exact_at(series, k)
            ==> self.spec_value(series, k) == Ok::<DecView, IndicatorErrorView>(self.spec_cache()[k].unwrap()@)
    }

    /// The values kept may have been read before the series dropped bars:
    /// exact while no bar has been removed and the indicator is exact.
    open spec fn exact_at(&self, series: SeriesView, index: int) -> bool {
        series.removed_bars_count == 0 && self.spec_indicator().exact_at(series, index)
    }

    open spec fn spec_unstable_bars(&self) -> nat {
        self.spec_indicator().spec_unstable_bars()
    }

    /// The indicator is stable and every value kept is for a bar of the series.
    open spec fn stable_for(&self, series: SeriesView) -> bool {
        &&& self.spec_indicator().stable_for(series)
        &&& forall|k: int| 0 <= k < self.spec_cache().len() && #[trigger] self.spec_cache()[k] is Some ==> k < series.bars.len()
    }

    proof fn lemma_grown(&self, s: SeriesView, s2: SeriesView) {
        self.spec_indicator().lemma_grown(s, s2);
    }

    /// The value kept at `index`, or the indicator's value, then kept. (The
    /// last index that `usize` holds is computed and not kept.)
    fn get_value(&mut self, series: &BaseBarSeries, index: usize) -> (r: Result<DecimalNum, IndicatorError>)
        ensures
            index < old(self).spec_cache().len() && old(self).spec_cache()[index as int] is Some ==> {
                &&& r == Ok::<DecimalNum, IndicatorError>(old(self).spec_cache()[index as int].unwrap())
                &&& *final(self) == *old(self)
            },
            r is Ok && index < usize::MAX ==> {
                &&& index < final(self).spec_cache().len()
                &&& final(self).spec_cache()[index as int] == Some(r->Ok_0)
            },
            forall|k: int| 0 <= k < old(self).spec_cache().len() && #[trigger] old(self).spec_cache()[k] is Some
                ==> k < final(self).spec_cache().len() && final(self).spec_cache()[k] == old(self).spec_cache()[k],
            !(index < old(self).spec_cache().len() && old(self).spec_cache()[index as int] is Some)
                && old(self).spec_indicator().exact_at(series@, index as int)
                ==> crate::indicators::types::result_view(r) == old(self).spec_value(series@, index as int),
    {
        let ghost s = series@;
        if index == usize::MAX {
            // The cache never holds a slot for this index.
            let cache_len = self.cache.len();
            assert(cache_len <= index);
            let r = self.indicator.get_value(series, index);
            proof {
                assert forall|k: int| s.removed_bars_count == 0 && 0 <= k < self.cache@.len() && #[trigger] self.cache@[k] is Some
                    && self.indicator.exact_at(s, k)
                    implies self.indicator.spec_value(s, k) == Ok::<DecView, IndicatorErrorView>(self.cache@[k].unwrap()@) by {
                    assert(old(self).spec_cache()[k] is Some);
                }
            }
            return r;
        }
        if self.cache.len() <= index {
            while self.cache.len() <= index
                invariant
                    index < usize::MAX,
                    self.indicator == old(self).indicator,
                    self.cache@.len() <= index + 1,
                    self.cache@.len() >= old(self).cache@.len(),
                    forall|k: int| 0 <= k < old(self).cache@.len() ==> #[trigger] self.cache@[k] == old(self).cache@[k],
                    forall|k: int| old(self).cache@.len() <= k < self.cache@.len() ==> #[trigger] self.cache@[k] is None,
                decreases index + 1 - self.cache@.len(),
            {
                self.cache.push(None);
            }
        }
        let ghost grown = self.cache@;
        assert forall|k: int| 0 <= k < grown.len() && #[trigger] grown[k] is Some
            implies k < old(self).cache@.len() && grown[k] == old(self).cache@[k] by {
            if k >= old(self).cache@.len() {
                assert(grown[k] is None);
            }
        }
        if let Some(value) = self.cache[index] {
            proof {
                assert(grown[index as int] is Some);
                assert(old(self).spec_cache()[index as int] is Some);
            }
            return Ok(value);
        }
        let value = self.indicator.get_value(series, index);
        proof {
            assert forall|k: int| s.removed_bars_count == 0 && 0 <= k < self.cache@.len() && #[trigger] self.cache@[k] is Some
                && self.indicator.exact_at(s, k)
                implies self.indicator.spec_value(s, k) == Ok::<DecView, IndicatorErrorView>(self.cache@[k].unwrap()@) by {
                assert(grown[k] is Some);
                assert(old(self).spec_cache()[k] is Some);
            }
        }
        let value = match value {
            Ok(v) => v,
            Err(e) => return Err(e),
        };
        self.cache[index] = Some(value);
        proof {
            assert forall|k: int| s.removed_bars_count == 0 && 0 <= k < self.cache@.len() && #[trigger] self.cache@[k] is Some
                && self.indicator.exact_at(s, k)
                implies self.indicator.spec_value(s, k) == Ok::<DecView, IndicatorErrorView>(self.cache@[k].unwrap()@) by {
                if k != index {
                    assert(grown[k] is Some);
                    assert(old(self).spec_cache()[k] is Some);
                }
            }
        }
        Ok(value)
    }

    fn count_of_unstable_bars(&self) -> (r: usize) {
        self.indicator.count_of_unstable_bars()
    }
}

} // verus!

//! An indicator that keeps the values it computes.
//!
//! Values are kept in a window of slots: with `h` the highest index computed so
//! far and `len` slots, slot `k` holds the value of index `h - (len - 1 - k)`.
//! The window is at most the series' maximum bar count long; the value of the
//! series' last bar is not kept, since that bar may still change.
use vstd::prelude::*;
use crate::bar::base_bar_series::{BaseBarSeries, SeriesView};
use crate::indicators::Indicator;
use crate::indicators::types::{IndicatorError, ValueView, result_view};
use crate::num::{DecimalNum, DecView};

verus! {

/// Computes the value of an indicator at an index.
pub trait IndicatorCalculator: Sized {
    /// The value at `index` on `series`.
    spec fn spec_calculate(&self, series: SeriesView, index: int) -> ValueView;

    /// What the calculator keeps for `series` agrees with `spec_calculate`.
    spec fn ready(&self, series: SeriesView) -> bool;

    /// The number of first bars whose values are not yet meaningful.
    spec fn spec_unstable_bars(&self) -> nat;

    /// Every value kept (by the calculator or the indicators it reads) is for
    /// a bar of `series` (none removed) and agrees with what is computed.
    spec fn stable_for(&self, series: SeriesView) -> bool;

    /// `calculate` at `index` on `series` gives `spec_calculate`: everywhere
    /// for a calculator that reads bars only, and where what it reads is exact
    /// for the others.
    spec fn exact_at(&self, series: SeriesView, index: int) -> bool;

    /// Appending bars to a series leaves the values at its bars as they were,
    /// and keeps a ready and stable calculator ready and stable.
    proof fn lemma_grown(&self, s: SeriesView, s2: SeriesView)
        requires
            s.wf(),
            s2.wf(),
            s.grows_to(s2),
        ensures
            forall|g: int| 0 <= g < s.bars.len() ==> #[trigger] self.spec_calculate(s2, g) == self.spec_calculate(s, g),
            forall|g: int| 0 <= g < s.bars.len() ==> #[trigger] self.exact_at(s2, g) == self.exact_at(s, g),
            self.ready(s) && self.stable_for(s) ==> self.ready(s2) && self.stable_for(s2),
    ;

    fn calculate(&mut self, series: &BaseBarSeries, index: usize) -> (r: Result<DecimalNum, IndicatorError>)
        requires
            series@.wf(),
            old(self).ready(series@),
        ensures
            final(self).ready(series@),
            final(self).spec_unstable_bars() == old(self).spec_unstable_bars(),
            forall|s: SeriesView, i: int| #[trigger] final(self).spec_calculate(s, i) == old(self).spec_calculate(s, i),
            forall|s: SeriesView, i: int| #[trigger] final(self).exact_at(s, i) == old(self).exact_at(s, i),
            old(self).exact_at(series@, index as int) ==> result_view(r) == old(self).spec_calculate(series@, index as int),
            series@.removed_bars_count == 0 && old(self).stable_for(series@) && index < series@.bars.len()
                ==> final(self).stable_for(series@),
    ;

    fn count_of_unstable_bars(&self) -> (r: usize)
        ensures
            r == self.spec_unstable_bars(),
    ;
}

/// The slots after the window grows to reach `index` from the highest index
/// `h`: `min(index - h, max)` empty slots are appended and the oldest slots
/// dropped beyond `max`; when the new slots alone fill the window it is emptied.
pub open spec fn grown(slots: Seq<Option<DecimalNum>>, h: int, index: int, max: int) -> Seq<Option<DecimalNum>> {
    let added = if index - h < max { index - h } else { max };
    if added == max {
        Seq::new(max as nat, |i: int| None)
    } else {
        let all = slots + Seq::new(added as nat, |i: int| None);
        if all.len() > max {
            all.subrange(all.len() - max, all.len() as int)
        } else {
            all
        }
    }
}

/// An indicator whose values are computed by a calculator and kept.
#[derive(Clone, Debug)]
pub struct CachedIndicator<C> {
    results: Vec<Option<DecimalNum>>,
    highest_result_index: Option<usize>,
    calculator: C,
}

impl<C: IndicatorCalculator> CachedIndicator<C> {
    /// The slots.
    pub closed spec fn slots(&self) -> Seq<Option<DecimalNum>> {
        self.results@
    }

    /// The highest index computed so far.
    pub closed spec fn highest(&self) -> Option<usize> {
        self.highest_result_index
    }

    pub closed spec fn spec_calculator(&self) -> C {
        self.calculator
    }

    /// The values kept, by index.
    pub open spec fn cached(&self) -> Map<int, DecView> {
        match self.highest() {
            None => Map::empty(),
            Some(h) => Map::new(
                |g: int| h - self.slots().len() < g <= h && self.slots()[self.slots().len() - 1 - (h - g)] is Some,
                |g: int| self.slots()[self.slots().len() - 1 - (h - g)].unwrap()@,
            ),
        }
    }

    /// No value is kept before the first computation.
    pub open spec fn wf(&self) -> bool {
        self.highest() is None ==> forall|k: int| 0 <= k < self.slots().len() ==> #[trigger] self.slots()[k] is None
    }

    /// The calculator is ready for `series` and, if no bar of it has been
    /// removed, every value kept but that of the last bar is the calculator's
    /// where the calculator is exact.
    pub open spec fn consistent(&self, series: SeriesView) -> bool {
        &&& self.spec_calculator().ready(series)
        &&& self.wf()
        &&& series.removed_bars_count == 0 ==> forall|g: int|
            #![trigger self.cached().contains_key(g)]
            self.cached().contains_key(g) && !(0 <= g && series.end_index == Some(g as usize))
                && self.spec_calculator().exact_at(series, g)
                ==> self.spec_calculator().spec_calculate(series, g) == Ok::<DecView, crate::indicators::types::IndicatorErrorView>(self.cached()[g])
    }

    /// Every value kept is for a bar of `series` and is the calculator's value
    /// where the calculator is exact, and the calculator is stable for `series`.
    pub open spec fn stable(&self, series: SeriesView) -> bool {
        &&& self.spec_calculator().stable_for(series)
        &&& forall|g: int|
            #![trigger self.cached().contains_key(g)]
            self.cached().contains_key(g) ==> 0 <= g < series.bars.len()
                && (self.spec_calculator().exact_at(series, g)
                ==> self.spec_calculator().spec_calculate(series, g) == Ok::<DecView, crate::indicators::types::IndicatorErrorView>(self.cached()[g]))
    }

    /// An indicator with no value kept, with room for as many values as the
    /// series holds at most (none when it is unbounded).
    pub fn new_from_series(series: &BaseBarSeries, calculator: C) -> (r: Self)
        ensures
            r.spec_calculator() == calculator,
            r.cached() == Map::<int, DecView>::empty(),
            forall|s: SeriesView| #[trigger] r.consistent(s) <== calculator.ready(s),
            forall|s: SeriesView| #[trigger] r.stable(s) <== calculator.stable_for(s),
    {
        let max_count = series.get_maximum_bar_count();
        let capacity = if max_count == usize::MAX { 0 } else { max_count };
        let mut results: Vec<Option<DecimalNum>> = Vec::new();
        let mut i: usize = 0;
        while i < capacity
            invariant
                i <= capacity,
                results@.len() == i,
                forall|k: int| 0 <= k < i ==> #[trigger] results@[k] is None,
            decreases capacity - i,
        {
            results.push(None);
            i = i + 1;
        }
        let r = CachedIndicator { results, highest_result_index: None, calculator };
        assert(r.cached() =~= Map::<int, DecView>::empty());
        r
    }

    /// An indicator that reads the same series as `indicator`.
    pub fn new_from_indicator<I: Indicator>(indicator: &I, series: &BaseBarSeries, calculator: C) -> (r: Self)
        ensures
            r.spec_calculator() == calculator,
            r.cached() == Map::<int, DecView>::empty(),
            forall|s: SeriesView| #[trigger] r.consistent(s) <== calculator.ready(s),
            forall|s: SeriesView| #[trigger] r.stable(s) <== calculator.stable_for(s),
    {
        Self::new_from_series(series, calculator)
    }

    /// The number of slots.
    pub fn slots_len(&self) -> (r: usize)
        ensures
            r == self.slots().len(),
    {
        self.results.len()
    }

    /// The highest index computed so far.
    pub fn highest_result_index(&self) -> (r: Option<usize>)
        ensures
            r == self.highest(),
    {
        self.highest_result_index
    }

    pub fn calculator(&self) -> (r: &C)
        ensures
            *r == self.spec_calculator(),
    {
        &self.calculator
    }

    /// Drops the oldest slots beyond `max_length`.
    fn remove_exceeding_results(&mut self, max_length: usize)
        ensures
            final(self).slots() == (if old(self).slots().len() > max_length {
                old(self).slots().subrange(old(self).slots().len() - max_length, old(self).slots().len() as int)
            } else {
                old(self).slots()
            }),
            final(self).highest() == old(self).highest(),
            final(self).spec_calculator() == old(self).spec_calculator(),
    {
        let result_count = self.results.len();
        if result_count > max_length {
            let to_remove = result_count - max_length;
            let kept = self.results.split_off(to_remove);
            self.results = kept;
        }
    }

    /// Grows the window to reach `index`: on first use, `min(index + 1,
    /// max_length)` empty slots; past the highest index, as `grown` says.
    fn increase_length_to(&mut self, index: usize, max_length: usize)
        requires
            max_length >= 1,
            old(self).wf(),
        ensures
            final(self).highest() == old(self).highest(),
            final(self).spec_calculator() == old(self).spec_calculator(),
            final(self).wf(),
            final(self).slots().len() <= old(self).slots().len() || final(self).slots().len() <= max_length,
            match old(self).highest() {
                None => {
                    &&& final(self).slots().len() == (if index < max_length { index + 1 } else { max_length as int })
                    &&& forall|k: int| 0 <= k < final(self).slots().len() ==> #[trigger] final(self).slots()[k] is None
                },
                Some(h) => if index > h {
                    final(self).slots() == grown(old(self).slots(), h as int, index as int, max_length as int)
                } else {
                    final(self).slots() == old(self).slots()
                },
            },
    {
        match self.highest_result_index {
            Some(h) => {
                if index > h {
                    let needed = index - h;
                    let added = if needed < max_length { needed } else { max_length };
                    if added == max_length {
                        let mut fresh: Vec<Option<DecimalNum>> = Vec::new();
                        let mut i: usize = 0;
                        while i < max_length
                            invariant
                                i <= max_length,
                                fresh@.len() == i,
                                forall|k: int| 0 <= k < i ==> #[trigger] fresh@[k] == None::<DecimalNum>,
                            decreases max_length - i,
                        {
                            fresh.push(None);
                            i = i + 1;
                        }
                        self.results = fresh;
                        assert(self.results@ =~= grown(old(self).slots(), h as int, index as int, max_length as int));
                    } else {
                        let ghost before = self.results@;
                        let mut i: usize = 0;
                        while i < added
                            invariant
                                i <= added,
                                self.results@ =~= before + Seq::new(i as nat, |j: int| None::<DecimalNum>),
                                self.highest_result_index == old(self).highest_result_index,
                                self.calculator == old(self).calculator,
                            decreases added - i,
                        {
                            self.results.push(None);
                            i = i + 1;
                        }
                        self.remove_exceeding_results(max_length);
                        assert(self.results@ =~= grown(old(self).slots(), h as int, index as int, max_length as int));
                    }
                }
            },
            None => {
                let init_len = if index < max_length { index + 1 } else { max_length };
                if self.results.len() > init_len {
                    self.results.truncate(init_len);
                } else {
                    while self.results.len() < init_len
                        invariant
                            self.results@.len() <= init_len,
                            forall|k: int| 0 <= k < self.results@.len() ==> #[trigger] self.results@[k] is None,
                            self.highest_result_index == old(self).highest_result_index,
                            self.calculator == old(self).calculator,
                        decreases init_len - self.results@.len(),
                    {
                        self.results.push(None);
                    }
                }
            },
        }
    }
}


/// Growing the window to reach a higher `index` keeps every value for its index.
proof fn lemma_grown_keeps(slots: Seq<Option<DecimalNum>>, h: int, index: int, max: int, g: int)
    requires
        index > h,
        max >= 1,
        index - grown(slots, h, index, max).len() < g <= index,
        grown(slots, h, index, max)[grown(slots, h, index, max).len() - 1 - (index - g)] is Some,
    ensures
        h - slots.len() < g <= h,
        slots[slots.len() - 1 - (h - g)] == grown(slots, h, index, max)[grown(slots, h, index, max).len() - 1 - (index - g)],
{
    let added = if index - h < max { index - h } else { max };
    let new = grown(slots, h, index, max);
    if added == max {
        assert(new[new.len() - 1 - (index - g)] is None);
    } else {
        let all = slots + Seq::new(added as nat, |i: int| None::<DecimalNum>);
        let t = all.len() - new.len();
        let j = new.len() - 1 - (index - g);
        assert(new[j] == all[j + t]);
        assert(j + t == slots.len() - 1 - (h - g));
        if j + t >= slots.len() {
            assert(all[j + t] is None);
        }
    }
}

impl<C: IndicatorCalculator> CachedIndicator<C> {
    /// The value at `index`, computed and not kept.
    fn calculate(&mut self, series: &BaseBarSeries, index: usize) -> (r: Result<DecimalNum, IndicatorError>)
        requires
            series@.wf(),
            old(self).consistent(series@),
        ensures
            final(self).consistent(series@),
            final(self).cached() == old(self).cached(),
            final(self).slots() == old(self).slots(),
            final(self).highest() == old(self).highest(),
            final(self).spec_calculator().spec_unstable_bars() == old(self).spec_calculator().spec_unstable_bars(),
            forall|s: SeriesView, i: int| #[trigger] final(self).spec_calculator().spec_calculate(s, i)
                == old(self).spec_calculator().spec_calculate(s, i),
            forall|s: SeriesView, i: int| #[trigger] final(self).spec_calculator().exact_at(s, i) == old(self).spec_calculator().exact_at(s, i),
            old(self).spec_calculator().exact_at(series@, index as int)
                ==> result_view(r) == old(self).spec_calculator().spec_calculate(series@, index as int),
            series@.removed_bars_count == 0 && old(self).stable(series@) && index < series@.bars.len()
                ==> final(self).stable(series@),
    {
        let r = self.calculator.calculate(series, index);
        proof {
            assert forall|g: int|
                #![trigger self.cached().contains_key(g)]
                series@.removed_bars_count == 0 && self.cached().contains_key(g)
                    && !(0 <= g && series@.end_index == Some(g as usize))
                    && self.spec_calculator().exact_at(series@, g)
            implies self.spec_calculator().spec_calculate(series@, g)
                == Ok::<DecView, crate::indicators::types::IndicatorErrorView>(self.cached()[g]) by {
                assert(old(self).cached().contains_key(g));
                assert(self.spec_calculator().spec_calculate(series@, g) == old(self).spec_calculator().spec_calculate(series@, g));
            }
            assert(self.cached() =~= old(self).cached());
            if series@.removed_bars_count == 0 && old(self).stable(series@) && index < series@.bars.len() {
                assert forall|g: int|
                    #![trigger self.cached().contains_key(g)]
                    self.cached().contains_key(g) implies 0 <= g < series@.bars.len()
                        && (self.spec_calculator().exact_at(series@, g) ==> self.spec_calculator().spec_calculate(series@, g)
                            == Ok::<DecView, crate::indicators::types::IndicatorErrorView>(self.cached()[g])) by {
                    assert(old(self).cached().contains_key(g));
                    assert(self.spec_calculator().spec_calculate(series@, g) == old(self).spec_calculator().spec_calculate(series@, g));
                }
            }
        }
        r
    }

    /// The value at `index`: computed, or taken from the slots when kept.
    ///
    /// An index of a removed bar gives the value kept in the first slot, or
    /// the value at index 0; the last bar's value is always computed; an index
    /// outside the window is computed without being kept. On any series, a
    /// value kept for an index still held is returned as it is and any other
    /// is computed, so that it is the calculator's value where that is exact;
    /// with no bar removed the values kept are the calculator's too.
    pub fn get_cached_value(&mut self, series: &BaseBarSeries, index: usize) -> (r: Result<DecimalNum, IndicatorError>)
        requires
            series@.wf(),
            old(self).consistent(series@),
        ensures
            final(self).consistent(series@),
            final(self).spec_calculator().spec_unstable_bars() == old(self).spec_calculator().spec_unstable_bars(),
            forall|s: SeriesView, i: int| #[trigger] final(self).spec_calculator().spec_calculate(s, i)
                == old(self).spec_calculator().spec_calculate(s, i),
            forall|s: SeriesView, i: int| #[trigger] final(self).spec_calculator().exact_at(s, i) == old(self).spec_calculator().exact_at(s, i),
            series@.bars.len() > 0 && index >= series@.removed_bars_count && series@.end_index != Some(index)
                && old(self).cached().contains_key(index as int)
                ==> (r matches Ok(v) && v@ == old(self).cached()[index as int]),
            series@.bars.len() > 0 && index < series@.removed_bars_count && r is Ok
                ==> final(self).slots().len() > 0 && final(self).slots()[0] == Some(r->Ok_0),
            index >= series@.removed_bars_count && !old(self).cached().contains_key(index as int)
                && old(self).spec_calculator().exact_at(series@, index as int)
                ==> result_view(r) == old(self).spec_calculator().spec_calculate(series@, index as int),
            old(self).exact_at(series@, index as int)
                ==> result_view(r) == old(self).spec_calculator().spec_calculate(series@, index as int),
            final(self).slots().len() <= old(self).slots().len() || final(self).slots().len() <= series@.maximum_bar_count,
            series@.bars.len() > 0 && series@.end_index == Some(index) ==> final(self).cached() == old(self).cached(),
            series@.removed_bars_count == 0 && old(self).stable(series@) && index < series@.bars.len()
                ==> final(self).stable(series@),
    {
        let bar_count = series.get_bar_count();
        if bar_count == 0 {
            return self.calculate(series, index);
        }
        let removed_count = series.get_removed_bars_count();
        let max_count = series.get_maximum_bar_count();
        let end_index = series.get_end_index();
        if index < removed_count {
            self.increase_length_to(removed_count, max_count);
            self.highest_result_index = Some(removed_count);
            if self.results.len() == 0 {
                self.results.push(None);
            }
            if let Some(value) = self.results[0] {
                return Ok(value);
            }
            let val = self.calculator.calculate(series, 0);
            match val {
                Ok(v) => {
                    self.results[0] = Some(v);
                    return Ok(v);
                },
                Err(e) => {
                    return Err(e);
                },
            }
        }
        if end_index == Some(index) {
            return self.calculate(series, index);
        }
        let ghost old_slots = self.results@;
        let ghost old_h = self.highest_result_index;
        self.increase_length_to(index, max_count);
        match self.highest_result_index {
            Some(h) if index <= h => {
                proof {
                    assert(self.slots() == old_slots);
                    assert(self.cached() =~= old(self).cached());
                }
                let offset = h - index;
                let len = self.results.len();
                if offset >= len {
                    return self.calculate(series, index);
                }
                let inner = len - 1 - offset;
                if let Some(value) = self.results[inner] {
                    assert(self.cached().contains_key(index as int));
                    return Ok(value);
                }
                let val = self.calculator.calculate(series, index);
                match val {
                    Ok(v) => {
                        let ghost before = *self;
                        self.results[inner] = Some(v);
                        proof {
                            if series@.removed_bars_count == 0 && old(self).stable(series@) && index < series@.bars.len() {
                                assert forall|g: int|
                                    #![trigger self.cached().contains_key(g)]
                                    self.cached().contains_key(g) implies 0 <= g < series@.bars.len()
                                        && (self.spec_calculator().exact_at(series@, g) ==> self.spec_calculator().spec_calculate(series@, g)
                                            == Ok::<DecView, crate::indicators::types::IndicatorErrorView>(self.cached()[g])) by {
                                    if g != index {
                                        assert(before.cached().contains_key(g));
                                        assert(old(self).cached().contains_key(g));
                                    }
                                }
                            }
                            assert forall|g: int|
                                #![trigger self.cached().contains_key(g)]
                                series@.removed_bars_count == 0 && self.cached().contains_key(g)
                                    && !(0 <= g && series@.end_index == Some(g as usize))
                                    && self.spec_calculator().exact_at(series@, g)
                                implies self.spec_calculator().spec_calculate(series@, g)
                                    == Ok::<DecView, crate::indicators::types::IndicatorErrorView>(self.cached()[g]) by {
                                if g != index {
                                    assert(before.cached().contains_key(g));
                                    assert(old(self).cached().contains_key(g));
                                }
                            }
                        }
                        Ok(v)
                    },
                    Err(e) => Err(e),
                }
            },
            _ => {
                self.highest_result_index = Some(index);
                let val = self.calculator.calculate(series, index);
                match val {
                    Ok(v) => {
                        let len = self.results.len();
                        let ghost before = *self;
                        self.results[len - 1] = Some(v);
                        proof {
                            if series@.removed_bars_count == 0 && old(self).stable(series@) && index < series@.bars.len() {
                                assert forall|g: int|
                                    #![trigger self.cached().contains_key(g)]
                                    self.cached().contains_key(g) implies 0 <= g < series@.bars.len()
                                        && (self.spec_calculator().exact_at(series@, g) ==> self.spec_calculator().spec_calculate(series@, g)
                                            == Ok::<DecView, crate::indicators::types::IndicatorErrorView>(self.cached()[g])) by {
                                    if g != index {
                                        assert(before.cached().contains_key(g));
                                        match old_h {
                                            Some(h0) => {
                                                lemma_grown_keeps(old_slots, h0 as int, index as int, max_count as int, g);
                                                assert(old(self).cached().contains_key(g));
                                            },
                                            None => {
                                                assert(before.slots()[before.slots().len() - 1 - (index - g)] is None);
                                            },
                                        }
                                    }
                                }
                            }
                            assert forall|g: int|
                                #![trigger self.cached().contains_key(g)]
                                series@.removed_bars_count == 0 && self.cached().contains_key(g)
                                    && !(0 <= g && series@.end_index == Some(g as usize))
                                    && self.spec_calculator().exact_at(series@, g)
                                implies self.spec_calculator().spec_calculate(series@, g)
                                    == Ok::<DecView, crate::indicators::types::IndicatorErrorView>(self.cached()[g]) by {
                                if g != index {
                                    assert(before.cached().contains_key(g));
                                    match old_h {
                                        Some(h0) => {
                                            lemma_grown_keeps(old_slots, h0 as int, index as int, max_count as int, g);
                                            assert(old(self).cached().contains_key(g));
                                        },
                                        None => {
                                            assert(before.slots()[before.slots().len() - 1 - (index - g)] is None);
                                        },
                                    }
                                }
                            }
                        }
                        Ok(v)
                    },
                    Err(e) => {
                        proof {
                            if series@.removed_bars_count == 0 && old(self).stable(series@) && index < series@.bars.len() {
                                assert forall|g: int|
                                    #![trigger self.cached().contains_key(g)]
                                    self.cached().contains_key(g) implies 0 <= g < series@.bars.len()
                                        && (self.spec_calculator().exact_at(series@, g) ==> self.spec_calculator().spec_calculate(series@, g)
                                            == Ok::<DecView, crate::indicators::types::IndicatorErrorView>(self.cached()[g])) by {
                                    match old_h {
                                        Some(h0) => {
                                            lemma_grown_keeps(old_slots, h0 as int, index as int, max_count as int, g);
                                            assert(old(self).cached().contains_key(g));
                                        },
                                        None => {
                                            assert(self.slots()[self.slots().len() - 1 - (index - g)] is None);
                                        },
                                    }
                                }
                            }
                            assert forall|g: int|
                                #![trigger self.cached().contains_key(g)]
                                series@.removed_bars_count == 0 && self.cached().contains_key(g)
                                    && !(0 <= g && series@.end_index == Some(g as usize))
                                    && self.spec_calculator().exact_at(series@, g)
                                implies self.spec_calculator().spec_calculate(series@, g)
                                    == Ok::<DecView, crate::indicators::types::IndicatorErrorView>(self.cached()[g]) by {
                                match old_h {
                                    Some(h0) => {
                                        lemma_grown_keeps(old_slots, h0 as int, index as int, max_count as int, g);
                                        assert(old(self).cached().contains_key(g));
                                    },
                                    None => {
                                        assert(self.slots()[self.slots().len() - 1 - (index - g)] is None);
                                    },
                                }
                            }
                        }
                        Err(e)
                    },
                }
            },
        }
    }
}

impl<C: IndicatorCalculator> Indicator for CachedIndicator<C> {
    open spec fn spec_value(&self, series: SeriesView, index: int) -> ValueView {
        self.spec_calculator().spec_calculate(series, index)
    }

    open spec fn fresh(&self, series: SeriesView) -> bool {
        self.consistent(series)
    }

    open spec fn spec_unstable_bars(&self) -> nat {
        self.spec_calculator().spec_unstable_bars()
    }

    open spec fn stable_for(&self, series: SeriesView) -> bool {
        self.stable(series)
    }

    /// Values kept before the series dropped bars may differ from those
    /// computed on it, so a cache is exact while no bar has been removed.
    open spec fn exact_at(&self, series: SeriesView, index: int) -> bool {
        series.removed_bars_count == 0 && self.spec_calculator().exact_at(series, index)
    }

    proof fn lemma_grown(&self, s: SeriesView, s2: SeriesView) {
        self.spec_calculator().lemma_grown(s, s2);
        if self.fresh(s) && self.stable_for(s) {
            assert forall|g: int|
                #![trigger self.cached().contains_key(g)]
                self.cached().contains_key(g) implies 0 <= g < s2.bars.len()
                    && (self.spec_calculator().exact_at(s2, g) ==> self.spec_calculator().spec_calculate(s2, g)
                        == Ok::<DecView, crate::indicators::types::IndicatorErrorView>(self.cached()[g])) by {
                assert(self.spec_calculator().spec_calculate(s2, g) == self.spec_calculator().spec_calculate(s, g));
                assert(self.spec_calculator().exact_at(s2, g) == self.spec_calculator().exact_at(s, g));
            }
        }
    }

    fn get_value(&mut self, series: &BaseBarSeries, index: usize) -> (r: Result<DecimalNum, IndicatorError>) {
        self.get_cached_value(series, index)
    }

    fn count_of_unstable_bars(&self) -> (r: usize) {
        self.calculator.count_of_unstable_bars()
    }
}

} // verus!

//! The volume of each bar, summed over a window of bars.
use vstd::prelude::*;
use crate::bar::base_bar_series::{BaseBarSeries, SeriesView};
use crate::indicators::cached_indicator::{CachedIndicator, IndicatorCalculator};
use crate::indicators::types::{IndicatorError, ValueView};
use crate::num::{DecimalNum, DecView, finite_view, spec_plus};

verus! {

/// The volume of the bar at `index`, zero without a bar.
pub open spec fn volume_at(series: SeriesView, index: int) -> DecView {
    match series.bar_at(index) {
        None => finite_view(0, 0),
        Some(bar) => bar.volume@,
    }
}

/// The volumes of the `count` bars from `start` on, added from the first.
pub open spec fn volume_sum(series: SeriesView, start: int, count: nat) -> DecView
    decreases count,
{
    if count == 0 {
        finite_view(0, 0)
    } else {
        spec_plus(volume_sum(series, start, (count - 1) as nat), volume_at(series, start + count - 1))
    }
}

/// The number of bars of a window of `bar_count` bars that ends at `index`.
pub open spec fn window_len(index: int, bar_count: int) -> int {
    if index + 1 < bar_count { index + 1 } else { bar_count }
}

/// Appending bars leaves the sums of volumes of the first bars as they were.
proof fn lemma_volume_sum_grown(s: SeriesView, s2: SeriesView, start: int, count: nat)
    requires
        s.wf(),
        s2.wf(),
        s.grows_to(s2),
        0 <= start,
        start + count <= s.bars.len(),
    ensures
        volume_sum(s2, start, count) == volume_sum(s, start, count),
    decreases count,
{
    if count > 0 {
        lemma_volume_sum_grown(s, s2, start, (count - 1) as nat);
        crate::bar::base_bar_series::lemma_grown_bars(s, s2, start + count - 1);
    }
}

/// Sums the volumes of the last `bar_count` bars up to an index.
#[derive(Clone, Copy, Debug)]
pub struct VolumeCalculator {
    bar_count: usize,
}

impl VolumeCalculator {
    /// A window of `bar_count` bars (at least one).
    pub fn new(bar_count: usize) -> (r: Self)
        ensures
            r.spec_bar_count() == (if bar_count >= 1 { bar_count } else { 1 }),
    {
        VolumeCalculator { bar_count: if bar_count >= 1 { bar_count } else { 1 } }
    }

    pub closed spec fn spec_bar_count(&self) -> usize {
        self.bar_count
    }
}

impl IndicatorCalculator for VolumeCalculator {
    open spec fn spec_calculate(&self, series: SeriesView, index: int) -> ValueView {
        let n = window_len(index, self.spec_bar_count() as int);
        Ok(volume_sum(series, index - n + 1, n as nat))
    }

    closed spec fn ready(&self, series: SeriesView) -> bool {
        self.bar_count >= 1
    }

    open spec fn spec_unstable_bars(&self) -> nat {
        self.spec_bar_count() as nat
    }

    open spec fn stable_for(&self, series: SeriesView) -> bool {
        true
    }

    /// Read from the bars alone: exact on every series.
    open spec fn exact_at(&self, series: SeriesView, index: int) -> bool {
        true
    }

    proof fn lemma_grown(&self, s: SeriesView, s2: SeriesView) {
        assert forall|g: int| 0 <= g < s.bars.len() implies #[trigger] self.spec_calculate(s2, g) == self.spec_calculate(s, g) by {
            let n = window_len(g, self.spec_bar_count() as int);
            lemma_volume_sum_grown(s, s2, g - n + 1, n as nat);
        }
    }

    fn calculate(&mut self, series: &BaseBarSeries, index: usize) -> (r: Result<DecimalNum, IndicatorError>) {
        let count = if index < self.bar_count - 1 { index + 1 } else { self.bar_count };
        let start = index - (count - 1);
        let zero = series.factory_ref().zero();
        let mut sum = zero;
        let mut k: usize = 0;
        while k < count
            invariant
                k <= count,
                count >= 1,
                start + count - 1 == index,
                series@.wf(),
                sum@ == volume_sum(series@, start as int, k as nat),
                zero@ == finite_view(0, 0),
            decreases count - k,
        {
            let i = start + k;
            let volume = match series.get_bar(i) {
                Some(bar) => bar.get_volume(),
                None => zero,
            };
            sum = sum.plus(&volume);
            k = k + 1;
        }
        Ok(sum)
    }

    fn count_of_unstable_bars(&self) -> (r: usize) {
        self.bar_count
    }
}

/// The volume summed over a window of bars, kept once computed.
pub type VolumeIndicator = CachedIndicator<VolumeCalculator>;

impl CachedIndicator<VolumeCalculator> {
    /// The volume of each bar.
    pub fn new(series: &BaseBarSeries) -> (r: Self)
        ensures
            r.spec_calculator().spec_bar_count() == 1,
            forall|s: SeriesView| #[trigger] r.consistent(s),
            forall|s: SeriesView| #[trigger] r.stable(s),
    {
        Self::from_shared_with_bar_count(series, 1)
    }

    /// The volume summed over `bar_count` bars (at least one).
    pub fn from_shared_with_bar_count(series: &BaseBarSeries, bar_count: usize) -> (r: Self)
        ensures
            r.spec_calculator().spec_bar_count() == (if bar_count >= 1 { bar_count } else { 1 }),
            forall|s: SeriesView| #[trigger] r.consistent(s),
            forall|s: SeriesView| #[trigger] r.stable(s),
    {
        let calculator = VolumeCalculator::new(bar_count);
        let r = CachedIndicator::new_from_series(series, calculator);
        assert forall|s: SeriesView| #[trigger] r.consistent(s) by {
            assert(calculator.ready(s));
        }
        assert forall|s: SeriesView| #[trigger] r.stable(s) by {
            assert(calculator.stable_for(s));
        }
        r
    }
}

} // verus!

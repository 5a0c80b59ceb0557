//! The true range of each bar.
use vstd::prelude::*;
use crate::bar::base_bar_series::{BaseBarSeries, SeriesView};
use crate::indicators::cached_indicator::{CachedIndicator, IndicatorCalculator};
use crate::indicators::types::{IndicatorError, IndicatorErrorView, ValueView, decimal_text, message_at};
use crate::num::{DecimalNum, MAX_SCALE, U64_BOUND, finite_view, lemma_same_scale_order, spec_abs, spec_max, spec_minus};

verus! {

/// The true range at `index`: the largest of `|high - low|`, `|high - previous
/// close|` and `|previous close - low|` (only the first at index 0), with
/// `OutOfBounds` for a missing bar and a calculation error for a missing price.
pub open spec fn true_range_at(series: SeriesView, index: int) -> ValueView {
    match series.bar_at(index) {
        None => Err(IndicatorErrorView::OutOfBounds { index: index as usize }),
        Some(bar) => match (bar.high_price, bar.low_price) {
            (None, _) => Err(IndicatorErrorView::CalculationError { message: "High price missing at index "@ + decimal_text(index as nat) }),
            (Some(_), None) => Err(IndicatorErrorView::CalculationError { message: "Low price missing at index "@ + decimal_text(index as nat) }),
            (Some(h), Some(l)) => {
                let hl = spec_abs(spec_minus(h@, l@));
                if index == 0 {
                    Ok(hl)
                } else {
                    match series.bar_at(index - 1) {
                        None => Err(IndicatorErrorView::OutOfBounds { index: (index - 1) as usize }),
                        Some(prev) => match prev.close_price {
                            None => Err(IndicatorErrorView::CalculationError {
                                message: "Close price missing at index "@ + decimal_text((index - 1) as nat),
                            }),
                            Some(pc) => {
                                let hc = spec_abs(spec_minus(h@, pc@));
                                let cl = spec_abs(spec_minus(pc@, l@));
                                Ok(spec_max(spec_max(hl, hc), cl))
                            },
                        },
                    }
                }
            },
        },
    }
}

/// After the first bar, the true range is at least each of `|high - low|`,
/// `|high - previous close|` and `|previous close - low|`, and is one of them,
/// wherever the three are numbers.
pub proof fn law_true_range_is_largest_gap(series: SeriesView, index: int, h: DecimalNum, l: DecimalNum, pc: DecimalNum)
    requires
        index > 0,
        series.bar_at(index) matches Some(bar) && bar.high_price == Some(h) && bar.low_price == Some(l),
        series.bar_at(index - 1) matches Some(prev) && prev.close_price == Some(pc),
        !spec_abs(spec_minus(h@, l@)).nan,
        !spec_abs(spec_minus(h@, pc@)).nan,
        !spec_abs(spec_minus(pc@, l@)).nan,
    ensures
        ({
            let hl = spec_abs(spec_minus(h@, l@));
            let hc = spec_abs(spec_minus(h@, pc@));
            let cl = spec_abs(spec_minus(pc@, l@));
            true_range_at(series, index) matches Ok(t) && {
                &&& !t.nan
                &&& t.value() >= hl.value()
                &&& t.value() >= hc.value()
                &&& t.value() >= cl.value()
                &&& t == hl || t == hc || t == cl
            }
        }),
{
}

/// At the first bar, with no previous close, the true range is `|high - low|`.
pub proof fn law_true_range_at_first_bar(series: SeriesView, h: DecimalNum, l: DecimalNum)
    requires
        series.bar_at(0) matches Some(bar) && bar.high_price == Some(h) && bar.low_price == Some(l),
    ensures
        true_range_at(series, 0) == Ok::<_, IndicatorErrorView>(spec_abs(spec_minus(h@, l@))),
{
}

/// The larger of two integers.
pub open spec fn int_max(a: int, b: int) -> int {
    if a < b { b } else { a }
}

/// The distance between two integers.
pub open spec fn int_dist(a: int, b: int) -> int {
    if a < b { b - a } else { a - b }
}

/// With the three prices at one scale (mantissas below `2^62`), the true range
/// after the first bar is exactly `max(|high - low|, |high - previous close|,
/// |previous close - low|)`, at that scale.
pub proof fn law_true_range_exact(series: SeriesView, index: int, h: DecimalNum, l: DecimalNum, pc: DecimalNum)
    requires
        index > 0,
        series.bar_at(index) matches Some(bar) && bar.high_price == Some(h) && bar.low_price == Some(l),
        series.bar_at(index - 1) matches Some(prev) && prev.close_price == Some(pc),
        !h@.nan && !l@.nan && !pc@.nan,
        h@.scale == l@.scale && l@.scale == pc@.scale && h@.scale <= MAX_SCALE,
        -U64_BOUND / 4 < h@.mantissa < U64_BOUND / 4,
        -U64_BOUND / 4 < l@.mantissa < U64_BOUND / 4,
        -U64_BOUND / 4 < pc@.mantissa < U64_BOUND / 4,
    ensures
        ({
            let (hm, lm, cm) = (h@.mantissa as int, l@.mantissa as int, pc@.mantissa as int);
            true_range_at(series, index) == Ok::<_, IndicatorErrorView>(finite_view(
                int_max(int_max(int_dist(hm, lm), int_dist(hm, cm)), int_dist(cm, lm)) as i128,
                h@.scale,
            ))
        }),
{
    let (hm, lm, cm) = (h@.mantissa as int, l@.mantissa as int, pc@.mantissa as int);
    let sc = h@.scale;
    let hl = spec_abs(spec_minus(h@, l@));
    let hc = spec_abs(spec_minus(h@, pc@));
    let cl = spec_abs(spec_minus(pc@, l@));
    assert(spec_minus(h@, l@) == finite_view((hm - lm) as i128, sc));
    assert(spec_minus(h@, pc@) == finite_view((hm - cm) as i128, sc));
    assert(spec_minus(pc@, l@) == finite_view((cm - lm) as i128, sc));
    assert(hl == finite_view(int_dist(hm, lm) as i128, sc));
    assert(hc == finite_view(int_dist(hm, cm) as i128, sc));
    assert(cl == finite_view(int_dist(cm, lm) as i128, sc));
    let (d1, d2, d3) = (int_dist(hm, lm), int_dist(hm, cm), int_dist(cm, lm));
    lemma_same_scale_order(d1 as i128, d2 as i128, sc);
    lemma_same_scale_order(int_max(d1, d2) as i128, d3 as i128, sc);
}

/// Computes the true range.
#[derive(Clone, Copy, Debug)]
pub struct TRCalculator {}

impl TRCalculator {
    pub fn new() -> (r: Self) {
        TRCalculator {}
    }
}

impl IndicatorCalculator for TRCalculator {
    open spec fn spec_calculate(&self, series: SeriesView, index: int) -> ValueView {
        true_range_at(series, index)
    }

    open spec fn ready(&self, series: SeriesView) -> bool {
        true
    }

    open spec fn stable_for(&self, series: SeriesView) -> bool {
        true
    }

    /// Read from the bars alone: exact on every series.
    open spec fn exact_at(&self, series: SeriesView, index: int) -> bool {
        true
    }

    proof fn lemma_grown(&self, s: SeriesView, s2: SeriesView) {
        assert forall|g: int| 0 <= g < s.bars.len() implies #[trigger] true_range_at(s2, g) == true_range_at(s, g) by {
            crate::bar::base_bar_series::lemma_grown_bars(s, s2, g);
            if g > 0 {
                crate::bar::base_bar_series::lemma_grown_bars(s, s2, g - 1);
            }
        }
    }

    /// As an indicator, the true range reports no unstable bar (see
    /// `get_count_of_unstable_bars` for the bars it actually needs).
    open spec fn spec_unstable_bars(&self) -> nat {
        0
    }

    fn calculate(&mut self, series: &BaseBarSeries, index: usize) -> (r: Result<DecimalNum, IndicatorError>) {
        let bar = match series.get_bar(index) {
            Some(bar) => bar,
            None => return Err(IndicatorError::OutOfBounds { index }),
        };
        let high = match bar.get_high_price() {
            Some(h) => h,
            None => {
                proof { reveal_strlit("High price missing at index "); }
                return Err(IndicatorError::CalculationError { message: message_at("High price missing at index ", index) });
            },
        };
        let low = match bar.get_low_price() {
            Some(l) => l,
            None => {
                proof { reveal_strlit("Low price missing at index "); }
                return Err(IndicatorError::CalculationError { message: message_at("Low price missing at index ", index) });
            },
        };
        let hl = high.minus(&low).abs();
        if index == 0 {
            return Ok(hl);
        }
        let prev_bar = match series.get_bar(index - 1) {
            Some(b) => b,
            None => return Err(IndicatorError::OutOfBounds { index: index - 1 }),
        };
        let previous_close = match prev_bar.get_close_price() {
            Some(c) => c,
            None => {
                proof { reveal_strlit("Close price missing at index "); }
                return Err(IndicatorError::CalculationError { message: message_at("Close price missing at index ", index - 1) });
            },
        };
        let hc = high.minus(&previous_close).abs();
        let cl = previous_close.minus(&low).abs();
        Ok(hl.max(&hc).max(&cl))
    }

    fn count_of_unstable_bars(&self) -> (r: usize) {
        0
    }
}

/// The true range of each bar, kept once computed.
pub type TRIndicator = CachedIndicator<TRCalculator>;

impl CachedIndicator<TRCalculator> {
    pub fn new(series: &BaseBarSeries) -> (r: Self)
        ensures
            forall|s: SeriesView| #[trigger] r.consistent(s),
            forall|s: SeriesView| #[trigger] r.stable(s),
    {
        CachedIndicator::new_from_series(series, TRCalculator::new())
    }

    /// The true range is meaningful from the second bar on.
    pub fn get_count_of_unstable_bars(&self) -> (r: usize)
        ensures
            r == 1,
    {
        1
    }
}

} // verus!

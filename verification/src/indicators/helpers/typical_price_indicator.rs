//! The typical price of each bar: the mean of its high, low and close prices.
use vstd::prelude::*;
use crate::bar::base_bar_series::{BaseBarSeries, SeriesView};
use crate::indicators::cached_indicator::{CachedIndicator, IndicatorCalculator};
use crate::indicators::types::{IndicatorError, IndicatorErrorView, ValueView, decimal_text, message_at};
use crate::num::{DecimalNum, U64_BOUND, finite_view, spec_plus, spec_divided_by};

verus! {

/// `(high + low + close) / 3` of the bar at `index`: `OutOfBounds` without a
/// bar, an error naming the missing price, or the error of the division.
pub open spec fn typical_price_at(series: SeriesView, index: int) -> ValueView {
    match series.bar_at(index) {
        None => Err(IndicatorErrorView::OutOfBounds { index: index as usize }),
        Some(bar) => match (bar.high_price, bar.low_price, bar.close_price) {
            (None, _, _) => Err(IndicatorErrorView::Other { message: "Missing high price at index "@ + decimal_text(index as nat) }),
            (Some(_), None, _) => Err(IndicatorErrorView::Other { message: "Missing low price at index "@ + decimal_text(index as nat) }),
            (Some(_), Some(_), None) => Err(IndicatorErrorView::Other { message: "Missing close price at index "@ + decimal_text(index as nat) }),
            (Some(h), Some(l), Some(c)) => match spec_divided_by(spec_plus(spec_plus(h@, l@), c@), finite_view(3, 0)) {
                Ok(v) => Ok(v),
                Err(e) => Err(IndicatorErrorView::NumError(e)),
            },
        },
    }
}

/// The typical price of a bar is the mean of its high, low and close prices,
/// `(high + low + close) / 3`: stated for prices at one scale (mantissas below
/// `2^62`) whose summed mantissas three divides, where the mean is exact (at
/// that scale; zero has scale 0).
pub proof fn law_typical_price_is_mean(series: SeriesView, index: int, h: DecimalNum, l: DecimalNum, c: DecimalNum)
    requires
        series.bar_at(index) matches Some(bar)
            && bar.high_price == Some(h) && bar.low_price == Some(l) && bar.close_price == Some(c),
        !h@.nan && !l@.nan && !c@.nan,
        h@.scale == l@.scale && l@.scale == c@.scale,
        -U64_BOUND / 4 < h@.mantissa < U64_BOUND / 4,
        -U64_BOUND / 4 < l@.mantissa < U64_BOUND / 4,
        -U64_BOUND / 4 < c@.mantissa < U64_BOUND / 4,
        (h@.mantissa + l@.mantissa + c@.mantissa) % 3 == 0,
    ensures
        ({
            let sum = h@.mantissa + l@.mantissa + c@.mantissa;
            typical_price_at(series, index) == Ok::<_, IndicatorErrorView>(
                finite_view((sum / 3) as i128, if sum == 0 { 0 } else { h@.scale }),
            )
        }),
{
    let sum = h@.mantissa + l@.mantissa + c@.mantissa;
    assert(spec_plus(h@, l@) == finite_view((h@.mantissa + l@.mantissa) as i128, h@.scale));
    assert(spec_plus(spec_plus(h@, l@), c@) == finite_view(sum as i128, h@.scale));
}

/// Computes the typical price.
#[derive(Clone, Copy, Debug)]
pub struct TypicalPriceCalculator {}

impl TypicalPriceCalculator {
    pub fn new() -> (r: Self) {
        TypicalPriceCalculator {}
    }
}

impl IndicatorCalculator for TypicalPriceCalculator {
    open spec fn spec_calculate(&self, series: SeriesView, index: int) -> ValueView {
        typical_price_at(series, index)
    }

    open spec fn ready(&self, series: SeriesView) -> bool {
        true
    }

    open spec fn stable_for(&self, series: SeriesView) -> bool {
        true
    }

    /// Read from the bars alone: exact on every series.
    open spec fn exact_at(&self, series: SeriesView, index: int) -> bool {
        true
    }

    proof fn lemma_grown(&self, s: SeriesView, s2: SeriesView) {
        assert forall|g: int| 0 <= g < s.bars.len() implies #[trigger] typical_price_at(s2, g) == typical_price_at(s, g) by {
            crate::bar::base_bar_series::lemma_grown_bars(s, s2, g);
            if g > 0 {
                crate::bar::base_bar_series::lemma_grown_bars(s, s2, g - 1);
            }
        }
    }

    open spec fn spec_unstable_bars(&self) -> nat {
        0
    }

    fn calculate(&mut self, series: &BaseBarSeries, index: usize) -> (r: Result<DecimalNum, IndicatorError>) {
        let bar = match series.get_bar(index) {
            Some(bar) => bar,
            None => return Err(IndicatorError::OutOfBounds { index }),
        };
        let high = match bar.get_high_price() {
            Some(h) => h,
            None => {
                proof { reveal_strlit("Missing high price at index "); }
                return Err(IndicatorError::Other { message: message_at("Missing high price at index ", index) });
            },
        };
        let low = match bar.get_low_price() {
            Some(l) => l,
            None => {
                proof { reveal_strlit("Missing low price at index "); }
                return Err(IndicatorError::Other { message: message_at("Missing low price at index ", index) });
            },
        };
        let close = match bar.get_close_price() {
            Some(c) => c,
            None => {
                proof { reveal_strlit("Missing close price at index "); }
                return Err(IndicatorError::Other { message: message_at("Missing close price at index ", index) });
            },
        };
        let sum = high.plus(&low).plus(&close);
        let three = series.factory_ref().three();
        match sum.divided_by(&three) {
            Ok(v) => Ok(v),
            Err(e) => Err(IndicatorError::NumError(e)),
        }
    }

    fn count_of_unstable_bars(&self) -> (r: usize) {
        0
    }
}

/// The typical price of each bar, kept once computed.
pub type TypicalPriceIndicator = CachedIndicator<TypicalPriceCalculator>;

impl CachedIndicator<TypicalPriceCalculator> {
    pub fn new(series: &BaseBarSeries) -> (r: Self)
        ensures
            forall|s: SeriesView| #[trigger] r.consistent(s),
            forall|s: SeriesView| #[trigger] r.stable(s),
    {
        CachedIndicator::new_from_series(series, TypicalPriceCalculator::new())
    }
}

} // verus!

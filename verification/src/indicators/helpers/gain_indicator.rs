//! The gain of an indicator from one index to the next.
use vstd::prelude::*;
use crate::bar::base_bar_series::{BaseBarSeries, SeriesView};
use crate::indicators::{Indicator, exact_upto, lemma_exact_upto_grown, lemma_same_exact};
use crate::indicators::cached_indicator::{CachedIndicator, IndicatorCalculator};
use crate::indicators::types::{IndicatorError, ValueView};
use crate::num::{DecimalNum, DecView, MAX_SCALE, U64_BOUND, finite_view, lemma_same_scale_order, spec_gt, spec_minus};

verus! {

/// `current - previous` when the value went up, zero otherwise.
pub open spec fn gain_of(current: DecView, previous: DecView) -> DecView {
    if spec_gt(current, previous) { spec_minus(current, previous) } else { finite_view(0, 0) }
}

/// The gain is the rise of the value when it rose and zero otherwise: for
/// values at one scale (mantissas below `2^62`) it is `max(current - previous,
/// 0)`, at that scale when positive.
pub proof fn law_gain_is_rise(current: DecView, previous: DecView)
    requires
        !current.nan && !previous.nan,
        current.scale == previous.scale && current.scale <= MAX_SCALE,
        -U64_BOUND / 4 < current.mantissa < U64_BOUND / 4,
        -U64_BOUND / 4 < previous.mantissa < U64_BOUND / 4,
    ensures
        gain_of(current, previous) == if current.mantissa > previous.mantissa {
            finite_view((current.mantissa - previous.mantissa) as i128, current.scale)
        } else {
            finite_view(0, 0)
        },
{
    lemma_same_scale_order(current.mantissa, previous.mantissa, current.scale);
    lemma_same_scale_order(previous.mantissa, current.mantissa, current.scale);
}

/// Computes the gain of an indicator.
#[derive(Clone, Copy, Debug)]
pub struct GainCalculator<I> {
    indicator: I,
}

impl<I: Indicator> GainCalculator<I> {
    pub fn new(indicator: I) -> (r: Self)
        ensures
            r.spec_indicator() == indicator,
    {
        GainCalculator { indicator }
    }

    pub closed spec fn spec_indicator(&self) -> I {
        self.indicator
    }
}

impl<I: Indicator> IndicatorCalculator for GainCalculator<I> {
    /// Zero at index 0; otherwise the gain from the previous value, or the
    /// first error of reading the value and then the previous one.
    open spec fn spec_calculate(&self, series: SeriesView, index: int) -> ValueView {
        if index == 0 {
            Ok(finite_view(0, 0))
        } else {
            match self.spec_indicator().spec_value(series, index) {
                Err(e) => Err(e),
                Ok(current) => match self.spec_indicator().spec_value(series, index - 1) {
                    Err(e) => Err(e),
                    Ok(previous) => Ok(gain_of(current, previous)),
                },
            }
        }
    }

    open spec fn ready(&self, series: SeriesView) -> bool {
        self.spec_indicator().fresh(series)
    }

    open spec fn stable_for(&self, series: SeriesView) -> bool {
        self.spec_indicator().stable_for(series)
    }

    /// The indicator read is exact up to `index`.
    open spec fn exact_at(&self, series: SeriesView, index: int) -> bool {
        exact_upto(self.spec_indicator(), series, index)
    }

    proof fn lemma_grown(&self, s: SeriesView, s2: SeriesView) {
        self.spec_indicator().lemma_grown(s, s2);
        lemma_exact_upto_grown(self.spec_indicator(), s, s2);
    }

    open spec fn spec_unstable_bars(&self) -> nat {
        1
    }

    fn calculate(&mut self, series: &BaseBarSeries, index: usize) -> (r: Result<DecimalNum, IndicatorError>) {
        let zero = series.factory_ref().zero();
        if index == 0 {
            return Ok(zero);
        }
        let ghost ind0 = self.indicator;
        let actual_value = self.indicator.get_value(series, index);
        proof {
            lemma_same_exact(self.indicator, ind0);
        }
        let actual_value = actual_value?;
        let ghost ind1 = self.indicator;
        let previous_value = self.indicator.get_value(series, index - 1);
        proof {
            lemma_same_exact(self.indicator, ind1);
        }
        let previous_value = previous_value?;
        if actual_value.is_greater_than(&previous_value) {
            Ok(actual_value.minus(&previous_value))
        } else {
            Ok(zero)
        }
    }

    fn count_of_unstable_bars(&self) -> (r: usize) {
        1
    }
}

/// The gain of an indicator, kept once computed.
pub type GainIndicator<I> = CachedIndicator<GainCalculator<I>>;

impl<I: Indicator> CachedIndicator<GainCalculator<I>> {
    pub fn new(indicator: I, series: &BaseBarSeries) -> (r: Self)
        ensures
            r.spec_calculator().spec_indicator() == indicator,
            forall|s: SeriesView| #[trigger] r.consistent(s) <== indicator.fresh(s),
            forall|s: SeriesView| #[trigger] r.stable(s) <== indicator.stable_for(s),
    {
        CachedIndicator::new_from_series(series, GainCalculator::new(indicator))
    }
}

} // verus!

//! An indicator wrapped so that arithmetic on it builds new indicators.
use vstd::prelude::*;
use crate::bar::base_bar_series::{BaseBarSeries, SeriesView};
use crate::indicators::Indicator;
use crate::indicators::helpers::constant_indicator::ConstantIndicator;
use crate::indicators::numeric::binary_operation::BinaryOperation;
use crate::indicators::types::{BinaryOp, IndicatorError, result_view};
use crate::num::DecimalNum;

verus! {

/// An indicator that arithmetic can be chained on.
#[derive(Clone, Debug)]
pub struct NumericIndicator<I> {
    delegate: I,
}

impl<I: Indicator> NumericIndicator<I> {
    pub closed spec fn spec_delegate(&self) -> I {
        self.delegate
    }

    /// Wraps `indicator`.
    pub fn of(indicator: I) -> (r: Self)
        ensures
            r.spec_delegate() == indicator,
    {
        NumericIndicator { delegate: indicator }
    }

    /// This indicator plus `other`.
    pub fn plus<J: Indicator>(self, other: J) -> (r: NumericIndicator<BinaryOperation<I, J>>)
        ensures
            r.spec_delegate().spec_left() == self.spec_delegate(),
            r.spec_delegate().spec_right() == other,
            r.spec_delegate().spec_operator() == BinaryOp::Sum,
    {
        NumericIndicator::of(BinaryOperation::sum(self.delegate, other))
    }

    /// This indicator plus the number `n` at every index.
    pub fn plus_num(self, n: DecimalNum) -> (r: NumericIndicator<BinaryOperation<I, ConstantIndicator>>)
        ensures
            r.spec_delegate().spec_left() == self.spec_delegate(),
            r.spec_delegate().spec_right().spec_constant() == n,
            r.spec_delegate().spec_operator() == BinaryOp::Sum,
    {
        let constant = ConstantIndicator::new(n);
        self.plus(constant)
    }

    /// The value of the wrapped indicator at `index`.
    pub fn get_value(&mut self, series: &BaseBarSeries, index: usize) -> (r: Result<DecimalNum, IndicatorError>)
        requires
            series@.wf(),
            old(self).spec_delegate().fresh(series@),
        ensures
            final(self).spec_delegate().fresh(series@),
            forall|s: SeriesView, i: int| #[trigger] final(self).spec_delegate().spec_value(s, i)
                == old(self).spec_delegate().spec_value(s, i),
            old(self).spec_delegate().exact_at(series@, index as int)
                ==> result_view(r) == old(self).spec_delegate().spec_value(series@, index as int),
    {
        self.delegate.get_value(series, index)
    }
}

} // verus!

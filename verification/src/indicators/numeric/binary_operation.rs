//! An operation applied to the values of two indicators at each index.
use vstd::prelude::*;
use crate::bar::base_bar_series::{BaseBarSeries, SeriesView};
use crate::indicators::Indicator;
use crate::indicators::types::{BinaryOp, IndicatorError, IndicatorErrorView, ValueView};
use crate::num::{DecimalNum, DecView, spec_divided_by, spec_max, spec_min, spec_minus, spec_plus, spec_times};

verus! {

/// The operation on two numbers: a number, or the error of a division.
pub open spec fn apply_binary(op: BinaryOp, a: DecView, b: DecView) -> ValueView {
    match op {
        BinaryOp::Sum => Ok(spec_plus(a, b)),
        BinaryOp::Difference => Ok(spec_minus(a, b)),
        BinaryOp::Product => Ok(spec_times(a, b)),
        BinaryOp::Quotient => match spec_divided_by(a, b) {
            Ok(q) => Ok(q),
            Err(e) => Err(IndicatorErrorView::NumError(e)),
        },
        BinaryOp::Min => Ok(spec_min(a, b)),
        BinaryOp::Max => Ok(spec_max(a, b)),
    }
}

/// The operation on the left and right values: the left value's error, then
/// the right value's, then the operation's result.
pub open spec fn binary_value(op: BinaryOp, left: ValueView, right: ValueView) -> ValueView {
    match left {
        Err(e) => Err(e),
        Ok(a) => match right {
            Err(e) => Err(e),
            Ok(b) => apply_binary(op, a, b),
        },
    }
}

fn apply(op: BinaryOp, a: &DecimalNum, b: &DecimalNum) -> (r: Result<DecimalNum, IndicatorError>)
    ensures
        crate::indicators::types::result_view(r) == apply_binary(op, a@, b@),
{
    match op {
        BinaryOp::Sum => Ok(a.plus(b)),
        BinaryOp::Difference => Ok(a.minus(b)),
        BinaryOp::Product => Ok(a.multiplied_by(b)),
        BinaryOp::Quotient => match a.divided_by(b) {
            Ok(q) => Ok(q),
            Err(e) => Err(IndicatorError::NumError(e)),
        },
        BinaryOp::Min => Ok(a.min(b)),
        BinaryOp::Max => Ok(a.max(b)),
    }
}

/// An operation applied to the values of two indicators at each index.
#[derive(Clone, Debug)]
pub struct BinaryOperation<L, R> {
    left: L,
    right: R,
    operator: BinaryOp,
}

impl<L: Indicator, R: Indicator> BinaryOperation<L, R> {
    pub fn new(left: L, right: R, operator: BinaryOp) -> (r: Self)
        ensures
            r.spec_left() == left,
            r.spec_right() == right,
            r.spec_operator() == operator,
    {
        BinaryOperation { left, right, operator }
    }

    pub closed spec fn spec_left(&self) -> L {
        self.left
    }

    pub closed spec fn spec_right(&self) -> R {
        self.right
    }

    pub closed spec fn spec_operator(&self) -> BinaryOp {
        self.operator
    }

    /// `left + right`.
    pub fn sum(left: L, right: R) -> (r: Self)
        ensures
            r.spec_left() == left && r.spec_right() == right && r.spec_operator() == BinaryOp::Sum,
    {
        Self::new(left, right, BinaryOp::Sum)
    }

    /// `left - right`.
    pub fn difference(left: L, right: R) -> (r: Self)
        ensures
            r.spec_left() == left && r.spec_right() == right && r.spec_operator() == BinaryOp::Difference,
    {
        Self::new(left, right, BinaryOp::Difference)
    }

    /// `left * right`.
    pub fn product(left: L, right: R) -> (r: Self)
        ensures
            r.spec_left() == left && r.spec_right() == right && r.spec_operator() == BinaryOp::Product,
    {
        Self::new(left, right, BinaryOp::Product)
    }

    /// `left / right`, with the division's errors.
    pub fn quotient(left: L, right: R) -> (r: Self)
        ensures
            r.spec_left() == left && r.spec_right() == right && r.spec_operator() == BinaryOp::Quotient,
    {
        Self::new(left, right, BinaryOp::Quotient)
    }

    /// The smaller of `left` and `right`.
    pub fn min(left: L, right: R) -> (r: Self)
        ensures
            r.spec_left() == left && r.spec_right() == right && r.spec_operator() == BinaryOp::Min,
    {
        Self::new(left, right, BinaryOp::Min)
    }

    /// The larger of `left` and `right`.
    pub fn max(left: L, right: R) -> (r: Self)
        ensures
            r.spec_left() == left && r.spec_right() == right && r.spec_operator() == BinaryOp::Max,
    {
        Self::new(left, right, BinaryOp::Max)
    }
}

impl<L: Indicator, R: Indicator> Indicator for BinaryOperation<L, R> {
    open spec fn spec_value(&self, series: SeriesView, index: int) -> ValueView {
        binary_value(self.spec_operator(), self.spec_left().spec_value(series, index), self.spec_right().spec_value(series, index))
    }

    open spec fn fresh(&self, series: SeriesView) -> bool {
        self.spec_left().fresh(series) && self.spec_right().fresh(series)
    }

    open spec fn stable_for(&self, series: SeriesView) -> bool {
        self.spec_left().stable_for(series) && self.spec_right().stable_for(series)
    }

    open spec fn exact_at(&self, series: SeriesView, index: int) -> bool {
        self.spec_left().exact_at(series, index) && self.spec_right().exact_at(series, index)
    }

    proof fn lemma_grown(&self, s: SeriesView, s2: SeriesView) {
        self.spec_left().lemma_grown(s, s2);
        self.spec_right().lemma_grown(s, s2);
    }

    /// The larger of the two indicators' unstable bars.
    open spec fn spec_unstable_bars(&self) -> nat {
        if self.spec_left().spec_unstable_bars() >= self.spec_right().spec_unstable_bars() {
            self.spec_left().spec_unstable_bars()
        } else {
            self.spec_right().spec_unstable_bars()
        }
    }

    fn get_value(&mut self, series: &BaseBarSeries, index: usize) -> (r: Result<DecimalNum, IndicatorError>) {
        let lv = self.left.get_value(series, index)?;
        let rv = self.right.get_value(series, index)?;
        apply(self.operator, &lv, &rv)
    }

    fn count_of_unstable_bars(&self) -> (r: usize) {
        let l = self.left.count_of_unstable_bars();
        let r = self.right.count_of_unstable_bars();
        if l >= r { l } else { r }
    }
}

} // verus!

//! Errors of indicators, their views, and small helpers shared by indicators.
use vstd::prelude::*;
use vstd::string::StringExecFns;
use crate::num::{DecimalNum, DecView, NumError};
use crate::bar::base_bar::DecimalNumFactory;
use crate::bar::base_bar_series::SeriesView;
use crate::indicators::helpers::constant_indicator::ConstantIndicator;

verus! {

/// Errors of indicators.
#[derive(Debug, Clone)]
pub enum IndicatorError {
    /// No value at `index`; `max` is the largest index with one.
    InvalidIndex { index: usize, max: usize },
    /// No bar at `index`.
    OutOfBounds { index: usize },
    /// A value needed by the calculation is missing.
    CalculationError { message: String },
    /// A numeric operation failed.
    NumError(NumError),
    /// Any other failure.
    Other { message: String },
}

/// What an `IndicatorError` holds, with messages as character sequences.
pub enum IndicatorErrorView {
    InvalidIndex { index: usize, max: usize },
    OutOfBounds { index: usize },
    CalculationError { message: Seq<char> },
    NumError(NumError),
    Other { message: Seq<char> },
}

impl View for IndicatorError {
    type V = IndicatorErrorView;

    open spec fn view(&self) -> IndicatorErrorView {
        match self {
            IndicatorError::InvalidIndex { index, max } => IndicatorErrorView::InvalidIndex { index: *index, max: *max },
            IndicatorError::OutOfBounds { index } => IndicatorErrorView::OutOfBounds { index: *index },
            IndicatorError::CalculationError { message } => IndicatorErrorView::CalculationError { message: message@ },
            IndicatorError::NumError(e) => IndicatorErrorView::NumError(*e),
            IndicatorError::Other { message } => IndicatorErrorView::Other { message: message@ },
        }
    }
}

/// What an indicator gives: a number, or an error.
pub type ValueView = Result<DecView, IndicatorErrorView>;

/// The largest index of a bar of the series (0 for no bar).
pub open spec fn max_index(series: SeriesView) -> usize {
    if series.bar_count() == 0 { 0 } else { (series.bar_count() - 1) as usize }
}

/// The view of a computed value.
pub open spec fn result_view(r: Result<DecimalNum, IndicatorError>) -> ValueView {
    match r {
        Ok(v) => Ok(v@),
        Err(e) => Err(e@),
    }
}

impl IndicatorError {
    /// A message that describes the error.
    pub fn describe(&self) -> (r: String)
        ensures
            self matches IndicatorError::CalculationError { message } ==> r@ == "Calculation error: "@ + message@,
            self matches IndicatorError::Other { message } ==> r@ == "Other error: "@ + message@,
            self matches IndicatorError::OutOfBounds { index } ==> r@ == "OutOfBounds index: "@ + decimal_text(index as nat),
            self matches IndicatorError::InvalidIndex { index, max } ==> r@ == "Invalid index: "@ + decimal_text(index as nat)
                + " (max allowed: "@ + decimal_text(max as nat) + ")"@,
            self matches IndicatorError::NumError(e) ==> r@ == "Number error: "@ + e.spec_message(),
    {
        match self {
            IndicatorError::InvalidIndex { index, max } => {
                proof {
                    reveal_strlit("Invalid index: ");
                    reveal_strlit(" (max allowed: ");
                    reveal_strlit(")");
                }
                let s = "Invalid index: ".to_string().concat(index_text(*index).as_str());
                let s = s.concat(" (max allowed: ");
                let s = s.concat(index_text(*max).as_str());
                s.concat(")")
            },
            IndicatorError::OutOfBounds { index } => {
                proof {
                    reveal_strlit("OutOfBounds index: ");
                }
                "OutOfBounds index: ".to_string().concat(index_text(*index).as_str())
            },
            IndicatorError::CalculationError { message } => {
                proof {
                    reveal_strlit("Calculation error: ");
                }
                "Calculation error: ".to_string().concat(message.as_str())
            },
            IndicatorError::NumError(e) => {
                proof {
                    reveal_strlit("Number error: ");
                }
                "Number error: ".to_string().concat(e.describe().as_str())
            },
            IndicatorError::Other { message } => {
                proof {
                    reveal_strlit("Other error: ");
                }
                "Other error: ".to_string().concat(message.as_str())
            },
        }
    }
}

/// The character of a decimal digit.
pub open spec fn digit_char(d: nat) -> char {
    if d == 0 { '0' } else if d == 1 { '1' } else if d == 2 { '2' } else if d == 3 { '3' }
    else if d == 4 { '4' } else if d == 5 { '5' } else if d == 6 { '6' } else if d == 7 { '7' }
    else if d == 8 { '8' } else { '9' }
}

/// The decimal notation of `n`, without leading zeros.
pub open spec fn decimal_text(n: nat) -> Seq<char>
    decreases n,
{
    if n < 10 {
        seq![digit_char(n)]
    } else {
        decimal_text(n / 10).push(digit_char(n % 10))
    }
}

fn digit_str(d: usize) -> (r: &'static str)
    requires
        d < 10,
    ensures
        r@ == seq![digit_char(d as nat)],
{
    if d == 0 {
        proof { reveal_strlit("0"); }
        "0"
    } else if d == 1 {
        proof { reveal_strlit("1"); }
        "1"
    } else if d == 2 {
        proof { reveal_strlit("2"); }
        "2"
    } else if d == 3 {
        proof { reveal_strlit("3"); }
        "3"
    } else if d == 4 {
        proof { reveal_strlit("4"); }
        "4"
    } else if d == 5 {
        proof { reveal_strlit("5"); }
        "5"
    } else if d == 6 {
        proof { reveal_strlit("6"); }
        "6"
    } else if d == 7 {
        proof { reveal_strlit("7"); }
        "7"
    } else if d == 8 {
        proof { reveal_strlit("8"); }
        "8"
    } else {
        proof { reveal_strlit("9"); }
        "9"
    }
}

/// The decimal notation of an index.
pub fn index_text(n: usize) -> (r: String)
    ensures
        r@ == decimal_text(n as nat),
    decreases n,
{
    if n < 10 {
        digit_str(n).to_string()
    } else {
        let mut s = index_text(n / 10);
        s.append(digit_str(n % 10));
        s
    }
}

/// `prefix` followed by the decimal notation of `index`.
pub fn message_at(prefix: &str, index: usize) -> (r: String)
    ensures
        r@ == prefix@ + decimal_text(index as nat),
{
    prefix.to_string().concat(index_text(index).as_str())
}

/// An `Option` turned into a `Result` whose error is an invalid index.
pub trait OptionExt<T>: Sized {
    fn or_invalid_index(self, index: usize, max: usize) -> (r: Result<T, IndicatorError>);
}

impl<T> OptionExt<T> for Option<T> {
    /// The value held, or `InvalidIndex { index, max }`.
    fn or_invalid_index(self, index: usize, max: usize) -> (r: Result<T, IndicatorError>)
        ensures
            match self {
                Some(v) => r matches Ok(w) && w == v,
                None => r matches Err(e) && e@ == (IndicatorErrorView::InvalidIndex { index, max }),
            },
    {
        match self {
            Some(v) => Ok(v),
            None => Err(IndicatorError::InvalidIndex { index, max }),
        }
    }
}

/// A number given by a plain value, turned into a decimal by a factory.
#[derive(Clone, Debug)]
pub struct NumConst<T>(pub T);

/// Conversion to a decimal number.
pub trait ToNumber {
    /// The number that the value stands for, as the factory makes it.
    spec fn spec_to_number(&self) -> Result<DecView, NumError>;

    fn to_number(&self, factory: &DecimalNumFactory) -> (r: Result<DecimalNum, NumError>)
        ensures
            match r {
                Ok(v) => self.spec_to_number() == Ok::<DecView, NumError>(v@),
                Err(e) => self.spec_to_number() == Err::<DecView, NumError>(e),
            },
    ;
}

impl ToNumber for NumConst<i64> {
    open spec fn spec_to_number(&self) -> Result<DecView, NumError> {
        Ok(crate::num::finite_view(self.0 as i128, 0))
    }

    fn to_number(&self, factory: &DecimalNumFactory) -> (r: Result<DecimalNum, NumError>) {
        Ok(factory.num_of_i64(self.0))
    }
}

impl NumConst<i64> {
    /// The constant indicator of this number.
    pub fn as_indicator(&self, factory: &DecimalNumFactory) -> (r: Result<ConstantIndicator, IndicatorError>)
        ensures
            match self.spec_to_number() {
                Ok(v) => r matches Ok(c) && c.spec_constant()@ == v,
                Err(e) => r matches Err(err) && err@ == IndicatorErrorView::NumError(e),
            },
    {
        match self.to_number(factory) {
            Ok(v) => Ok(ConstantIndicator::new(v)),
            Err(e) => Err(IndicatorError::NumError(e)),
        }
    }
}

/// The operations that combine the values of two indicators.
#[derive(Clone, Copy, Debug, PartialEq, Eq)]
pub enum BinaryOp {
    Sum,
    Difference,
    Product,
    Quotient,
    Min,
    Max,
}

/// The operations that transform the values of an indicator.
#[derive(Clone, Copy, Debug, PartialEq, Eq)]
pub enum UnaryOp {
    Abs,
    Neg,
}

impl UnaryOp {
    /// The operation applied to `x`.
    pub fn apply(&self, x: &DecimalNum) -> (r: DecimalNum)
        ensures
            r@ == (match *self {
                UnaryOp::Abs => crate::num::spec_abs(x@),
                UnaryOp::Neg => crate::num::spec_neg(x@),
            }),
    {
        match self {
            UnaryOp::Abs => x.abs(),
            UnaryOp::Neg => x.neg(),
        }
    }
}

} // verus!

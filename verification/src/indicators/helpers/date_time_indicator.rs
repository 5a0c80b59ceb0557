//! A time read from each bar.
use vstd::prelude::*;
use crate::bar::base_bar::BaseBar;
use crate::bar::base_bar_series::{BaseBarSeries, SeriesView};
use crate::indicators::types::{IndicatorError, IndicatorErrorView};

verus! {

/// The begin time of a bar.
pub fn default_get_begin_time(bar: &BaseBar) -> (r: i128)
    ensures
        r == bar.begin_time,
{
    bar.begin_time
}

/// Reads a time from the bar at an index with `action`.
#[derive(Clone, Copy)]
pub struct DateTimeCalculator<F> {
    action: F,
}

impl<F: Fn(&BaseBar) -> i128 + Copy> DateTimeCalculator<F> {
    pub fn new(action: F) -> (r: Self)
        ensures
            r.spec_action() == action,
    {
        DateTimeCalculator { action }
    }

    pub closed spec fn spec_action(&self) -> F {
        self.action
    }

    /// What `action` gives for the bar at `index`, or `OutOfBounds` without a bar.
    pub fn calculate(&self, series: &BaseBarSeries, index: usize) -> (r: Result<i128, IndicatorError>)
        requires
            series@.wf(),
            forall|bar: &BaseBar| #[trigger] call_requires(self.spec_action(), (bar,)),
        ensures
            match series@.bar_at(index as int) {
                None => r matches Err(e) && e@ == (IndicatorErrorView::OutOfBounds { index }),
                Some(bar) => r matches Ok(t) && call_ensures(self.spec_action(), (&bar,), t),
            },
    {
        match series.get_bar(index) {
            Some(bar) => {
                assert(call_requires(self.spec_action(), (bar,)));
                Ok((self.action)(bar))
            },
            None => Err(IndicatorError::OutOfBounds { index }),
        }
    }
}

/// A time read from each bar.
#[derive(Clone, Copy)]
pub struct DateTimeIndicator<F> {
    calculator: DateTimeCalculator<F>,
}

impl<F: Fn(&BaseBar) -> i128 + Copy> DateTimeIndicator<F> {
    /// The indicator that reads times with `f`.
    pub fn with_func(f: F) -> (r: Self)
        ensures
            r.spec_action() == f,
    {
        DateTimeIndicator { calculator: DateTimeCalculator::new(f) }
    }

    pub closed spec fn spec_action(&self) -> F {
        self.calculator.spec_action()
    }

    /// The time at `index`, as `DateTimeCalculator::calculate` gives it.
    pub fn get_value(&self, series: &BaseBarSeries, index: usize) -> (r: Result<i128, IndicatorError>)
        requires
            series@.wf(),
            forall|bar: &BaseBar| #[trigger] call_requires(self.spec_action(), (bar,)),
        ensures
            match series@.bar_at(index as int) {
                None => r matches Err(e) && e@ == (IndicatorErrorView::OutOfBounds { index }),
                Some(bar) => r matches Ok(t) && call_ensures(self.spec_action(), (&bar,), t),
            },
    {
        self.calculator.calculate(series, index)
    }

    pub fn count_of_unstable_bars(&self) -> (r: usize)
        ensures
            r == 0,
    {
        0
    }
}

} // verus!

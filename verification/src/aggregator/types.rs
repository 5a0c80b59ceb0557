//! The aggregator traits and a helper.
use vstd::prelude::*;
use vstd::string::StringExecFns;
use crate::bar::base_bar::BaseBar;
use crate::bar::base_bar_series::{BaseBarSeries, SeriesView};

verus! {

/// The value of `opt`, or the error "missing <field_name>".
pub fn unwrap_or_err<T>(opt: Option<T>, field_name: &str) -> (r: Result<T, String>)
    ensures
        match opt {
            Some(v) => r == Ok::<T, String>(v),
            None => r matches Err(e) && e@ == "missing "@ + field_name@,
        },
{
    match opt {
        Some(v) => Ok(v),
        None => {
            proof {
                reveal_strlit("missing ");
            }
            Err("missing ".to_string().concat(field_name))
        },
    }
}

/// Turns a sequence of bars into another.
pub trait BarAggregator {
    /// `output` is an aggregation of `input`.
    spec fn aggregates(&self, input: Seq<BaseBar>, output: Seq<BaseBar>) -> bool;

    /// The precondition of `aggregate`.
    spec fn accepts(&self, input: Seq<BaseBar>) -> bool;

    /// `aggregate` succeeds on `input`.
    spec fn succeeds(&self, input: Seq<BaseBar>) -> bool;

    fn aggregate(&self, bars: &[BaseBar]) -> (r: Result<Vec<BaseBar>, String>)
        requires
            self.accepts(bars@),
        ensures
            r is Ok <==> self.succeeds(bars@),
            r matches Ok(v) ==> self.aggregates(bars@, v@),
    ;
}

/// Turns a bar series into another.
pub trait BarSeriesAggregator {
    /// `output` is an aggregation of `input`, named `name`.
    spec fn aggregates_series(&self, input: SeriesView, name: Seq<char>, output: SeriesView) -> bool;

    /// The precondition of aggregating `input`.
    spec fn accepts_series(&self, input: SeriesView) -> bool;

    /// Aggregating `input` succeeds.
    spec fn series_succeeds(&self, input: SeriesView) -> bool;

    /// Aggregates the series under its own name.
    fn aggregate(&self, series: &BaseBarSeries) -> (r: Result<BaseBarSeries, String>)
        requires
            self.accepts_series(series@),
        ensures
            r is Ok <==> self.series_succeeds(series@),
            r matches Ok(s) ==> self.aggregates_series(series@, series@.name, s@),
    ;

    /// Aggregates the series under the given name.
    fn aggregate_with_name(&self, series: &BaseBarSeries, aggregated_series_name: &str) -> (r: Result<BaseBarSeries, String>)
        requires
            self.accepts_series(series@),
        ensures
            r is Ok <==> self.series_succeeds(series@),
            r matches Ok(s) ==> self.aggregates_series(series@, aggregated_series_name@, s@),
    ;
}

} // verus!

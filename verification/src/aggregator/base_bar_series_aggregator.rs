//! Aggregates a bar series with a bar aggregator.
use vstd::prelude::*;
use crate::aggregator::types::{BarAggregator, BarSeriesAggregator};
use crate::bar::base_bar_series::{BaseBarSeries, SeriesView};
use crate::bar::base_bar_series_builder::BaseBarSeriesBuilder;
use crate::bar::builder::types::{BarBuilderFactories, TimeBarBuilderFactory};

verus! {

/// Aggregates the bars of a series with `bar_aggregator` into a new series.
pub struct BaseBarSeriesAggregator<BA: BarAggregator> {
    pub bar_aggregator: BA,
}

impl<BA: BarAggregator> BaseBarSeriesAggregator<BA> {
    pub fn new(bar_aggregator: BA) -> (r: Self)
        ensures
            r.bar_aggregator == bar_aggregator,
    {
        BaseBarSeriesAggregator { bar_aggregator }
    }
}

impl<BA: BarAggregator> BarSeriesAggregator for BaseBarSeriesAggregator<BA> {
    /// A new, unconstrained series of the aggregated bars, with time bars and no
    /// maximum bar count.
    open spec fn aggregates_series(&self, input: SeriesView, name: Seq<char>, output: SeriesView) -> bool {
        &&& self.bar_aggregator.aggregates(input.bars, output.bars)
        &&& output.name == name
        &&& output.removed_bars_count == 0
        &&& output.begin_index == (if output.bars.len() == 0 { None } else { Some(0usize) })
        &&& output.end_index == (if output.bars.len() == 0 { None } else { Some((output.bars.len() - 1) as usize) })
        &&& !output.constrained
        &&& output.maximum_bar_count == usize::MAX
        &&& output.bar_builder_factory == BarBuilderFactories::TimeBarFactory(TimeBarBuilderFactory)
        &&& output.wf()
    }

    open spec fn accepts_series(&self, input: SeriesView) -> bool {
        self.bar_aggregator.accepts(input.bars)
    }

    /// The bar aggregator succeeds on the series' bars.
    open spec fn series_succeeds(&self, input: SeriesView) -> bool {
        self.bar_aggregator.succeeds(input.bars)
    }

    fn aggregate(&self, series: &BaseBarSeries) -> (r: Result<BaseBarSeries, String>) {
        let default_name = series.get_name();
        self.aggregate_with_name(series, default_name)
    }

    fn aggregate_with_name(&self, series: &BaseBarSeries, aggregated_series_name: &str) -> (r: Result<BaseBarSeries, String>) {
        let bars = series.get_bar_data();
        let aggregated_bars = self.bar_aggregator.aggregate(bars)?;
        let builder = BaseBarSeriesBuilder::default();
        let name = aggregated_series_name.to_string();
        proof {
            vstd::string::to_string_from_display_ensures_for_str(aggregated_series_name, name);
        }
        let builder = builder.with_name(name);
        let builder = builder.with_bars(aggregated_bars);
        let count = builder.bars.len();
        let r = builder.build();
        proof {
            let n = builder.bars@.len();
            assert(builder.bars@.subrange(0, n as int) =~= builder.bars@);
            assert(n == count);
        }
        r
    }
}

} // verus!

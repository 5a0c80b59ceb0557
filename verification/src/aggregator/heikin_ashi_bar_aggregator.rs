//! Turns bars into Heikin-Ashi bars.
use vstd::prelude::*;
use crate::aggregator::types::{BarAggregator, unwrap_or_err};
use crate::bar::base_bar::{BaseBar, DecimalNumFactory, begin_time_fits};
use crate::bar::builder::heikin_ashi_bar_builder::{HeikinAshiBarBuilder, ha_close, ha_open};
use crate::num::{DecView, DecimalNum, finite_view, spec_max, spec_min};

verus! {

/// The amount given to a Heikin-Ashi bar: the bar's, or zero.
pub open spec fn amount_or_zero(amount: Option<DecimalNum>, out: Option<DecimalNum>) -> bool {
    match amount {
        Some(a) => out == Some(a),
        None => out matches Some(z) && z@ == finite_view(0, 0),
    }
}

/// The fields that a Heikin-Ashi bar takes from its bar.
pub open spec fn same_frame(bar: BaseBar, out: BaseBar) -> bool {
    &&& out.time_period == bar.time_period
    &&& out.end_time == bar.end_time
    &&& out.begin_time == out.end_time - out.time_period
    &&& out.volume == bar.volume
    &&& amount_or_zero(bar.amount, out.amount)
    &&& out.trades == bar.trades
}

/// The first Heikin-Ashi bar: the first bar's own prices.
pub open spec fn first_heikin_ashi(bar: BaseBar, out: BaseBar) -> bool {
    &&& same_frame(bar, out)
    &&& out.open_price == bar.open_price
    &&& out.high_price == bar.high_price
    &&& out.low_price == bar.low_price
    &&& out.close_price == bar.close_price
}

/// A later Heikin-Ashi bar: its close is the mean of the bar's four prices, its
/// open the mean of the previous Heikin-Ashi open and close; its high and low
/// the extremes of the bar's high (low), that open and that close.
pub open spec fn next_heikin_ashi(bar: BaseBar, prev: BaseBar, out: BaseBar) -> bool {
    let o = bar.open_price.unwrap()@;
    let h = bar.high_price.unwrap()@;
    let l = bar.low_price.unwrap()@;
    let c = bar.close_price.unwrap()@;
    &&& same_frame(bar, out)
    &&& match (ha_close(o, h, l, c), ha_open(prev.open_price.unwrap()@, prev.close_price.unwrap()@)) {
        (Ok(hc), Ok(ho)) => {
            &&& out.close_price matches Some(x) && x@ == hc
            &&& out.open_price matches Some(x) && x@ == ho
            &&& out.high_price matches Some(x) && x@ == spec_max(spec_max(h, ho), hc)
            &&& out.low_price matches Some(x) && x@ == spec_min(spec_min(l, ho), hc)
        },
        _ => false,
    }
}

/// All four prices of a bar are set.
pub open spec fn has_prices(bar: BaseBar) -> bool {
    bar.open_price is Some && bar.high_price is Some && bar.low_price is Some && bar.close_price is Some
}

/// `output` is the Heikin-Ashi version of `input`, bar by bar.
pub open spec fn heikin_ashi_of(input: Seq<BaseBar>, output: Seq<BaseBar>) -> bool {
    &&& output.len() == input.len()
    &&& forall|i: int| 0 <= i < input.len() ==> has_prices(#[trigger] input[i])
    &&& input.len() > 0 ==> first_heikin_ashi(input[0], output[0])
    &&& forall|i: int| 1 <= i < input.len() ==> next_heikin_ashi(#[trigger] input[i], output[i - 1], output[i])
}

/// The open and close prices (as values) of the Heikin-Ashi bar made from the
/// bar at `i`, or `None` where a mean along the way cannot be computed.
pub open spec fn ha_open_close(input: Seq<BaseBar>, i: int) -> Option<(DecView, DecView)>
    decreases i,
{
    if i <= 0 {
        Some((input[0].open_price.unwrap()@, input[0].close_price.unwrap()@))
    } else {
        match ha_open_close(input, i - 1) {
            None => None,
            Some((po, pc)) => {
                let b = input[i];
                let o = b.open_price.unwrap()@;
                let h = b.high_price.unwrap()@;
                let l = b.low_price.unwrap()@;
                let c = b.close_price.unwrap()@;
                match (ha_close(o, h, l, c), ha_open(po, pc)) {
                    (Ok(hc), Ok(ho)) => Some((ho, hc)),
                    _ => None,
                }
            },
        }
    }
}

/// The bar at `i` makes a Heikin-Ashi bar: its prices are set, its begin time
/// fits an `i128` and the means up to it can be computed.
pub open spec fn ha_bar_ok(input: Seq<BaseBar>, i: int) -> bool {
    &&& has_prices(input[i])
    &&& begin_time_fits(input[i].time_period, input[i].end_time)
    &&& ha_open_close(input, i) is Some
}

/// The error for a bar that misses a price: it names the first missing of
/// open, high, low and close.
pub open spec fn missing_price_message(bar: BaseBar) -> Seq<char> {
    if bar.open_price is None {
        "missing "@ + "open price"@
    } else if bar.high_price is None {
        "missing "@ + "high price"@
    } else if bar.low_price is None {
        "missing "@ + "low price"@
    } else {
        "missing "@ + "close price"@
    }
}

/// The bar at `k` misses a price and every bar before it makes a Heikin-Ashi bar.
pub open spec fn first_missing_at(input: Seq<BaseBar>, k: int) -> bool {
    &&& 0 <= k < input.len()
    &&& !has_prices(input[k])
    &&& forall|j: int| 0 <= j < k ==> #[trigger] ha_bar_ok(input, j)
}

/// Builds Heikin-Ashi bars from bars.
pub struct HeikinAshiBarAggregator {
    pub num_factory: DecimalNumFactory,
}

impl HeikinAshiBarAggregator {
    pub fn new() -> (r: HeikinAshiBarAggregator) {
        HeikinAshiBarAggregator { num_factory: DecimalNumFactory::instance() }
    }
}

impl BarAggregator for HeikinAshiBarAggregator {
    open spec fn aggregates(&self, input: Seq<BaseBar>, output: Seq<BaseBar>) -> bool {
        heikin_ashi_of(input, output)
    }

    open spec fn accepts(&self, input: Seq<BaseBar>) -> bool {
        true
    }

    /// Every bar makes a Heikin-Ashi bar.
    open spec fn succeeds(&self, input: Seq<BaseBar>) -> bool {
        forall|i: int| 0 <= i < input.len() ==> #[trigger] ha_bar_ok(input, i)
    }

    /// The Heikin-Ashi bars of `bars`; an error if a bar misses a price, or a
    /// Heikin-Ashi bar cannot be built.
    fn aggregate(&self, bars: &[BaseBar]) -> (r: Result<Vec<BaseBar>, String>)
        ensures
            (exists|i: int| 0 <= i < bars@.len() && !has_prices(#[trigger] bars@[i])) ==> r is Err,
            forall|k: int| #[trigger] first_missing_at(bars@, k)
                ==> (r matches Err(e) && e@ == missing_price_message(bars@[k])),
    {
        let mut result: Vec<BaseBar> = Vec::new();
        if bars.len() == 0 {
            return Ok(result);
        }
        let mut previous_open: Option<DecimalNum> = None;
        let mut previous_close: Option<DecimalNum> = None;
        let mut ha_builder = HeikinAshiBarBuilder::new_with_factory(self.num_factory);
        for k in 0..bars.len()
            invariant
                result@.len() == k,
                forall|i: int| 0 <= i < k ==> has_prices(#[trigger] bars@[i]),
                k > 0 ==> first_heikin_ashi(bars@[0], result@[0]),
                forall|i: int| 1 <= i < k ==> next_heikin_ashi(#[trigger] bars@[i], result@[i - 1], result@[i]),
                k == 0 ==> previous_open is None && previous_close is None,
                k > 0 ==> previous_open == result@[k - 1].open_price && previous_close == result@[k - 1].close_price,
                k > 0 ==> previous_open is Some && previous_close is Some,
                forall|i: int| 0 <= i < k ==> #[trigger] ha_bar_ok(bars@, i),
                forall|i: int| 0 <= i < k ==> ha_open_close(bars@, i) == Some((#[trigger] result@[i].open_price.unwrap()@, result@[i].close_price.unwrap()@)),
                ha_builder.time_bar_builder.num_factory == self.num_factory,
        {
            let bar = bars[k];
            proof {
                assert(ha_bar_ok(bars@, k as int) ==> has_prices(bar));
            }
            let open = match unwrap_or_err(bar.open_price, "open price") {
                Ok(v) => v,
                Err(e) => {
                    proof {
                        assert(first_missing_at(bars@, k as int));
                        assert(!ha_bar_ok(bars@, k as int));
                    }
                    return Err(e);
                },
            };
            let high = match unwrap_or_err(bar.high_price, "high price") {
                Ok(v) => v,
                Err(e) => {
                    proof {
                        assert(first_missing_at(bars@, k as int));
                        assert(!ha_bar_ok(bars@, k as int));
                    }
                    return Err(e);
                },
            };
            let low = match unwrap_or_err(bar.low_price, "low price") {
                Ok(v) => v,
                Err(e) => {
                    proof {
                        assert(first_missing_at(bars@, k as int));
                        assert(!ha_bar_ok(bars@, k as int));
                    }
                    return Err(e);
                },
            };
            let close = match unwrap_or_err(bar.close_price, "close price") {
                Ok(v) => v,
                Err(e) => {
                    proof {
                        assert(first_missing_at(bars@, k as int));
                        assert(!ha_bar_ok(bars@, k as int));
                    }
                    return Err(e);
                },
            };
            let amount = match bar.amount {
                Some(a) => a,
                None => DecimalNum::zero(),
            };
            ha_builder
                .time_period(bar.time_period)
                .begin_time(bar.begin_time)
                .end_time(bar.end_time)
                .open_price(open)
                .high_price(high)
                .low_price(low)
                .close_price(close)
                .volume(bar.volume)
                .amount(amount)
                .trades(bar.trades);
            match (previous_open, previous_close) {
                (Some(po), Some(pc)) => {
                    ha_builder.previous_heikin_ashi_open_price(Some(po)).previous_heikin_ashi_close_price(Some(pc));
                },
                _ => {
                    ha_builder.previous_heikin_ashi_open_price(None).previous_heikin_ashi_close_price(None);
                },
            }
            let ha_bar = match ha_builder.build() {
                Ok(b) => b,
                Err(e) => {
                    proof {
                        if k > 0 {
                            assert(ha_open_close(bars@, k - 1) == Some((result@[k - 1].open_price.unwrap()@, result@[k - 1].close_price.unwrap()@)));
                        }
                        assert(!ha_bar_ok(bars@, k as int));
                    }
                    return Err(e);
                },
            };
            previous_open = ha_bar.open_price;
            previous_close = ha_bar.close_price;
            result.push(ha_bar);
        }
        Ok(result)
    }
}

} // verus!

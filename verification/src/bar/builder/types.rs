//! Bar builder factories, the enumeration of bar builders, and helpers.
use vstd::prelude::*;
use crate::bar::base_bar::{BaseBar, DecimalNumFactory, begin_time_fits};
use crate::bar::base_bar_series::BaseBarSeries;
use crate::bar::builder::tick_bar_builder::{TickBarBuilder, new_tick_builder};
use crate::bar::builder::time_bar_builder::{TimeBarBuilder, empty_time_builder};
use crate::bar::builder::volume_bar_builder::{VolumeBarBuilder, is_new_volume_builder};
use crate::num::{DecView, DecimalNum, finite_view, spec_plus};
use crate::bar::builder::tick_bar_builder::tick_closed;
use crate::bar::builder::volume_bar_builder::volume_closed;

verus! {

/// Calls `time::OffsetDateTime::now_utc` and returns its Unix timestamp in
/// nanoseconds. Nothing is claimed of the result: it is the current time.
#[verifier::external_body]
pub fn now_unix_nanos() -> (r: i128) {
    time::OffsetDateTime::now_utc().unix_timestamp_nanos()
}

/// `opt` plus `val`, with an unset `opt` counted as zero.
pub open spec fn spec_add_to_option(opt: Option<DecimalNum>, val: DecView) -> DecView {
    match opt {
        Some(x) => spec_plus(x@, val),
        None => spec_plus(finite_view(0, 0), val),
    }
}

/// `opt` plus `val`, with an unset `opt` counted as zero.
pub fn add_to_option(opt: &Option<DecimalNum>, val: DecimalNum) -> (r: Option<DecimalNum>)
    ensures
        r matches Some(x) && x@ == spec_add_to_option(*opt, val@),
{
    let base = match opt {
        Some(x) => *x,
        None => DecimalNum::zero(),
    };
    Some(base.plus(&val))
}

/// The highest price after a tick at `price`.
pub open spec fn track_high(high: Option<DecimalNum>, price: DecimalNum) -> Option<DecimalNum> {
    match high {
        Some(h) => if crate::num::spec_gt(price@, h@) { Some(price) } else { Some(h) },
        None => Some(price),
    }
}

/// The lowest price after a tick at `price`.
pub open spec fn track_low(low: Option<DecimalNum>, price: DecimalNum) -> Option<DecimalNum> {
    match low {
        Some(l) => if crate::num::spec_lt(price@, l@) { Some(price) } else { Some(l) },
        None => Some(price),
    }
}

/// The highest price after a tick at `price`.
pub fn update_high(high: Option<DecimalNum>, price: DecimalNum) -> (r: Option<DecimalNum>)
    ensures
        r == track_high(high, price),
{
    match high {
        Some(h) => if price.is_greater_than(&h) { Some(price) } else { Some(h) },
        None => Some(price),
    }
}

/// The lowest price after a tick at `price`.
pub fn update_low(low: Option<DecimalNum>, price: DecimalNum) -> (r: Option<DecimalNum>)
    ensures
        r == track_low(low, price),
{
    match low {
        Some(l) => if price.is_less_than(&l) { Some(price) } else { Some(l) },
        None => Some(price),
    }
}

/// Makes time bar builders.
#[derive(Clone, Copy, Debug, PartialEq, Eq, Structural)]
pub struct TimeBarBuilderFactory;

impl TimeBarBuilderFactory {
    pub fn new() -> (r: TimeBarBuilderFactory) {
        TimeBarBuilderFactory
    }
}

/// Makes tick bar builders that close a bar every `tick_count` ticks.
#[derive(Clone, Copy, Debug, PartialEq, Eq, Structural)]
pub struct TickBarBuilderFactory {
    pub tick_count: u64,
}

impl TickBarBuilderFactory {
    pub fn new(tick_count: u64) -> (r: TickBarBuilderFactory)
        ensures
            r.tick_count == tick_count,
    {
        TickBarBuilderFactory { tick_count }
    }
}

/// Makes volume bar builders that close a bar once the volume reaches
/// `volume_threshold`.
#[derive(Clone, Copy, Debug, PartialEq, Eq, Structural)]
pub struct VolumeBarBuilderFactory {
    pub volume_threshold: i64,
}

impl VolumeBarBuilderFactory {
    pub fn new(volume_threshold: i64) -> (r: VolumeBarBuilderFactory)
        ensures
            r.volume_threshold == volume_threshold,
    {
        VolumeBarBuilderFactory { volume_threshold }
    }
}

/// The bar builder factories.
#[derive(Clone, Copy, Debug, PartialEq, Eq, Structural)]
pub enum BarBuilderFactories {
    TimeBarFactory(TimeBarBuilderFactory),
    TickBarFactory(TickBarBuilderFactory),
    VolumeBarFactory(VolumeBarBuilderFactory),
}

/// The bar builders.
#[derive(Clone, Copy, Debug)]
pub enum BarBuilders {
    Time(TimeBarBuilder),
    Tick(TickBarBuilder),
    Volume(VolumeBarBuilder),
}

/// `b` is a fresh builder of the kind that `f` makes.
pub open spec fn creates_builder(f: BarBuilderFactories, b: BarBuilders) -> bool {
    match f {
        BarBuilderFactories::TimeBarFactory(_) => b == BarBuilders::Time(empty_time_builder(DecimalNumFactory)),
        BarBuilderFactories::TickBarFactory(t) => b == BarBuilders::Tick(new_tick_builder(DecimalNumFactory, t.tick_count)),
        BarBuilderFactories::VolumeBarFactory(v) => b matches BarBuilders::Volume(vb) && is_new_volume_builder(vb, DecimalNumFactory, v.volume_threshold),
    }
}

impl BarBuilderFactories {
    /// A fresh builder of this kind.
    pub fn create_bar_builder(&self, num_factory: DecimalNumFactory) -> (r: BarBuilders)
        ensures
            creates_builder(*self, r),
    {
        match self {
            BarBuilderFactories::TimeBarFactory(_) => BarBuilders::Time(TimeBarBuilder::new_with_factory(num_factory)),
            BarBuilderFactories::TickBarFactory(t) => BarBuilders::Tick(
                TickBarBuilder::new_with_factory(num_factory, t.tick_count),
            ),
            BarBuilderFactories::VolumeBarFactory(v) => BarBuilders::Volume(
                VolumeBarBuilder::new_with_factory(num_factory, v.volume_threshold),
            ),
        }
    }
}

impl BarBuilders {
    /// Sets (time bars) or adds to (tick and volume bars) the period.
    pub fn time_period(&mut self, period: i128) -> (r: &mut Self)
        requires
            match *old(self) {
                BarBuilders::Tick(b) => i128::MIN <= b.time_period.unwrap_or(0) + period <= i128::MAX,
                BarBuilders::Volume(b) => i128::MIN <= b.time_period.unwrap_or(0) + period <= i128::MAX,
                _ => true,
            },
        ensures
            match *old(self) {
                BarBuilders::Time(a) => *r == BarBuilders::Time(TimeBarBuilder { time_period: Some(period), ..a }),
                BarBuilders::Tick(a) => *r == BarBuilders::Tick(TickBarBuilder {
                    time_period: Some((a.time_period.unwrap_or(0) + period) as i128),
                    ..a
                }),
                BarBuilders::Volume(a) => *r == BarBuilders::Volume(VolumeBarBuilder {
                    time_period: Some((a.time_period.unwrap_or(0) + period) as i128),
                    ..a
                }),
            },
            *final(self) == *final(r),
    {
        match self {
            BarBuilders::Time(b) => {
                b.time_period(period);
            },
            BarBuilders::Tick(b) => {
                b.time_period(period);
            },
            BarBuilders::Volume(b) => {
                b.time_period(period);
            },
        }
        self
    }

    /// Sets the begin time of a time bar; ignored by volume bars; tick bars
    /// take no begin time.
    pub fn begin_time(&mut self, time: i128) -> (r: &mut Self)
        requires
            !(*old(self) is Tick),
        ensures
            match *old(self) {
                BarBuilders::Time(a) => *r == BarBuilders::Time(TimeBarBuilder { begin_time: Some(time), ..a }),
                _ => *r == *old(self),
            },
            *final(self) == *final(r),
    {
        match self {
            BarBuilders::Time(b) => {
                b.begin_time(time);
            },
            BarBuilders::Tick(_) => {},
            BarBuilders::Volume(b) => {
                b.begin_time(time);
            },
        }
        self
    }

    pub fn end_time(&mut self, time: i128) -> (r: &mut Self)
        ensures
            match *old(self) {
                BarBuilders::Time(a) => *r == BarBuilders::Time(TimeBarBuilder { end_time: Some(time), ..a }),
                BarBuilders::Tick(a) => *r == BarBuilders::Tick(TickBarBuilder { end_time: Some(time), ..a }),
                BarBuilders::Volume(a) => *r == BarBuilders::Volume(VolumeBarBuilder { end_time: Some(time), ..a }),
            },
            *final(self) == *final(r),
    {
        match self {
            BarBuilders::Time(b) => {
                b.end_time(time);
            },
            BarBuilders::Tick(b) => {
                b.end_time(time);
            },
            BarBuilders::Volume(b) => {
                b.end_time(time);
            },
        }
        self
    }

    /// Sets the open price of a time bar; ignored by volume bars; tick bars take
    /// no open price.
    pub fn open_price(&mut self, price: DecimalNum) -> (r: &mut Self)
        requires
            !(*old(self) is Tick),
        ensures
            match *old(self) {
                BarBuilders::Time(a) => *r == BarBuilders::Time(TimeBarBuilder { open_price: Some(price), ..a }),
                _ => *r == *old(self),
            },
            *final(self) == *final(r),
    {
        match self {
            BarBuilders::Time(b) => {
                b.open_price(price);
            },
            BarBuilders::Tick(_) => {},
            BarBuilders::Volume(b) => {
                b.open_price(price);
            },
        }
        self
    }

    /// Sets the high price of a time bar; ignored by volume bars; tick bars take
    /// no high price.
    pub fn high_price(&mut self, price: DecimalNum) -> (r: &mut Self)
        requires
            !(*old(self) is Tick),
        ensures
            match *old(self) {
                BarBuilders::Time(a) => *r == BarBuilders::Time(TimeBarBuilder { high_price: Some(price), ..a }),
                _ => *r == *old(self),
            },
            *final(self) == *final(r),
    {
        match self {
            BarBuilders::Time(b) => {
                b.high_price(price);
            },
            BarBuilders::Tick(_) => {},
            BarBuilders::Volume(b) => {
                b.high_price(price);
            },
        }
        self
    }

    /// Sets the low price of a time bar; ignored by volume bars; tick bars take
    /// no low price.
    pub fn low_price(&mut self, price: DecimalNum) -> (r: &mut Self)
        requires
            !(*old(self) is Tick),
        ensures
            match *old(self) {
                BarBuilders::Time(a) => *r == BarBuilders::Time(TimeBarBuilder { low_price: Some(price), ..a }),
                _ => *r == *old(self),
            },
            *final(self) == *final(r),
    {
        match self {
            BarBuilders::Time(b) => {
                b.low_price(price);
            },
            BarBuilders::Tick(_) => {},
            BarBuilders::Volume(b) => {
                b.low_price(price);
            },
        }
        self
    }

    /// Sets the close price of a time bar; a tick for tick and volume bars.
    pub fn close_price(&mut self, price: DecimalNum) -> (r: &mut Self)
        ensures
            match *old(self) {
                BarBuilders::Time(a) => *r == BarBuilders::Time(TimeBarBuilder { close_price: Some(price), ..a }),
                BarBuilders::Tick(a) => *r == BarBuilders::Tick(tick_closed(a, price)),
                BarBuilders::Volume(a) => *r == BarBuilders::Volume(volume_closed(a, price)),
            },
            *final(self) == *final(r),
    {
        match self {
            BarBuilders::Time(b) => {
                b.close_price(price);
            },
            BarBuilders::Tick(b) => {
                b.close_price(price);
            },
            BarBuilders::Volume(b) => {
                b.close_price(price);
            },
        }
        self
    }

    /// Sets (time bars) or adds to (tick and volume bars) the volume.
    pub fn volume(&mut self, volume: DecimalNum) -> (r: &mut Self)
        ensures
            match (*old(self), *r) {
                (BarBuilders::Time(a), BarBuilders::Time(b)) => b == TimeBarBuilder { volume: Some(volume), ..a },
                (BarBuilders::Tick(a), BarBuilders::Tick(b)) => {
                    &&& b.volume matches Some(v) && v@ == spec_add_to_option(a.volume, volume@)
                    &&& b == TickBarBuilder { volume: b.volume, ..a }
                },
                (BarBuilders::Volume(a), BarBuilders::Volume(b)) => {
                    &&& b.volume@ == spec_plus(a.volume@, volume@)
                    &&& b == VolumeBarBuilder { volume: b.volume, ..a }
                },
                _ => false,
            },
            *final(self) == *final(r),
    {
        match self {
            BarBuilders::Time(b) => {
                b.volume(volume);
            },
            BarBuilders::Tick(b) => {
                b.volume(volume);
            },
            BarBuilders::Volume(b) => {
                b.volume(volume);
            },
        }
        self
    }

    /// Sets (time bars) or adds to (tick and volume bars) the amount.
    pub fn amount(&mut self, amount: DecimalNum) -> (r: &mut Self)
        ensures
            match (*old(self), *r) {
                (BarBuilders::Time(a), BarBuilders::Time(b)) => b == TimeBarBuilder { amount: Some(amount), ..a },
                (BarBuilders::Tick(a), BarBuilders::Tick(b)) => {
                    &&& b.amount matches Some(x) && x@ == spec_add_to_option(a.amount, amount@)
                    &&& b == TickBarBuilder { amount: b.amount, ..a }
                },
                (BarBuilders::Volume(a), BarBuilders::Volume(b)) => {
                    &&& b.amount matches Some(x) && x@ == spec_add_to_option(a.amount, amount@)
                    &&& b == VolumeBarBuilder { amount: b.amount, ..a }
                },
                _ => false,
            },
            *final(self) == *final(r),
    {
        match self {
            BarBuilders::Time(b) => {
                b.amount(amount);
            },
            BarBuilders::Tick(b) => {
                b.amount(amount);
            },
            BarBuilders::Volume(b) => {
                b.amount(amount);
            },
        }
        self
    }

    /// Sets (time bars) or adds to (tick and volume bars) the number of trades.
    pub fn trades(&mut self, trades: u64) -> (r: &mut Self)
        requires
            match *old(self) {
                BarBuilders::Tick(b) => b.trades + trades <= u64::MAX,
                BarBuilders::Volume(b) => b.trades + trades <= u64::MAX,
                _ => true,
            },
        ensures
            match *old(self) {
                BarBuilders::Time(a) => *r == BarBuilders::Time(TimeBarBuilder { trades: Some(trades), ..a }),
                BarBuilders::Tick(a) => *r == BarBuilders::Tick(TickBarBuilder { trades: (a.trades + trades) as u64, ..a }),
                BarBuilders::Volume(a) => *r == BarBuilders::Volume(VolumeBarBuilder { trades: (a.trades + trades) as u64, ..a }),
            },
            *final(self) == *final(r),
    {
        match self {
            BarBuilders::Time(b) => {
                b.trades(trades);
            },
            BarBuilders::Tick(b) => {
                b.trades(trades);
            },
            BarBuilders::Volume(b) => {
                b.trades(trades);
            },
        }
        self
    }

    /// The bar built so far.
    pub fn build(&self) -> (r: Result<BaseBar, String>)
        ensures
            match *self {
                BarBuilders::Time(b) => {
                    &&& b.build_fails() ==> r is Err
                    &&& r matches Ok(bar) ==> b.built(bar)
                    &&& (!b.build_fails() && (b.end_time matches Some(t) && begin_time_fits(b.time_period.unwrap_or(0), t))) ==> r is Ok
                    &&& (b.end_time matches Some(t) && !begin_time_fits(b.time_period.unwrap_or(0), t)) ==> r is Err
                },
                BarBuilders::Tick(b) => {
                    &&& r matches Ok(bar) ==> b.built(bar)
                    &&& (b.end_time matches Some(t) && begin_time_fits(b.time_period.unwrap_or(0), t)) ==> r is Ok
                    &&& (b.end_time matches Some(t) && !begin_time_fits(b.time_period.unwrap_or(0), t)) ==> r is Err
                },
                BarBuilders::Volume(b) => {
                    &&& r matches Ok(bar) ==> b.built(bar)
                    &&& (b.end_time matches Some(t) && begin_time_fits(b.time_period.unwrap_or(0), t)) ==> r is Ok
                    &&& (b.end_time matches Some(t) && !begin_time_fits(b.time_period.unwrap_or(0), t)) ==> r is Err
                },
            },
    {
        match self {
            BarBuilders::Time(b) => b.build(),
            BarBuilders::Tick(b) => b.build(),
            BarBuilders::Volume(b) => b.build(),
        }
    }

    /// Adds a tick (or the bar, for time bars) as the builder does, appending to
    /// `series` the bars it completes.
    pub fn add(&mut self, series: &mut BaseBarSeries) -> (r: Result<(), String>)
        requires
            old(series)@.wf(),
            old(series)@.end_index matches Some(e) ==> e < usize::MAX,
            match *old(self) {
                BarBuilders::Tick(b) => b.tick_count > 0 && b.passed_ticks_count < u64::MAX,
                _ => true,
            },
        ensures
            final(series)@.wf(),
            r is Err ==> final(series)@ == old(series)@,
            match (*old(self), *final(self)) {
                (BarBuilders::Time(a), BarBuilders::Time(b)) => a.add_result(old(series)@, b, final(series)@, r),
                (BarBuilders::Tick(a), BarBuilders::Tick(b)) => a.add_result(old(series)@, b, final(series)@, r),
                (BarBuilders::Volume(a), BarBuilders::Volume(b)) => a.add_result(old(series)@, b, final(series)@, r),
                _ => false,
            },
    {
        match self {
            BarBuilders::Time(b) => b.add(series),
            BarBuilders::Tick(b) => b.add(series),
            BarBuilders::Volume(b) => b.add(series),
        }
    }
}

} // verus!

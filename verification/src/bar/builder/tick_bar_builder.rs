//! A builder of tick bars: prices come from the close price of each tick, and a
//! bar is closed every `tick_count` ticks.
use vstd::prelude::*;
use crate::bar::base_bar::{BaseBar, DecimalNumFactory, begin_time_fits};
use crate::bar::base_bar_series::{BaseBarSeries, SeriesView};
use crate::bar::builder::types::{
    add_to_option, now_unix_nanos, spec_add_to_option, track_high, track_low, update_high,
    update_low,
};
use crate::num::{DecimalNum, finite_view, spec_times};

verus! {

/// Accumulates ticks into a bar.
#[derive(Clone, Copy, Debug)]
pub struct TickBarBuilder {
    pub num_factory: DecimalNumFactory,
    /// Number of ticks per bar.
    pub tick_count: u64,
    /// Number of ticks added so far.
    pub passed_ticks_count: u64,
    pub time_period: Option<i128>,
    pub end_time: Option<i128>,
    pub open_price: Option<DecimalNum>,
    pub high_price: Option<DecimalNum>,
    pub low_price: Option<DecimalNum>,
    pub close_price: Option<DecimalNum>,
    pub volume: Option<DecimalNum>,
    pub amount: Option<DecimalNum>,
    pub trades: u64,
}

/// A fresh tick bar builder.
pub open spec fn new_tick_builder(num_factory: DecimalNumFactory, tick_count: u64) -> TickBarBuilder {
    TickBarBuilder {
        num_factory,
        tick_count,
        passed_ticks_count: 0,
        time_period: None,
        end_time: None,
        open_price: None,
        high_price: None,
        low_price: None,
        close_price: None,
        volume: None,
        amount: None,
        trades: 0,
    }
}

/// The builder after a tick at `price`: it becomes the close price, the open
/// price if there is none yet, and updates the high and low prices.
pub open spec fn tick_closed(b: TickBarBuilder, price: DecimalNum) -> TickBarBuilder {
    TickBarBuilder {
        close_price: Some(price),
        open_price: if b.open_price is None { Some(price) } else { b.open_price },
        high_price: track_high(b.high_price, price),
        low_price: track_low(b.low_price, price),
        ..b
    }
}

impl TickBarBuilder {
    /// `post` is `self` after a reset: the bar fields are cleared and the low
    /// price is set to `i64::MAX`; the tick count, the ticks passed and the end
    /// time stay.
    pub open spec fn is_reset_of(self, post: TickBarBuilder) -> bool {
        &&& post == TickBarBuilder {
            time_period: None,
            open_price: None,
            high_price: None,
            low_price: post.low_price,
            close_price: None,
            volume: None,
            amount: None,
            trades: 0,
            ..self
        }
        &&& post.low_price matches Some(l) && l@ == finite_view(i64::MAX as i128, 0)
    }

    /// The amount that `add` uses: the one set, else close price times volume.
    pub open spec fn bar_amount_ok(self, amount: Option<DecimalNum>) -> bool {
        if self.amount is Some {
            amount == self.amount
        } else {
            match (self.close_price, self.volume) {
                (Some(c), Some(v)) => amount matches Some(a) && a@ == spec_times(c@, v@),
                _ => amount is None,
            }
        }
    }

    /// `bar` is the bar built from the ticks so far (with `amount`).
    pub open spec fn built(self, bar: BaseBar) -> bool {
        &&& bar.time_period == self.time_period.unwrap_or(0)
        &&& self.end_time matches Some(t) ==> bar.end_time == t
        &&& bar.begin_time == bar.end_time - bar.time_period
        &&& bar.open_price == self.open_price
        &&& bar.high_price == self.high_price
        &&& bar.low_price == self.low_price
        &&& bar.close_price == self.close_price
        &&& (match self.volume { Some(v) => bar.volume == v, None => bar.volume@ == finite_view(0, 0) })
        &&& bar.amount == self.amount
        &&& bar.trades == self.trades
    }

    pub fn new_with_factory(num_factory: DecimalNumFactory, tick_count: u64) -> (r: TickBarBuilder)
        ensures
            r == new_tick_builder(num_factory, tick_count),
    {
        TickBarBuilder {
            num_factory,
            tick_count,
            passed_ticks_count: 0,
            time_period: None,
            end_time: None,
            open_price: None,
            high_price: None,
            low_price: None,
            close_price: None,
            volume: None,
            amount: None,
            trades: 0,
        }
    }

    pub fn new(tick_count: u64) -> (r: TickBarBuilder)
        ensures
            r == new_tick_builder(DecimalNumFactory, tick_count),
    {
        Self::new_with_factory(DecimalNumFactory::instance(), tick_count)
    }

    /// Clears the bar fields; the low price becomes `i64::MAX`.
    fn reset(&mut self)
        ensures
            old(self).is_reset_of(*final(self)),
    {
        self.time_period = None;
        self.open_price = None;
        self.high_price = None;
        self.low_price = Some(DecimalNum::from_i64(i64::MAX));
        self.close_price = None;
        self.volume = None;
        self.amount = None;
        self.trades = 0;
    }

    /// Adds `time_period` to the period of the bar.
    pub fn time_period(&mut self, time_period: i128) -> (r: &mut Self)
        requires
            i128::MIN <= old(self).time_period.unwrap_or(0) + time_period <= i128::MAX,
        ensures
            *r == (TickBarBuilder {
                time_period: Some((old(self).time_period.unwrap_or(0) + time_period) as i128),
                ..*old(self)
            }),
            *final(self) == *final(r),
    {
        self.time_period = match self.time_period {
            Some(existing) => Some(existing + time_period),
            None => Some(time_period),
        };
        self
    }

    pub fn end_time(&mut self, end_time: i128) -> (r: &mut Self)
        ensures
            *r == (TickBarBuilder { end_time: Some(end_time), ..*old(self) }),
            *final(self) == *final(r),
    {
        self.end_time = Some(end_time);
        self
    }

    /// A tick at `tick_price`: it becomes the close price, the open price if
    /// there is none yet, and updates the high and low prices.
    pub fn close_price(&mut self, tick_price: DecimalNum) -> (r: &mut Self)
        ensures
            *r == tick_closed(*old(self), tick_price),
            *final(self) == *final(r),
    {
        let price = tick_price;
        self.close_price = Some(price);
        if self.open_price.is_none() {
            self.open_price = Some(price);
        }
        self.high_price = update_high(self.high_price, price);
        self.low_price = update_low(self.low_price, price);
        self
    }

    /// Adds to the volume.
    pub fn volume(&mut self, volume: DecimalNum) -> (r: &mut Self)
        ensures
            r.volume matches Some(v) && v@ == spec_add_to_option(old(self).volume, volume@),
            *r == (TickBarBuilder { volume: r.volume, ..*old(self) }),
            *final(self) == *final(r),
    {
        self.volume = add_to_option(&self.volume, volume);
        self
    }

    /// Adds to the amount.
    pub fn amount(&mut self, amount: DecimalNum) -> (r: &mut Self)
        ensures
            r.amount matches Some(a) && a@ == spec_add_to_option(old(self).amount, amount@),
            *r == (TickBarBuilder { amount: r.amount, ..*old(self) }),
            *final(self) == *final(r),
    {
        self.amount = add_to_option(&self.amount, amount);
        self
    }

    /// Adds to the number of trades.
    pub fn trades(&mut self, trades: u64) -> (r: &mut Self)
        requires
            old(self).trades + trades <= u64::MAX,
        ensures
            *r == (TickBarBuilder { trades: (old(self).trades + trades) as u64, ..*old(self) }),
            *final(self) == *final(r),
    {
        self.trades = self.trades + trades;
        self
    }

    /// The bar of the ticks so far; the end time defaults to the current time.
    /// An error if its begin time is out of range.
    pub fn build(&self) -> (r: Result<BaseBar, String>)
        ensures
            r matches Ok(bar) ==> self.built(bar),
            (self.end_time matches Some(t) && begin_time_fits(self.time_period.unwrap_or(0), t)) ==> r is Ok,
            (self.end_time matches Some(t) && !begin_time_fits(self.time_period.unwrap_or(0), t)) ==> r is Err,
    {
        let time_period = match self.time_period {
            Some(p) => p,
            None => 0,
        };
        let end_time = match self.end_time {
            Some(t) => t,
            None => now_unix_nanos(),
        };
        let volume = match self.volume {
            Some(v) => v,
            None => DecimalNum::zero(),
        };
        BaseBar::new(
            time_period,
            end_time,
            self.open_price,
            self.high_price,
            self.low_price,
            self.close_price,
            volume,
            self.amount,
            self.trades,
        )
    }

    /// What `add` does: `post` and `s2` are the builder and the series after
    /// adding to `s`, and `r` the result.
    pub open spec fn add_result(self, s: SeriesView, post: Self, s2: SeriesView, r: Result<(), String>) -> bool {
        &&& post.passed_ticks_count == self.passed_ticks_count + 1
        &&& post.tick_count == self.tick_count
        &&& post.end_time == self.end_time
        &&& ((self.passed_ticks_count + 1) % (self.tick_count as int) != 0 ==> {
            &&& r is Ok
            &&& post == (TickBarBuilder {
                passed_ticks_count: post.passed_ticks_count,
                ..self
            })
            &&& s2 == s
        })
        &&& ((self.passed_ticks_count + 1) % (self.tick_count as int) == 0 ==> {
            &&& r is Ok ==> exists|bar: BaseBar| {
                &&& self.bar_amount_ok(bar.amount)
                &&& (TickBarBuilder { amount: bar.amount, ..self }).built(bar)
                &&& s.appended(bar, s2)
                &&& self.is_reset_of(
                    TickBarBuilder { passed_ticks_count: self.passed_ticks_count, ..post },
                )
            }
            &&& r is Err ==> s2 == s
            &&& (self.end_time matches Some(t) ==> (r is Ok <==> {
                &&& begin_time_fits(self.time_period.unwrap_or(0), t)
                &&& (s.bars.len() == 0 || t > s.bars.last().end_time)
            }))
        })
    }

    /// Counts one tick; every `tick_count` ticks, builds the bar (the amount
    /// defaults to close price times volume), appends it to `series` and resets.
    pub fn add(&mut self, series: &mut BaseBarSeries) -> (r: Result<(), String>)
        requires
            old(self).tick_count > 0,
            old(self).passed_ticks_count < u64::MAX,
            old(series)@.wf(),
            old(series)@.end_index matches Some(e) ==> e < usize::MAX,
        ensures
            final(series)@.wf(),
            old(self).add_result(old(series)@, *final(self), final(series)@, r),
    {
        self.passed_ticks_count = self.passed_ticks_count + 1;
        if self.passed_ticks_count % self.tick_count == 0 {
            if self.amount.is_none() {
                match (self.close_price, self.volume) {
                    (Some(close_price), Some(volume)) => {
                        self.amount = Some(close_price.multiplied_by(&volume));
                    },
                    _ => {},
                }
            }
            let bar = self.build()?;
            series.add_bar(bar)?;
            self.reset();
        }
        Ok(())
    }
}

} // verus!

//! A builder of time bars: every field is set by the caller.
use vstd::prelude::*;
use crate::bar::base_bar::{BaseBar, DecimalNumFactory, is_bar_of, begin_time_fits};
use crate::bar::base_bar_series::{BaseBarSeries, SeriesView};
use crate::bar::builder::types::now_unix_nanos;
use crate::num::{DecimalNum, finite_view, spec_times};

verus! {

/// Builds a bar from the fields set on it.
#[derive(Clone, Copy, Debug)]
pub struct TimeBarBuilder {
    pub num_factory: DecimalNumFactory,
    pub time_period: Option<i128>,
    pub begin_time: Option<i128>,
    pub end_time: Option<i128>,
    pub open_price: Option<DecimalNum>,
    pub high_price: Option<DecimalNum>,
    pub low_price: Option<DecimalNum>,
    pub close_price: Option<DecimalNum>,
    pub volume: Option<DecimalNum>,
    pub amount: Option<DecimalNum>,
    pub trades: Option<u64>,
}

/// A builder with no field set.
pub open spec fn empty_time_builder(num_factory: DecimalNumFactory) -> TimeBarBuilder {
    TimeBarBuilder {
        num_factory,
        time_period: None,
        begin_time: None,
        end_time: None,
        open_price: None,
        high_price: None,
        low_price: None,
        close_price: None,
        volume: None,
        amount: None,
        trades: None,
    }
}

impl TimeBarBuilder {
    /// The bar that `build` makes when the end time is set: the four prices must
    /// be set; the period defaults to zero, the volume to zero, the trades to 0.
    pub open spec fn built(self, bar: BaseBar) -> bool {
        &&& self.open_price is Some && self.high_price is Some
        &&& self.low_price is Some && self.close_price is Some
        &&& bar.time_period == self.time_period.unwrap_or(0)
        &&& self.end_time matches Some(t) ==> bar.end_time == t
        &&& bar.begin_time == bar.end_time - bar.time_period
        &&& bar.open_price == self.open_price
        &&& bar.high_price == self.high_price
        &&& bar.low_price == self.low_price
        &&& bar.close_price == self.close_price
        &&& (match self.volume { Some(v) => bar.volume == v, None => bar.volume@ == finite_view(0, 0) })
        &&& bar.amount == self.amount
        &&& bar.trades == self.trades.unwrap_or(0)
    }

    /// The message of `build` when a price is missing: the first missing of
    /// open, high, low and close.
    pub open spec fn missing_message(self) -> Seq<char> {
        if self.open_price is None {
            "Missing open_price"@
        } else if self.high_price is None {
            "Missing high_price"@
        } else if self.low_price is None {
            "Missing low_price"@
        } else {
            "Missing close_price"@
        }
    }

    /// A price is missing: `build` fails.
    pub open spec fn build_fails(self) -> bool {
        ||| self.open_price is None
        ||| self.high_price is None
        ||| self.low_price is None
        ||| self.close_price is None
    }

    pub fn new_with_factory(num_factory: DecimalNumFactory) -> (r: TimeBarBuilder)
        ensures
            r == empty_time_builder(num_factory),
    {
        TimeBarBuilder {
            num_factory,
            time_period: None,
            begin_time: None,
            end_time: None,
            open_price: None,
            high_price: None,
            low_price: None,
            close_price: None,
            volume: None,
            amount: None,
            trades: None,
        }
    }

    pub fn new() -> (r: TimeBarBuilder)
        ensures
            r == empty_time_builder(DecimalNumFactory),
    {
        Self::new_with_factory(DecimalNumFactory::instance())
    }

    /// A copy of this builder.
    pub fn clone_without_series(&self) -> (r: TimeBarBuilder)
        ensures
            r == *self,
    {
        *self
    }

    pub fn time_period(&mut self, time_period: i128) -> (r: &mut Self)
        ensures
            *r == (TimeBarBuilder { time_period: Some(time_period), ..*old(self) }),
            *final(self) == *final(r),
    {
        self.time_period = Some(time_period);
        self
    }

    pub fn begin_time(&mut self, begin_time: i128) -> (r: &mut Self)
        ensures
            *r == (TimeBarBuilder { begin_time: Some(begin_time), ..*old(self) }),
            *final(self) == *final(r),
    {
        self.begin_time = Some(begin_time);
        self
    }

    pub fn end_time(&mut self, end_time: i128) -> (r: &mut Self)
        ensures
            *r == (TimeBarBuilder { end_time: Some(end_time), ..*old(self) }),
            *final(self) == *final(r),
    {
        self.end_time = Some(end_time);
        self
    }

    pub fn open_price(&mut self, open_price: DecimalNum) -> (r: &mut Self)
        ensures
            *r == (TimeBarBuilder { open_price: Some(open_price), ..*old(self) }),
            *final(self) == *final(r),
    {
        self.open_price = Some(open_price);
        self
    }

    pub fn high_price(&mut self, high_price: DecimalNum) -> (r: &mut Self)
        ensures
            *r == (TimeBarBuilder { high_price: Some(high_price), ..*old(self) }),
            *final(self) == *final(r),
    {
        self.high_price = Some(high_price);
        self
    }

    pub fn low_price(&mut self, low_price: DecimalNum) -> (r: &mut Self)
        ensures
            *r == (TimeBarBuilder { low_price: Some(low_price), ..*old(self) }),
            *final(self) == *final(r),
    {
        self.low_price = Some(low_price);
        self
    }

    pub fn close_price(&mut self, close_price: DecimalNum) -> (r: &mut Self)
        ensures
            *r == (TimeBarBuilder { close_price: Some(close_price), ..*old(self) }),
            *final(self) == *final(r),
    {
        self.close_price = Some(close_price);
        self
    }

    pub fn volume(&mut self, volume: DecimalNum) -> (r: &mut Self)
        ensures
            *r == (TimeBarBuilder { volume: Some(volume), ..*old(self) }),
            *final(self) == *final(r),
    {
        self.volume = Some(volume);
        self
    }

    pub fn amount(&mut self, amount: DecimalNum) -> (r: &mut Self)
        ensures
            *r == (TimeBarBuilder { amount: Some(amount), ..*old(self) }),
            *final(self) == *final(r),
    {
        self.amount = Some(amount);
        self
    }

    pub fn trades(&mut self, trades: u64) -> (r: &mut Self)
        ensures
            *r == (TimeBarBuilder { trades: Some(trades), ..*old(self) }),
            *final(self) == *final(r),
    {
        self.trades = Some(trades);
        self
    }

    /// Builds the bar; the end time defaults to the current time. An error when
    /// a price is missing or the begin time is out of range.
    pub fn build(&self) -> (r: Result<BaseBar, String>)
        ensures
            self.build_fails() ==> (r matches Err(e) && e@ == self.missing_message()),
            r matches Ok(bar) ==> self.built(bar),
            !self.build_fails() && (self.end_time matches Some(t) && begin_time_fits(self.time_period.unwrap_or(0), t)) ==> r is Ok,
            (self.end_time matches Some(t) && !begin_time_fits(self.time_period.unwrap_or(0), t)) ==> r is Err,
    {
        let time_period = match self.time_period {
            Some(p) => p,
            None => 0,
        };
        let end_time = match self.end_time {
            Some(t) => t,
            None => now_unix_nanos(),
        };
        let open_price = match self.open_price {
            Some(p) => p,
            None => {
                return Err("Missing open_price".to_string());
            },
        };
        let high_price = match self.high_price {
            Some(p) => p,
            None => {
                return Err("Missing high_price".to_string());
            },
        };
        let low_price = match self.low_price {
            Some(p) => p,
            None => {
                return Err("Missing low_price".to_string());
            },
        };
        let close_price = match self.close_price {
            Some(p) => p,
            None => {
                return Err("Missing close_price".to_string());
            },
        };
        let volume = match self.volume {
            Some(v) => v,
            None => DecimalNum::zero(),
        };
        let trades = match self.trades {
            Some(n) => n,
            None => 0,
        };
        BaseBar::new(
            time_period,
            end_time,
            Some(open_price),
            Some(high_price),
            Some(low_price),
            Some(close_price),
            volume,
            self.amount,
            trades,
        )
    }

    /// What `add` does: `post` and `s2` are the builder and the series after
    /// adding to `s`, and `r` the result.
    pub open spec fn add_result(self, s: SeriesView, post: Self, s2: SeriesView, r: Result<(), String>) -> bool {
        &&& post.num_factory == self.num_factory
        &&& post.time_period == self.time_period
        &&& post.begin_time == self.begin_time
        &&& post.end_time == self.end_time
        &&& post.open_price == self.open_price
        &&& post.high_price == self.high_price
        &&& post.low_price == self.low_price
        &&& post.close_price == self.close_price
        &&& post.volume == self.volume
        &&& post.trades == self.trades
        &&& self.amount is Some ==> post.amount == self.amount
        &&& (self.amount is None ==> match (self.close_price, self.volume) {
            (Some(c), Some(v)) => post.amount matches Some(a) && a@ == spec_times(c@, v@),
            _ => post.amount is None,
        })
        &&& self.build_fails() ==> r is Err && s2 == s
        &&& (!self.build_fails() ==> (self.end_time matches Some(t) ==> (r is Ok <==> {
            &&& begin_time_fits(self.time_period.unwrap_or(0), t)
            &&& (s.bars.len() == 0 || t > s.bars.last().end_time)
        })))
        &&& r is Ok ==> exists|bar: BaseBar| post.built(bar) && s.appended(bar, s2)
        &&& r is Err ==> s2 == s
    }

    /// Sets the amount to close price times volume if it is unset and both are
    /// set, builds the bar and appends it to `series`.
    pub fn add(&mut self, series: &mut BaseBarSeries) -> (r: Result<(), String>)
        requires
            old(series)@.wf(),
            old(series)@.end_index matches Some(e) ==> e < usize::MAX,
        ensures
            final(series)@.wf(),
            old(self).add_result(old(series)@, *final(self), final(series)@, r),
    {
        if self.amount.is_none() {
            match (self.close_price, self.volume) {
                (Some(close), Some(volume)) => {
                    self.amount = Some(close.multiplied_by(&volume));
                },
                _ => {},
            }
        }
        let bar = self.build()?;
        series.add_bar(bar)
    }
}

} // verus!

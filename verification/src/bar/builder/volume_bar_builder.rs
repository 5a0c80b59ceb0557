//! A builder of volume bars: prices come from the close price of each tick, and
//! a bar is closed once the volume reaches a threshold; the volume beyond the
//! threshold is carried over to the next bar.
use vstd::prelude::*;
use crate::bar::base_bar::{BaseBar, DecimalNumFactory, begin_time_fits};
use crate::bar::base_bar_series::{BaseBarSeries, SeriesView};
use crate::bar::builder::types::{
    add_to_option, now_unix_nanos, spec_add_to_option, track_high, track_low, update_high,
    update_low,
};
use crate::num::{DecimalNum, finite_view, spec_ge, spec_gt, spec_minus, spec_plus, spec_times};

verus! {

/// Accumulates ticks into a bar until the volume threshold is reached.
#[derive(Clone, Copy, Debug)]
pub struct VolumeBarBuilder {
    pub num_factory: DecimalNumFactory,
    pub volume_threshold: DecimalNum,
    pub time_period: Option<i128>,
    pub end_time: Option<i128>,
    pub open_price: Option<DecimalNum>,
    pub high_price: Option<DecimalNum>,
    pub low_price: Option<DecimalNum>,
    pub close_price: Option<DecimalNum>,
    pub volume: DecimalNum,
    pub amount: Option<DecimalNum>,
    pub trades: u64,
}

/// A fresh builder's high price (zero) and low price (`i64::MAX`) are set.
pub open spec fn fresh_high_low(high: Option<DecimalNum>, low: Option<DecimalNum>) -> bool {
    &&& high matches Some(h) && h@ == finite_view(0, 0)
    &&& low matches Some(l) && l@ == finite_view(i64::MAX as i128, 0)
}

/// `b` is a fresh volume bar builder with the given threshold.
pub open spec fn is_new_volume_builder(b: VolumeBarBuilder, num_factory: DecimalNumFactory, volume_threshold: i64) -> bool {
    &&& b.num_factory == num_factory
    &&& b.volume_threshold@ == finite_view(volume_threshold as i128, 0)
    &&& b.time_period is None
    &&& b.end_time is None
    &&& b.open_price is None
    &&& fresh_high_low(b.high_price, b.low_price)
    &&& b.close_price is None
    &&& b.volume@ == finite_view(0, 0)
    &&& b.amount is None
    &&& b.trades == 0
}

/// The builder after a tick at `price`: it becomes the close price, the open
/// price if there is none yet, and updates the high and low prices.
pub open spec fn volume_closed(b: VolumeBarBuilder, price: DecimalNum) -> VolumeBarBuilder {
    VolumeBarBuilder {
        close_price: Some(price),
        open_price: if b.open_price is None { Some(price) } else { b.open_price },
        high_price: track_high(b.high_price, price),
        low_price: track_low(b.low_price, price),
        ..b
    }
}

/// A bar emitted by `add` leaves the builder with no amount and no trades, and
/// with the volume over the threshold carried over (zero when there is none):
/// the next bar's amount defaults to its own close price times its own volume,
/// and its trades are those added after the emission.
pub proof fn law_volume_bar_starts_afresh(
    b: VolumeBarBuilder,
    s: SeriesView,
    post: VolumeBarBuilder,
    s2: SeriesView,
    r: Result<(), String>,
)
    requires
        b.add_result(s, post, s2, r),
        spec_ge(b.volume@, b.volume_threshold@),
        r is Ok,
    ensures
        post.amount is None,
        post.trades == 0,
        post.open_price is None,
        post.close_price is None,
        post.end_time == b.end_time,
        spec_gt(b.volume@, b.volume_threshold@) ==> post.volume@ == spec_minus(b.volume@, b.volume_threshold@),
        !spec_gt(b.volume@, b.volume_threshold@) ==> post.volume@ == finite_view(0, 0),
{
}

impl VolumeBarBuilder {
    /// `post` is `self` after a reset: period, open and close cleared, amount
    /// unset, trades zero, high and low set as in a fresh builder; only the
    /// volume and the end time (and the threshold) stay.
    pub open spec fn is_reset_of(self, post: VolumeBarBuilder) -> bool {
        &&& post == VolumeBarBuilder {
            time_period: None,
            open_price: None,
            close_price: None,
            high_price: post.high_price,
            low_price: post.low_price,
            amount: None,
            trades: 0,
            ..self
        }
        &&& fresh_high_low(post.high_price, post.low_price)
    }

    /// `bar` is the bar built from the ticks so far.
    pub open spec fn built(self, bar: BaseBar) -> bool {
        &&& bar.time_period == self.time_period.unwrap_or(0)
        &&& self.end_time matches Some(t) ==> bar.end_time == t
        &&& bar.begin_time == bar.end_time - bar.time_period
        &&& bar.open_price == self.open_price
        &&& bar.high_price == self.high_price
        &&& bar.low_price == self.low_price
        &&& bar.close_price == self.close_price
        &&& bar.volume == self.volume
        &&& bar.amount == self.amount
        &&& bar.trades == self.trades
    }

    pub fn new_with_factory(num_factory: DecimalNumFactory, volume_threshold: i64) -> (r: VolumeBarBuilder)
        ensures
            is_new_volume_builder(r, num_factory, volume_threshold),
    {
        let volume_threshold = num_factory.num_of_i64(volume_threshold);
        VolumeBarBuilder {
            num_factory,
            volume_threshold,
            time_period: None,
            end_time: None,
            open_price: None,
            high_price: Some(DecimalNum::zero()),
            low_price: Some(DecimalNum::from_i64(i64::MAX)),
            close_price: None,
            volume: DecimalNum::zero(),
            amount: None,
            trades: 0,
        }
    }

    pub fn new(volume_threshold: i64) -> (r: VolumeBarBuilder)
        ensures
            is_new_volume_builder(r, DecimalNumFactory, volume_threshold),
    {
        Self::new_with_factory(DecimalNumFactory::instance(), volume_threshold)
    }

    pub fn new_with_default_factory(volume_threshold: i64) -> (r: VolumeBarBuilder)
        ensures
            is_new_volume_builder(r, DecimalNumFactory, volume_threshold),
    {
        Self::new_with_factory(DecimalNumFactory::instance(), volume_threshold)
    }

    /// Clears the period, the prices, the amount and the trades; high and low
    /// start over. The volume and the end time stay.
    fn reset(&mut self)
        ensures
            old(self).is_reset_of(*final(self)),
    {
        self.time_period = None;
        self.open_price = None;
        self.high_price = Some(DecimalNum::zero());
        self.low_price = Some(DecimalNum::from_i64(i64::MAX));
        self.close_price = None;
        self.amount = None;
        self.trades = 0;
    }

    /// Adds `time_period` to the period of the bar.
    pub fn time_period(&mut self, time_period: i128) -> (r: &mut Self)
        requires
            i128::MIN <= old(self).time_period.unwrap_or(0) + time_period <= i128::MAX,
        ensures
            *r == (VolumeBarBuilder {
                time_period: Some((old(self).time_period.unwrap_or(0) + time_period) as i128),
                ..*old(self)
            }),
            *final(self) == *final(r),
    {
        let base = match self.time_period {
            Some(p) => p,
            None => 0,
        };
        self.time_period = Some(base + time_period);
        self
    }

    /// Ignored: a volume bar takes its prices from the close prices.
    pub fn begin_time(&mut self, begin_time: i128) -> (r: &mut Self)
        ensures
            *r == *old(self),
            *final(self) == *final(r),
    {
        self
    }

    pub fn end_time(&mut self, end_time: i128) -> (r: &mut Self)
        ensures
            *r == (VolumeBarBuilder { end_time: Some(end_time), ..*old(self) }),
            *final(self) == *final(r),
    {
        self.end_time = Some(end_time);
        self
    }

    /// Ignored: a volume bar takes its prices from the close prices.
    pub fn open_price(&mut self, open_price: DecimalNum) -> (r: &mut Self)
        ensures
            *r == *old(self),
            *final(self) == *final(r),
    {
        self
    }

    /// Ignored: a volume bar takes its prices from the close prices.
    pub fn high_price(&mut self, high_price: DecimalNum) -> (r: &mut Self)
        ensures
            *r == *old(self),
            *final(self) == *final(r),
    {
        self
    }

    /// Ignored: a volume bar takes its prices from the close prices.
    pub fn low_price(&mut self, low_price: DecimalNum) -> (r: &mut Self)
        ensures
            *r == *old(self),
            *final(self) == *final(r),
    {
        self
    }

    /// A tick at `price`: it becomes the close price, the open price if there
    /// is none yet, and updates the high and low prices.
    pub fn close_price(&mut self, price: DecimalNum) -> (r: &mut Self)
        ensures
            *r == volume_closed(*old(self), price),
            *final(self) == *final(r),
    {
        self.close_price = Some(price);
        if self.open_price.is_none() {
            self.open_price = Some(price);
        }
        self.high_price = update_high(self.high_price, price);
        self.low_price = update_low(self.low_price, price);
        self
    }

    /// Adds to the volume.
    pub fn volume(&mut self, vol: DecimalNum) -> (r: &mut Self)
        ensures
            r.volume@ == spec_plus(old(self).volume@, vol@),
            *r == (VolumeBarBuilder { volume: r.volume, ..*old(self) }),
            *final(self) == *final(r),
    {
        self.volume = self.volume.plus(&vol);
        self
    }

    /// Adds to the amount.
    pub fn amount(&mut self, amt: DecimalNum) -> (r: &mut Self)
        ensures
            r.amount matches Some(a) && a@ == spec_add_to_option(old(self).amount, amt@),
            *r == (VolumeBarBuilder { amount: r.amount, ..*old(self) }),
            *final(self) == *final(r),
    {
        self.amount = add_to_option(&self.amount, amt);
        self
    }

    /// Adds to the number of trades.
    pub fn trades(&mut self, trades: u64) -> (r: &mut Self)
        requires
            old(self).trades + trades <= u64::MAX,
        ensures
            *r == (VolumeBarBuilder { trades: (old(self).trades + trades) as u64, ..*old(self) }),
            *final(self) == *final(r),
    {
        self.trades = self.trades + trades;
        self
    }

    /// The bar of the ticks so far; the end time defaults to the current time.
    /// An error if its begin time is out of range.
    pub fn build(&self) -> (r: Result<BaseBar, String>)
        ensures
            r matches Ok(bar) ==> self.built(bar),
            (self.end_time matches Some(t) && begin_time_fits(self.time_period.unwrap_or(0), t)) ==> r is Ok,
            (self.end_time matches Some(t) && !begin_time_fits(self.time_period.unwrap_or(0), t)) ==> r is Err,
    {
        let time_period = match self.time_period {
            Some(p) => p,
            None => 0,
        };
        let end_time = match self.end_time {
            Some(t) => t,
            None => now_unix_nanos(),
        };
        BaseBar::new(
            time_period,
            end_time,
            self.open_price,
            self.high_price,
            self.low_price,
            self.close_price,
            self.volume,
            self.amount,
            self.trades,
        )
    }

    /// What `add` does: `post` and `s2` are the builder and the series after
    /// adding to `s`, and `r` the result.
    pub open spec fn add_result(self, s: SeriesView, post: Self, s2: SeriesView, r: Result<(), String>) -> bool {
        &&& (!spec_ge(self.volume@, self.volume_threshold@) ==> {
            &&& r is Ok
            &&& post == self
            &&& s2 == s
        })
        &&& (spec_ge(self.volume@, self.volume_threshold@) ==> {
            let over = spec_gt(self.volume@, self.volume_threshold@);
            let bar_volume = if over { self.volume_threshold } else { self.volume };
            &&& r is Ok ==> exists|bar: BaseBar| {
                &&& bar.volume == bar_volume
                &&& (self.amount is Some ==> bar.amount == self.amount)
                &&& (self.amount is None ==> match self.close_price {
                    Some(c) => bar.amount matches Some(a) && a@ == spec_times(c@, bar_volume@),
                    None => bar.amount is None,
                })
                &&& (VolumeBarBuilder { volume: bar_volume, amount: bar.amount, ..self }).built(bar)
                &&& s.appended(bar, s2)
                &&& (VolumeBarBuilder { amount: bar.amount, ..self }).is_reset_of(
                    VolumeBarBuilder { volume: self.volume, ..post },
                )
                &&& if over {
                    post.volume@ == spec_minus(self.volume@, self.volume_threshold@)
                } else {
                    post.volume@ == finite_view(0, 0)
                }
            }
            &&& r is Err ==> s2 == s
            &&& (self.end_time matches Some(t) ==> (r is Ok <==> {
                &&& begin_time_fits(self.time_period.unwrap_or(0), t)
                &&& (s.bars.len() == 0 || t > s.bars.last().end_time)
            }))
        })
    }

    /// Once the volume reaches the threshold: the bar gets the threshold as its
    /// volume (the rest is carried over), the amount defaults to close price
    /// times volume, the bar is appended to `series` and the builder is reset.
    pub fn add(&mut self, series: &mut BaseBarSeries) -> (r: Result<(), String>)
        requires
            old(series)@.wf(),
            old(series)@.end_index matches Some(e) ==> e < usize::MAX,
        ensures
            final(series)@.wf(),
            old(self).add_result(old(series)@, *final(self), final(series)@, r),
    {
        if self.volume.is_greater_than_or_equal(&self.volume_threshold) {
            let mut volume_remainder = DecimalNum::zero();
            if self.volume.is_greater_than(&self.volume_threshold) {
                volume_remainder = self.volume.minus(&self.volume_threshold);
                self.volume = self.volume_threshold;
            }
            if self.amount.is_none() {
                match self.close_price {
                    Some(price) => {
                        self.amount = Some(price.multiplied_by(&self.volume));
                    },
                    None => {},
                }
            }
            let bar = self.build()?;
            series.add_bar(bar)?;
            self.volume = volume_remainder;
            self.reset();
        }
        Ok(())
    }
}

} // verus!

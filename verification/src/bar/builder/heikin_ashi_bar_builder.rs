//! A builder of Heikin-Ashi bars from ordinary bar fields and the previous
//! Heikin-Ashi open and close prices.
use vstd::prelude::*;
use crate::bar::base_bar::{BaseBar, DecimalNumFactory, begin_time_fits, is_bar_of};
use crate::bar::base_bar_series::BaseBarSeries;
use crate::bar::builder::time_bar_builder::{TimeBarBuilder, empty_time_builder};
use crate::num::{DecView, DecimalNum, NumError, U64_BOUND, finite_view, spec_divided_by, spec_max, spec_min, spec_plus};

verus! {

/// Heikin-Ashi close: the mean of open, high, low and close.
pub open spec fn ha_close(open: DecView, high: DecView, low: DecView, close: DecView) -> Result<DecView, NumError> {
    spec_divided_by(spec_plus(spec_plus(spec_plus(open, high), low), close), finite_view(4, 0))
}

/// Heikin-Ashi open: the mean of the previous Heikin-Ashi open and close.
pub open spec fn ha_open(prev_open: DecView, prev_close: DecView) -> Result<DecView, NumError> {
    spec_divided_by(spec_plus(prev_open, prev_close), finite_view(2, 0))
}

/// The Heikin-Ashi close is the mean of the four prices and the open the mean
/// of the previous open and close: stated for prices at one scale (mantissas
/// below `2^61`) whose sums four, respectively two, divide, where the means are
/// exact (at that scale; zero has scale 0).
pub proof fn law_heikin_ashi_means(o: DecView, h: DecView, l: DecView, c: DecView)
    requires
        !o.nan && !h.nan && !l.nan && !c.nan,
        o.scale == h.scale && h.scale == l.scale && l.scale == c.scale,
        -U64_BOUND / 8 < o.mantissa < U64_BOUND / 8,
        -U64_BOUND / 8 < h.mantissa < U64_BOUND / 8,
        -U64_BOUND / 8 < l.mantissa < U64_BOUND / 8,
        -U64_BOUND / 8 < c.mantissa < U64_BOUND / 8,
    ensures
        ({
            let sum = o.mantissa + h.mantissa + l.mantissa + c.mantissa;
            sum % 4 == 0 ==> ha_close(o, h, l, c) == Ok::<DecView, NumError>(
                finite_view((sum / 4) as i128, if sum == 0 { 0 } else { o.scale }),
            )
        }),
        ({
            let sum = o.mantissa + c.mantissa;
            sum % 2 == 0 ==> ha_open(o, c) == Ok::<DecView, NumError>(
                finite_view((sum / 2) as i128, if sum == 0 { 0 } else { o.scale }),
            )
        }),
{
    let s2 = o.mantissa + h.mantissa;
    let s3 = s2 + l.mantissa;
    let s4 = s3 + c.mantissa;
    assert(spec_plus(o, h) == finite_view(s2 as i128, o.scale));
    assert(spec_plus(spec_plus(o, h), l) == finite_view(s3 as i128, o.scale));
    assert(spec_plus(spec_plus(spec_plus(o, h), l), c) == finite_view(s4 as i128, o.scale));
    assert(spec_plus(o, c) == finite_view((o.mantissa + c.mantissa) as i128, o.scale));
}

/// A Heikin-Ashi bar builder: a time bar builder and the previous Heikin-Ashi
/// open and close prices.
#[derive(Clone, Copy, Debug)]
pub struct HeikinAshiBarBuilder {
    pub time_bar_builder: TimeBarBuilder,
    pub previous_heikin_ashi_open_price: Option<DecimalNum>,
    pub previous_heikin_ashi_close_price: Option<DecimalNum>,
}

impl HeikinAshiBarBuilder {
    /// The four prices and both previous Heikin-Ashi prices are set.
    pub open spec fn computes_heikin_ashi(self) -> bool {
        let t = self.time_bar_builder;
        &&& t.open_price is Some && t.high_price is Some && t.low_price is Some && t.close_price is Some
        &&& self.previous_heikin_ashi_open_price is Some && self.previous_heikin_ashi_close_price is Some
    }

    /// What `build` gives when it computes a Heikin-Ashi bar: the close is the
    /// mean of the four prices, the open the mean of the previous open and close,
    /// the high the largest of high, open and close, the low the smallest of low,
    /// open and close. Period, end time and volume must be set.
    pub open spec fn heikin_ashi_result(self, r: Result<BaseBar, String>) -> bool {
        let t = self.time_bar_builder;
        let o = t.open_price.unwrap()@;
        let h = t.high_price.unwrap()@;
        let l = t.low_price.unwrap()@;
        let c = t.close_price.unwrap()@;
        match (ha_close(o, h, l, c), ha_open(self.previous_heikin_ashi_open_price.unwrap()@, self.previous_heikin_ashi_close_price.unwrap()@)) {
            (Ok(hc), Ok(ho)) => {
                &&& (t.time_period is None || t.end_time is None || t.volume is None) ==> r is Err
                &&& r matches Ok(bar) ==> {
                    &&& bar.time_period == t.time_period.unwrap()
                    &&& bar.end_time == t.end_time.unwrap()
                    &&& bar.begin_time == bar.end_time - bar.time_period
                    &&& bar.open_price matches Some(x) && x@ == ho
                    &&& bar.close_price matches Some(x) && x@ == hc
                    &&& bar.high_price matches Some(x) && x@ == spec_max(spec_max(h, ho), hc)
                    &&& bar.low_price matches Some(x) && x@ == spec_min(spec_min(l, ho), hc)
                    &&& bar.volume == t.volume.unwrap()
                    &&& bar.amount == t.amount
                    &&& bar.trades == t.trades.unwrap_or(0)
                }
                &&& (t.time_period matches Some(p) && t.end_time matches Some(e) && t.volume is Some && begin_time_fits(p, e)) ==> r is Ok
                &&& (t.time_period matches Some(p) && t.end_time matches Some(e) && !begin_time_fits(p, e)) ==> r is Err
            },
            _ => r is Err,
        }
    }

    pub fn new_with_factory(num_factory: DecimalNumFactory) -> (r: HeikinAshiBarBuilder)
        ensures
            r == (HeikinAshiBarBuilder {
                time_bar_builder: empty_time_builder(num_factory),
                previous_heikin_ashi_open_price: None,
                previous_heikin_ashi_close_price: None,
            }),
    {
        HeikinAshiBarBuilder {
            time_bar_builder: TimeBarBuilder::new_with_factory(num_factory),
            previous_heikin_ashi_open_price: None,
            previous_heikin_ashi_close_price: None,
        }
    }

    pub fn previous_heikin_ashi_open_price(&mut self, previous_open_price: Option<DecimalNum>) -> (r: &mut Self)
        ensures
            *r == (HeikinAshiBarBuilder { previous_heikin_ashi_open_price: previous_open_price, ..*old(self) }),
            *final(self) == *final(r),
    {
        self.previous_heikin_ashi_open_price = previous_open_price;
        self
    }

    pub fn previous_heikin_ashi_close_price(&mut self, previous_close_price: Option<DecimalNum>) -> (r: &mut Self)
        ensures
            *r == (HeikinAshiBarBuilder { previous_heikin_ashi_close_price: previous_close_price, ..*old(self) }),
            *final(self) == *final(r),
    {
        self.previous_heikin_ashi_close_price = previous_close_price;
        self
    }

    pub fn time_period(&mut self, time_period: i128) -> (r: &mut Self)
        ensures
            *r == (HeikinAshiBarBuilder {
                time_bar_builder: TimeBarBuilder { time_period: Some(time_period), ..old(self).time_bar_builder },
                ..*old(self)
            }),
            *final(self) == *final(r),
    {
        self.time_bar_builder.time_period = Some(time_period);
        self
    }

    pub fn begin_time(&mut self, begin_time: i128) -> (r: &mut Self)
        ensures
            *r == (HeikinAshiBarBuilder {
                time_bar_builder: TimeBarBuilder { begin_time: Some(begin_time), ..old(self).time_bar_builder },
                ..*old(self)
            }),
            *final(self) == *final(r),
    {
        self.time_bar_builder.begin_time = Some(begin_time);
        self
    }

    pub fn end_time(&mut self, end_time: i128) -> (r: &mut Self)
        ensures
            *r == (HeikinAshiBarBuilder {
                time_bar_builder: TimeBarBuilder { end_time: Some(end_time), ..old(self).time_bar_builder },
                ..*old(self)
            }),
            *final(self) == *final(r),
    {
        self.time_bar_builder.end_time = Some(end_time);
        self
    }

    pub fn open_price(&mut self, open_price: DecimalNum) -> (r: &mut Self)
        ensures
            *r == (HeikinAshiBarBuilder {
                time_bar_builder: TimeBarBuilder { open_price: Some(open_price), ..old(self).time_bar_builder },
                ..*old(self)
            }),
            *final(self) == *final(r),
    {
        self.time_bar_builder.open_price = Some(open_price);
        self
    }

    pub fn high_price(&mut self, high_price: DecimalNum) -> (r: &mut Self)
        ensures
            *r == (HeikinAshiBarBuilder {
                time_bar_builder: TimeBarBuilder { high_price: Some(high_price), ..old(self).time_bar_builder },
                ..*old(self)
            }),
            *final(self) == *final(r),
    {
        self.time_bar_builder.high_price = Some(high_price);
        self
    }

    pub fn low_price(&mut self, low_price: DecimalNum) -> (r: &mut Self)
        ensures
            *r == (HeikinAshiBarBuilder {
                time_bar_builder: TimeBarBuilder { low_price: Some(low_price), ..old(self).time_bar_builder },
                ..*old(self)
            }),
            *final(self) == *final(r),
    {
        self.time_bar_builder.low_price = Some(low_price);
        self
    }

    pub fn close_price(&mut self, close_price: DecimalNum) -> (r: &mut Self)
        ensures
            *r == (HeikinAshiBarBuilder {
                time_bar_builder: TimeBarBuilder { close_price: Some(close_price), ..old(self).time_bar_builder },
                ..*old(self)
            }),
            *final(self) == *final(r),
    {
        self.time_bar_builder.close_price = Some(close_price);
        self
    }

    pub fn volume(&mut self, volume: DecimalNum) -> (r: &mut Self)
        ensures
            *r == (HeikinAshiBarBuilder {
                time_bar_builder: TimeBarBuilder { volume: Some(volume), ..old(self).time_bar_builder },
                ..*old(self)
            }),
            *final(self) == *final(r),
    {
        self.time_bar_builder.volume = Some(volume);
        self
    }

    pub fn amount(&mut self, amount: DecimalNum) -> (r: &mut Self)
        ensures
            *r == (HeikinAshiBarBuilder {
                time_bar_builder: TimeBarBuilder { amount: Some(amount), ..old(self).time_bar_builder },
                ..*old(self)
            }),
            *final(self) == *final(r),
    {
        self.time_bar_builder.amount = Some(amount);
        self
    }

    pub fn trades(&mut self, trades: u64) -> (r: &mut Self)
        ensures
            *r == (HeikinAshiBarBuilder {
                time_bar_builder: TimeBarBuilder { trades: Some(trades), ..old(self).time_bar_builder },
                ..*old(self)
            }),
            *final(self) == *final(r),
    {
        self.time_bar_builder.trades = Some(trades);
        self
    }

    /// With the four prices and both previous Heikin-Ashi prices set, the
    /// Heikin-Ashi bar; otherwise the bar that the time bar builder builds.
    pub fn build(&self) -> (r: Result<BaseBar, String>)
        ensures
            self.computes_heikin_ashi() ==> self.heikin_ashi_result(r),
            !self.computes_heikin_ashi() ==> {
                &&& self.time_bar_builder.build_fails() ==> r is Err
                &&& r matches Ok(bar) ==> self.time_bar_builder.built(bar)
                &&& (!self.time_bar_builder.build_fails() && (self.time_bar_builder.end_time matches Some(t)
                    && begin_time_fits(self.time_bar_builder.time_period.unwrap_or(0), t))) ==> r is Ok
                &&& (self.time_bar_builder.end_time matches Some(t)
                    && !begin_time_fits(self.time_bar_builder.time_period.unwrap_or(0), t)) ==> r is Err
            },
    {
        let factory = self.time_bar_builder.num_factory;
        match (
            self.time_bar_builder.open_price,
            self.time_bar_builder.high_price,
            self.time_bar_builder.low_price,
            self.time_bar_builder.close_price,
        ) {
            (Some(open), Some(high), Some(low), Some(close)) => {
                match (self.previous_heikin_ashi_open_price, self.previous_heikin_ashi_close_price) {
                    (Some(prev_open), Some(prev_close)) => {
                        let four = factory.num_of_i64(4);
                        let two = factory.num_of_i64(2);
                        let ha_close = match open.plus(&high).plus(&low).plus(&close).divided_by(&four) {
                            Ok(x) => x,
                            Err(e) => {
                                return Err(e.describe());
                            },
                        };
                        let ha_open = match prev_open.plus(&prev_close).divided_by(&two) {
                            Ok(x) => x,
                            Err(e) => {
                                return Err(e.describe());
                            },
                        };
                        let ha_high = high.max(&ha_open).max(&ha_close);
                        let ha_low = low.min(&ha_open).min(&ha_close);
                        let time_period = match self.time_bar_builder.time_period {
                            Some(p) => p,
                            None => {
                                return Err("Missing time_period".to_string());
                            },
                        };
                        let end_time = match self.time_bar_builder.end_time {
                            Some(t) => t,
                            None => {
                                return Err("Missing end_time".to_string());
                            },
                        };
                        let volume = match self.time_bar_builder.volume {
                            Some(v) => v,
                            None => {
                                return Err("Missing volume".to_string());
                            },
                        };
                        let trades = match self.time_bar_builder.trades {
                            Some(n) => n,
                            None => 0,
                        };
                        return BaseBar::new(
                            time_period,
                            end_time,
                            Some(ha_open),
                            Some(ha_high),
                            Some(ha_low),
                            Some(ha_close),
                            volume,
                            self.time_bar_builder.amount,
                            trades,
                        );
                    },
                    _ => {},
                }
            },
            _ => {},
        }
        self.time_bar_builder.build()
    }

    /// Adds the bar that the time bar builder makes (not a Heikin-Ashi bar).
    pub fn add(&mut self, series: &mut BaseBarSeries) -> (r: Result<(), String>)
        requires
            old(series)@.wf(),
            old(series)@.end_index matches Some(e) ==> e < usize::MAX,
        ensures
            final(series)@.wf(),
            final(self).previous_heikin_ashi_open_price == old(self).previous_heikin_ashi_open_price,
            final(self).previous_heikin_ashi_close_price == old(self).previous_heikin_ashi_close_price,
            old(self).time_bar_builder.add_result(old(series)@, final(self).time_bar_builder, final(series)@, r),
    {
        self.time_bar_builder.add(series)
    }
}

} // verus!

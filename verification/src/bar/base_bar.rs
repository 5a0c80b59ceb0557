//! A bar and the factory of the numbers that bars hold.
use vstd::prelude::*;
use crate::num::{DecView, DecimalNum, finite_view};

verus! {

/// Makes the numbers of a bar series.
#[derive(Clone, Copy, Debug, PartialEq, Eq, Structural)]
pub struct DecimalNumFactory;

impl DecimalNumFactory {
    pub fn instance() -> (r: DecimalNumFactory) {
        DecimalNumFactory
    }

    pub fn num_of_i64(&self, n: i64) -> (r: DecimalNum)
        ensures
            r@ == finite_view(n as i128, 0),
    {
        DecimalNum::from_i64(n)
    }

    pub fn num_of_usize(&self, n: usize) -> (r: DecimalNum)
        ensures
            r@ == finite_view(n as i128, 0),
    {
        DecimalNum::from_usize(n)
    }

    pub fn zero(&self) -> (r: DecimalNum)
        ensures
            r@ == finite_view(0, 0),
    {
        DecimalNum::zero()
    }

    pub fn one(&self) -> (r: DecimalNum)
        ensures
            r@ == finite_view(1, 0),
    {
        DecimalNum::one()
    }

    pub fn two(&self) -> (r: DecimalNum)
        ensures
            r@ == finite_view(2, 0),
    {
        DecimalNum::from_i64(2)
    }

    pub fn three(&self) -> (r: DecimalNum)
        ensures
            r@ == finite_view(3, 0),
    {
        DecimalNum::from_i64(3)
    }
}

/// One bar: the prices, volume, amount and number of trades of a time period
/// that ends at `end_time` and begins at `end_time - time_period`.
#[derive(Clone, Copy, Debug)]
pub struct BaseBar {
    pub time_period: i128,
    pub begin_time: i128,
    pub end_time: i128,
    pub open_price: Option<DecimalNum>,
    pub high_price: Option<DecimalNum>,
    pub low_price: Option<DecimalNum>,
    pub close_price: Option<DecimalNum>,
    pub volume: DecimalNum,
    pub amount: Option<DecimalNum>,
    pub trades: u64,
}

/// `bar` is the bar that `BaseBar::new` makes of these arguments.
pub open spec fn is_bar_of(
    bar: BaseBar,
    time_period: i128,
    end_time: i128,
    open_price: Option<DecimalNum>,
    high_price: Option<DecimalNum>,
    low_price: Option<DecimalNum>,
    close_price: Option<DecimalNum>,
    volume: DecimalNum,
    amount: Option<DecimalNum>,
    trades: u64,
) -> bool {
    bar == BaseBar {
        time_period,
        begin_time: (end_time - time_period) as i128,
        end_time,
        open_price,
        high_price,
        low_price,
        close_price,
        volume,
        amount,
        trades,
    }
}

/// The begin time `end_time - time_period` fits in an `i128`.
pub open spec fn begin_time_fits(time_period: i128, end_time: i128) -> bool {
    i128::MIN <= end_time - time_period <= i128::MAX
}

impl BaseBar {
    /// A bar that ends at `end_time` and lasts `time_period`; an error if its
    /// begin time is out of range.
    pub fn new(
        time_period: i128,
        end_time: i128,
        open_price: Option<DecimalNum>,
        high_price: Option<DecimalNum>,
        low_price: Option<DecimalNum>,
        close_price: Option<DecimalNum>,
        volume: DecimalNum,
        amount: Option<DecimalNum>,
        trades: u64,
    ) -> (r: Result<BaseBar, String>)
        ensures
            r is Ok <==> begin_time_fits(time_period, end_time),
            r matches Ok(bar) ==> is_bar_of(
                bar,
                time_period,
                end_time,
                open_price,
                high_price,
                low_price,
                close_price,
                volume,
                amount,
                trades,
            ),
    {
        match end_time.checked_sub(time_period) {
            Some(begin_time) => Ok(BaseBar {
                time_period,
                begin_time,
                end_time,
                open_price,
                high_price,
                low_price,
                close_price,
                volume,
                amount,
                trades,
            }),
            None => Err("The begin time of the bar is out of range".to_string()),
        }
    }

    pub fn get_time_period(&self) -> (r: i128)
        ensures
            r == self.time_period,
    {
        self.time_period
    }

    pub fn get_begin_time(&self) -> (r: i128)
        ensures
            r == self.begin_time,
    {
        self.begin_time
    }

    pub fn get_end_time(&self) -> (r: i128)
        ensures
            r == self.end_time,
    {
        self.end_time
    }

    pub fn get_open_price(&self) -> (r: Option<DecimalNum>)
        ensures
            r == self.open_price,
    {
        self.open_price
    }

    pub fn get_high_price(&self) -> (r: Option<DecimalNum>)
        ensures
            r == self.high_price,
    {
        self.high_price
    }

    pub fn get_low_price(&self) -> (r: Option<DecimalNum>)
        ensures
            r == self.low_price,
    {
        self.low_price
    }

    pub fn get_close_price(&self) -> (r: Option<DecimalNum>)
        ensures
            r == self.close_price,
    {
        self.close_price
    }

    pub fn get_volume(&self) -> (r: DecimalNum)
        ensures
            r == self.volume,
    {
        self.volume
    }

    pub fn get_amount(&self) -> (r: Option<DecimalNum>)
        ensures
            r == self.amount,
    {
        self.amount
    }

    pub fn get_trades(&self) -> (r: u64)
        ensures
            r == self.trades,
    {
        self.trades
    }
}

} // verus!

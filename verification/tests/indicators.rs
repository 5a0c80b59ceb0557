use ta4r::bar::base_bar::BaseBar;
use ta4r::bar::base_bar_series::BaseBarSeries;
use ta4r::bar::base_bar_series_builder::BaseBarSeriesBuilder;
use ta4r::indicators::averages::base_ema_indicator::BaseEmaIndicator;
use ta4r::indicators::averages::ema_indicator::EmaIndicator;
use ta4r::indicators::averages::mma_indicator::MMAIndicator;
use ta4r::indicators::averages::sma_indicator::SmaIndicator;
use ta4r::indicators::atr_indicator::ATRIndicator;
use ta4r::indicators::cached_aux_indicator::CachedAuxIndicator;
use ta4r::indicators::cached_indicator::{CachedIndicator, IndicatorCalculator};
use ta4r::indicators::helpers::close_price_indicator::ClosePriceIndicator;
use ta4r::indicators::helpers::constant_indicator::ConstantIndicator;
use ta4r::indicators::helpers::cross_indicator::CrossIndicator;
use ta4r::indicators::helpers::date_time_indicator::{default_get_begin_time, DateTimeIndicator};
use ta4r::indicators::helpers::fixed_indicator::FixedIndicator;
use ta4r::indicators::helpers::gain_indicator::GainIndicator;
use ta4r::indicators::helpers::highest_value_indicator::HighestValueIndicator;
use ta4r::indicators::helpers::lowest_value_indicator::LowestValueIndicator;
use ta4r::indicators::helpers::open_price_indicator::OpenPriceIndicator;
use ta4r::indicators::helpers::previous_value_indicator::PreviousValueIndicator;
use ta4r::indicators::helpers::running_total_indicator::RunningTotalIndicator;
use ta4r::indicators::helpers::tr_indicator::{TRCalculator, TRIndicator};
use ta4r::indicators::helpers::typical_price_indicator::TypicalPriceIndicator;
use ta4r::indicators::helpers::volume_indicator::VolumeIndicator;
use ta4r::indicators::numeric::binary_operation::BinaryOperation;
use ta4r::indicators::numeric::numeric_indicator::NumericIndicator;
use ta4r::indicators::recursive_cached_indicator::RecursiveCachedIndicator;
use ta4r::indicators::types::{index_text, message_at, IndicatorError, NumConst, OptionExt, ToNumber, UnaryOp};
use ta4r::indicators::Indicator;
use ta4r::bar::base_bar::DecimalNumFactory;
use ta4r::num::{DecimalNum, NumError};

const ONE_DAY: i128 = 86_400_000_000_000;
const START: i128 = 1_700_000_000_000_000_000;

fn num(n: i64) -> DecimalNum {
    DecimalNum::from_i64(n)
}

fn dec(mantissa: i128, scale: u32) -> DecimalNum {
    DecimalNum::from_parts(mantissa, scale).unwrap()
}

/// A daily bar with the given prices and volume, ending `i + 1` days after `START`.
fn bar(i: i64, open: i64, high: i64, low: i64, close: i64, volume: i64) -> BaseBar {
    BaseBar::new(
        ONE_DAY,
        START + ONE_DAY * (i as i128 + 1),
        Some(num(open)),
        Some(num(high)),
        Some(num(low)),
        Some(num(close)),
        num(volume),
        None,
        1,
    )
    .unwrap()
}

/// Bars whose prices are all `close`, with volume `close`.
fn series_of(closes: &[i64]) -> BaseBarSeries {
    let bars: Vec<BaseBar> = closes.iter().enumerate().map(|(i, c)| bar(i as i64, *c, *c, *c, *c, *c)).collect();
    BaseBarSeriesBuilder::new().with_bars(bars).build().unwrap()
}

#[test]
fn close_and_open_prices_and_invalid_index() {
    let series = BaseBarSeriesBuilder::new()
        .with_bars(vec![bar(0, 10, 12, 9, 11, 5), bar(1, 11, 13, 10, 12, 6)])
        .build()
        .unwrap();
    let mut close = ClosePriceIndicator::new();
    let mut open = OpenPriceIndicator::new();
    assert_eq!(close.get_value(&series, 1).unwrap(), num(12));
    assert_eq!(open.get_value(&series, 0).unwrap(), num(10));
    match close.get_value(&series, 2) {
        Err(IndicatorError::InvalidIndex { index, max }) => {
            assert_eq!(index, 2);
            assert_eq!(max, 1);
        },
        _ => panic!("expected an invalid index"),
    }
}

#[test]
fn missing_close_price_is_a_calculation_error() {
    let b = BaseBar::new(ONE_DAY, START + ONE_DAY, None, None, None, None, num(1), None, 0).unwrap();
    let series = BaseBarSeriesBuilder::new().with_bars(vec![b]).build().unwrap();
    let mut close = ClosePriceIndicator::new();
    let e = close.get_value(&series, 0).unwrap_err();
    assert_eq!(e.describe(), "Calculation error: Missing close price");
}

#[test]
fn constant_and_fixed_indicators() {
    let series = series_of(&[1, 2]);
    let mut constant = ConstantIndicator::new(num(7));
    assert_eq!(constant.get_value(&series, 100).unwrap(), num(7));
    let mut fixed = FixedIndicator::new(vec![num(3), num(4)]);
    fixed.add_value(num(5));
    assert_eq!(fixed.get_value(&series, 2).unwrap(), num(5));
    match fixed.get_value(&series, 3) {
        Err(IndicatorError::OutOfBounds { index }) => assert_eq!(index, 3),
        _ => panic!("expected out of bounds"),
    }
}

#[test]
fn sma_of_closes() {
    let series = series_of(&[1, 2, 3, 4, 5]);
    let mut sma = SmaIndicator::new(ClosePriceIndicator::new(), &series, 3);
    assert_eq!(sma.get_value(&series, 0).unwrap(), num(1));
    assert_eq!(sma.get_value(&series, 1).unwrap(), dec(15, 1));
    assert_eq!(sma.get_value(&series, 2).unwrap(), num(2));
    assert_eq!(sma.get_value(&series, 3).unwrap(), num(3));
    assert_eq!(sma.get_value(&series, 4).unwrap(), num(4));
    // A second read gives the same value.
    assert_eq!(sma.get_value(&series, 3).unwrap(), num(3));
    assert_eq!(sma.count_of_unstable_bars(), 3);
}

#[test]
fn running_total_of_closes_read_out_of_order() {
    let series = series_of(&[1, 2, 3, 4, 5]);
    let mut total = RunningTotalIndicator::new(ClosePriceIndicator::new(), &series, 2);
    assert_eq!(total.get_value(&series, 3).unwrap(), num(7));
    assert_eq!(total.get_value(&series, 0).unwrap(), num(1));
    assert_eq!(total.get_value(&series, 1).unwrap(), num(3));
    assert_eq!(total.get_value(&series, 2).unwrap(), num(5));
    assert_eq!(total.get_value(&series, 4).unwrap(), num(9));
}

#[test]
fn ema_with_half_multiplier() {
    let series = series_of(&[1, 2, 3]);
    let mut ema = EmaIndicator::new(ClosePriceIndicator::new(), 3, dec(5, 1));
    assert_eq!(ema.get_value(&series, 2).unwrap(), dec(225, 2));
    assert_eq!(ema.get_value(&series, 0).unwrap(), num(1));
    assert_eq!(ema.get_value(&series, 1).unwrap(), dec(15, 1));
    assert_eq!(ema.bar_count(), 3);
    let mut base = BaseEmaIndicator::new(ClosePriceIndicator::new(), 2, dec(5, 1));
    assert_eq!(base.get_value(&series, 1).unwrap(), dec(15, 1));
}

#[test]
fn mma_uses_one_over_bar_count() {
    let series = series_of(&[1, 2, 3]);
    let mut mma = MMAIndicator::new(ClosePriceIndicator::new(), 2).unwrap();
    assert_eq!(mma.get_value(&series, 2).unwrap(), dec(225, 2));
    assert_eq!(mma.get_count_of_unstable_bars(), 2);
    match MMAIndicator::new(ClosePriceIndicator::new(), 0) {
        Err(IndicatorError::NumError(NumError::DivisionByZero)) => {},
        _ => panic!("expected a division by zero"),
    }
}

#[test]
fn ema_error_propagates_to_later_indices() {
    let series = series_of(&[1, 2]);
    let mut ema = EmaIndicator::new(FixedIndicator::new(vec![num(1)]), 2, dec(5, 1));
    match ema.get_value(&series, 3) {
        Err(IndicatorError::OutOfBounds { index }) => assert_eq!(index, 1),
        _ => panic!("expected the error of index 1"),
    }
}

#[test]
fn highest_and_lowest_over_window() {
    let series = series_of(&[3, 1, 4, 1, 5, 9, 2]);
    let mut highest = HighestValueIndicator::new(ClosePriceIndicator::new(), &series, 3);
    let mut lowest = LowestValueIndicator::new(ClosePriceIndicator::new(), &series, 3);
    assert_eq!(highest.get_value(&series, 2).unwrap(), num(4));
    assert_eq!(highest.get_value(&series, 6).unwrap(), num(9));
    assert_eq!(lowest.get_value(&series, 4).unwrap(), num(1));
    assert_eq!(lowest.get_value(&series, 6).unwrap(), num(2));
    assert_eq!(highest.get_value(&series, 0).unwrap(), num(3));
}

#[test]
fn highest_skips_a_nan_value() {
    let series = series_of(&[3, 8, 4]);
    let values = FixedIndicator::new(vec![num(3), num(8), DecimalNum::nan()]);
    let mut highest = HighestValueIndicator::new(values, &series, 3);
    // NaN at index 2: the highest of the window of 2 ending at index 1.
    assert_eq!(highest.get_value(&series, 2).unwrap(), num(8));
}

#[test]
fn gain_and_previous_value() {
    let series = series_of(&[5, 7, 6]);
    let mut gain = GainIndicator::new(ClosePriceIndicator::new(), &series);
    assert_eq!(gain.get_value(&series, 0).unwrap(), num(0));
    assert_eq!(gain.get_value(&series, 1).unwrap(), num(2));
    assert_eq!(gain.get_value(&series, 2).unwrap(), num(0));
    let mut previous = PreviousValueIndicator::new(ClosePriceIndicator::new(), &series);
    assert!(previous.get_value(&series, 0).unwrap().is_nan());
    assert_eq!(previous.get_value(&series, 2).unwrap(), num(7));
    assert_eq!(previous.get_n(), 1);
    let mut two_back = PreviousValueIndicator::with_n(ClosePriceIndicator::new(), &series, 2);
    assert_eq!(two_back.get_value(&series, 2).unwrap(), num(5));
    assert_eq!(two_back.count_of_unstable_bars(), 2);
}

#[test]
fn true_range_and_average_true_range() {
    let series = BaseBarSeriesBuilder::new()
        .with_bars(vec![bar(0, 10, 12, 8, 11, 1), bar(1, 11, 15, 13, 14, 1), bar(2, 14, 14, 9, 10, 1)])
        .build()
        .unwrap();
    let mut tr = TRIndicator::new(&series);
    assert_eq!(tr.get_value(&series, 0).unwrap(), num(4));
    // max(|15 - 13|, |15 - 11|, |11 - 13|) = 4
    assert_eq!(tr.get_value(&series, 1).unwrap(), num(4));
    // max(|14 - 9|, |14 - 14|, |14 - 9|) = 5
    assert_eq!(tr.get_value(&series, 2).unwrap(), num(5));
    assert_eq!(tr.get_count_of_unstable_bars(), 1);
    assert_eq!(tr.count_of_unstable_bars(), 0);
    let mut atr = ATRIndicator::from_tr(TRIndicator::new(&series), 2).unwrap();
    // 4, then (4 - 4) / 2 + 4 = 4, then (5 - 4) / 2 + 4 = 4.5
    assert_eq!(atr.get_value(&series, 2).unwrap(), dec(45, 1));
    assert!(ATRIndicator::from_tr(TRIndicator::new(&series), 0).is_err());
    let mut calc = TRCalculator::new();
    let _ = &mut calc;
}

#[test]
fn true_range_with_missing_high_price() {
    let b = BaseBar::new(ONE_DAY, START + ONE_DAY, None, None, Some(num(1)), Some(num(1)), num(1), None, 0).unwrap();
    let series = BaseBarSeriesBuilder::new().with_bars(vec![b]).build().unwrap();
    let mut tr = TRIndicator::new(&series);
    match tr.get_value(&series, 0) {
        Err(IndicatorError::CalculationError { message }) => assert_eq!(message, "High price missing at index 0"),
        _ => panic!("expected a calculation error"),
    }
}

#[test]
fn typical_price_and_volume() {
    let series = BaseBarSeriesBuilder::new()
        .with_bars(vec![bar(0, 10, 12, 8, 10, 3), bar(1, 10, 16, 10, 13, 4)])
        .build()
        .unwrap();
    let mut typical = TypicalPriceIndicator::new(&series);
    assert_eq!(typical.get_value(&series, 0).unwrap(), num(10));
    assert_eq!(typical.get_value(&series, 1).unwrap(), num(13));
    let mut volume = VolumeIndicator::new(&series);
    assert_eq!(volume.get_value(&series, 1).unwrap(), num(4));
    let mut volume2 = VolumeIndicator::from_shared_with_bar_count(&series, 2);
    assert_eq!(volume2.get_value(&series, 1).unwrap(), num(7));
    assert_eq!(volume2.get_value(&series, 0).unwrap(), num(3));
    // A window of zero bars is a window of one.
    let mut volume0 = VolumeIndicator::from_shared_with_bar_count(&series, 0);
    assert_eq!(volume0.get_value(&series, 1).unwrap(), num(4));
    match typical.get_value(&series, 5) {
        Err(IndicatorError::OutOfBounds { index }) => assert_eq!(index, 5),
        _ => panic!("expected out of bounds"),
    }
}

#[test]
fn cross_down() {
    let series = series_of(&[1, 2, 3, 4]);
    let up = FixedIndicator::new(vec![num(5), num(3), num(3), num(1)]);
    let low = FixedIndicator::new(vec![num(2), num(3), num(3), num(2)]);
    let mut cross = CrossIndicator::new(up, low, &series);
    assert_eq!(cross.get_value(&series, 0).unwrap(), num(0));
    assert_eq!(cross.get_value(&series, 1).unwrap(), num(0));
    // Below at 3; equal at 2 and 1; above at 0: a cross.
    assert_eq!(cross.get_value(&series, 3).unwrap(), num(1));
    assert_eq!(cross.get_up().clone().get_value(&series, 0).unwrap(), num(5));
}

#[test]
fn cross_without_earlier_difference_is_no_cross() {
    let series = series_of(&[1, 2]);
    let up = FixedIndicator::new(vec![num(3), num(1)]);
    let low = FixedIndicator::new(vec![num(3), num(2)]);
    let mut cross = CrossIndicator::new(up, low, &series);
    assert_eq!(cross.get_value(&series, 1).unwrap(), num(0));
}

#[test]
fn binary_operations() {
    let series = series_of(&[1]);
    let mut sum = BinaryOperation::sum(ConstantIndicator::new(num(6)), ConstantIndicator::new(num(3)));
    let mut difference = BinaryOperation::difference(ConstantIndicator::new(num(6)), ConstantIndicator::new(num(3)));
    let mut product = BinaryOperation::product(ConstantIndicator::new(num(6)), ConstantIndicator::new(num(3)));
    let mut quotient = BinaryOperation::quotient(ConstantIndicator::new(num(6)), ConstantIndicator::new(num(3)));
    let mut min = BinaryOperation::min(ConstantIndicator::new(num(6)), ConstantIndicator::new(num(3)));
    let mut max = BinaryOperation::max(ConstantIndicator::new(num(6)), ConstantIndicator::new(num(3)));
    assert_eq!(sum.get_value(&series, 0).unwrap(), num(9));
    assert_eq!(difference.get_value(&series, 0).unwrap(), num(3));
    assert_eq!(product.get_value(&series, 0).unwrap(), num(18));
    assert_eq!(quotient.get_value(&series, 0).unwrap(), num(2));
    assert_eq!(min.get_value(&series, 0).unwrap(), num(3));
    assert_eq!(max.get_value(&series, 0).unwrap(), num(6));
    let mut by_zero = BinaryOperation::quotient(ConstantIndicator::new(num(6)), ConstantIndicator::new(num(0)));
    match by_zero.get_value(&series, 0) {
        Err(IndicatorError::NumError(NumError::DivisionByZero)) => {},
        _ => panic!("expected a division by zero"),
    }
    let unstable = BinaryOperation::sum(
        PreviousValueIndicator::with_n(ClosePriceIndicator::new(), &series, 4),
        ConstantIndicator::new(num(1)),
    );
    assert_eq!(unstable.count_of_unstable_bars(), 4);
}

#[test]
fn cached_aux_and_recursive_cached_indicators() {
    let series = series_of(&[4, 5, 6]);
    let mut aux = CachedAuxIndicator::new(ClosePriceIndicator::new());
    assert_eq!(aux.get_value(&series, 2).unwrap(), num(6));
    assert_eq!(aux.get_value(&series, 2).unwrap(), num(6));
    assert_eq!(aux.get_value(&series, 0).unwrap(), num(4));
    let mut recursive = RecursiveCachedIndicator::new_with_threshold(&series, TRCalculator::new(), 1);
    assert_eq!(recursive.get_value(&series, 2).unwrap(), num(1));
    let mut recursive_default = RecursiveCachedIndicator::new(&series, TRCalculator::new());
    assert_eq!(recursive_default.get_value(&series, 0).unwrap(), num(0));
    let close = ClosePriceIndicator::new();
    let mut from_close = RecursiveCachedIndicator::from_indicator(&close, &series, TRCalculator::new());
    assert_eq!(from_close.get_value(&series, 1).unwrap(), num(1));
    let mut from_close_near = RecursiveCachedIndicator::from_indicator_with_threshold(&close, &series, TRCalculator::new(), 0);
    assert_eq!(from_close_near.get_value(&series, 2).unwrap(), num(1));
    // An index past the last bar is out of bounds.
    assert!(from_close_near.get_value(&series, 3).is_err());
}

#[test]
fn cache_on_a_constrained_series_keeps_a_bounded_window() {
    let mut series = series_of(&[1, 2, 3]);
    series.set_maximum_bar_count(2).unwrap();
    let mut close = CachedIndicator::new_from_series(&series, ta4r::indicators::helpers::volume_indicator::VolumeCalculator::new(1));
    // Index 0 was removed: the value is that of index 0, which reads the first bar held.
    assert_eq!(close.get_value(&series, 0).unwrap(), num(2));
    assert_eq!(close.get_value(&series, 1).unwrap(), num(2));
    assert_eq!(close.get_value(&series, 2).unwrap(), num(3));
    assert!(close.slots_len() <= 2);
}

#[test]
fn date_time_reads_begin_times() {
    let series = series_of(&[1, 2]);
    let dt = DateTimeIndicator::with_func(default_get_begin_time);
    assert_eq!(dt.get_value(&series, 1).unwrap(), START + ONE_DAY);
    assert!(dt.get_value(&series, 2).is_err());
    assert_eq!(dt.count_of_unstable_bars(), 0);
}

#[test]
fn stability_of_indicators() {
    let series = series_of(&[1, 2, 3]);
    let sma = SmaIndicator::new(ClosePriceIndicator::new(), &series, 3);
    assert!(!sma.is_stable_at(2));
    assert!(sma.is_stable_at(3));
    assert!(sma.is_stable(&series));
    let sma4 = SmaIndicator::new(ClosePriceIndicator::new(), &series, 4);
    assert!(!sma4.is_stable(&series));
}

#[test]
fn error_messages_and_helpers() {
    assert_eq!(index_text(0), "0");
    assert_eq!(index_text(1207), "1207");
    assert_eq!(message_at("at ", 42), "at 42");
    assert_eq!(IndicatorError::OutOfBounds { index: 12 }.describe(), "OutOfBounds index: 12");
    assert_eq!(
        IndicatorError::InvalidIndex { index: 5, max: 3 }.describe(),
        "Invalid index: 5 (max allowed: 3)"
    );
    assert_eq!(IndicatorError::Other { message: "x".to_string() }.describe(), "Other error: x");
    assert_eq!(IndicatorError::NumError(NumError::DivisionByZero).describe(), "Number error: Division by zero");
    match None::<u8>.or_invalid_index(4, 2) {
        Err(IndicatorError::InvalidIndex { index, max }) => {
            assert_eq!(index, 4);
            assert_eq!(max, 2);
        },
        _ => panic!("expected an invalid index"),
    }
    assert_eq!(Some(3u8).or_invalid_index(4, 2).unwrap(), 3);
    assert_eq!(NumConst(12i64).to_number(&DecimalNumFactory::instance()).unwrap(), num(12));
}

#[test]
fn indicator_values_survive_appended_bars() {
    let mut series = series_of(&[1, 2, 3]);
    let mut sma = SmaIndicator::new(ClosePriceIndicator::new(), &series, 2);
    assert_eq!(sma.get_value(&series, 1).unwrap(), dec(15, 1));
    assert_eq!(sma.get_value(&series, 2).unwrap(), dec(25, 1));
    series.add_bar(bar(3, 5, 5, 5, 5, 5)).unwrap();
    assert_eq!(sma.get_value(&series, 1).unwrap(), dec(15, 1));
    assert_eq!(sma.get_value(&series, 2).unwrap(), dec(25, 1));
    assert_eq!(sma.get_value(&series, 3).unwrap(), num(4));
    let mut ema = EmaIndicator::new(ClosePriceIndicator::new(), 2, dec(5, 1));
    assert_eq!(ema.get_value(&series, 3).unwrap(), dec(3625, 3));
    series.add_bar(bar(4, 1, 1, 1, 1, 1)).unwrap();
    assert_eq!(ema.get_value(&series, 3).unwrap(), dec(3625, 3));
    // (1 - 3.625) * 0.5 + 3.625 = 2.3125
    assert_eq!(ema.get_value(&series, 4).unwrap(), dec(23125, 4));
}

#[test]
fn unary_operations() {
    assert_eq!(UnaryOp::Abs.apply(&num(-3)), num(3));
    assert_eq!(UnaryOp::Neg.apply(&num(3)), num(-3));
    assert!(UnaryOp::Abs.apply(&DecimalNum::nan()).is_nan());
}

#[test]
fn numeric_indicator_chains_sums() {
    let series = series_of(&[4, 5, 6]);
    let mut close = NumericIndicator::of(ClosePriceIndicator::new());
    assert_eq!(close.get_value(&series, 1).unwrap(), num(5));
    let mut plus_open = NumericIndicator::of(ClosePriceIndicator::new()).plus(OpenPriceIndicator::new());
    assert_eq!(plus_open.get_value(&series, 2).unwrap(), num(12));
    let mut plus_ten = NumericIndicator::of(ClosePriceIndicator::new()).plus_num(num(10));
    assert_eq!(plus_ten.get_value(&series, 0).unwrap(), num(14));
    assert!(plus_ten.get_value(&series, 3).is_err());
}

/// A series of daily bars whose close prices are the given decimals.
fn series_of_closes(closes: &[DecimalNum]) -> BaseBarSeries {
    let bars: Vec<BaseBar> = closes
        .iter()
        .enumerate()
        .map(|(i, c)| {
            BaseBar::new(ONE_DAY, START + ONE_DAY * (i as i128 + 1), Some(*c), Some(*c), Some(*c), Some(*c), num(1), None, 1)
                .unwrap()
        })
        .collect();
    BaseBarSeriesBuilder::new().with_bars(bars).build().unwrap()
}

#[test]
fn running_total_sums_the_window_afresh_out_of_order() {
    let big = DecimalNum::from_parts(50_000_000_000_000_000_000_000_000_000, 0).unwrap();
    let half = dec(5, 1);
    let series = series_of_closes(&[big, half, half]);
    // First read at index 2: the window (indices 1 and 2) is summed afresh.
    let mut fresh = RunningTotalIndicator::new(ClosePriceIndicator::new(), &series, 2);
    assert_eq!(fresh.get_value(&series, 2).unwrap(), num(1));
    // Read in order, each total steps from the one before; adding a half to the
    // large first value rounds it away, so the step at index 2 differs.
    let mut stepped = RunningTotalIndicator::new(ClosePriceIndicator::new(), &series, 2);
    stepped.get_value(&series, 0).unwrap();
    stepped.get_value(&series, 1).unwrap();
    assert_ne!(stepped.get_value(&series, 2).unwrap(), num(1));
}

#[test]
fn true_range_on_a_series_that_dropped_bars() {
    let mut series = BaseBarSeriesBuilder::new()
        .with_bars(vec![bar(0, 10, 12, 8, 11, 1), bar(1, 11, 15, 13, 14, 1), bar(2, 14, 14, 9, 10, 1)])
        .build()
        .unwrap();
    series.set_maximum_bar_count(2).unwrap();
    assert_eq!(series.get_removed_bars_count(), 1);
    let mut calc = TRCalculator::new();
    // Index 2 reads the close of bar 1: max(|14 - 9|, |14 - 14|, |14 - 9|) = 5.
    assert_eq!(calc.calculate(&series, 2).unwrap(), num(5));
    // Index 1 reads the first bar still held for index 0: max(2, 1, 1) = 2.
    assert_eq!(calc.calculate(&series, 1).unwrap(), num(2));
    let mut tr = TRIndicator::new(&series);
    assert_eq!(tr.get_value(&series, 2).unwrap(), num(5));
}

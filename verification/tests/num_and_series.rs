use ta4r::aggregator::base_bar_series_aggregator::BaseBarSeriesAggregator;
use ta4r::aggregator::duration_bar_aggregator::DurationBarAggregator;
use ta4r::aggregator::heikin_ashi_bar_aggregator::HeikinAshiBarAggregator;
use ta4r::aggregator::types::{BarAggregator, BarSeriesAggregator};
use ta4r::bar::base_bar::BaseBar;
use ta4r::bar::base_bar_series::BaseBarSeries;
use ta4r::bar::base_bar_series_builder::BaseBarSeriesBuilder;
use ta4r::num::{DecimalNum, NaN, NumError};

const MINUTE: i128 = 60_000_000_000;

fn num(n: i64) -> DecimalNum {
    DecimalNum::from_i64(n)
}

fn minute_bar(i: i128, open: i64, high: i64, low: i64, close: i64) -> BaseBar {
    BaseBar::new(MINUTE, MINUTE * (i + 1), Some(num(open)), Some(num(high)), Some(num(low)), Some(num(close)), num(1), Some(num(close)), 1)
        .unwrap()
}

#[test]
fn decimal_arithmetic() {
    let a = DecimalNum::from_parts(125, 2).unwrap();
    let b = num(2);
    assert_eq!(a.plus(&b), DecimalNum::from_parts(325, 2).unwrap());
    assert_eq!(a.minus(&b), DecimalNum::from_parts(-75, 2).unwrap());
    assert_eq!(a.multiplied_by(&b), DecimalNum::from_parts(25, 1).unwrap());
    assert_eq!(a.divided_by(&b).unwrap(), DecimalNum::from_parts(625, 3).unwrap());
    assert_eq!(a.neg(), DecimalNum::from_parts(-125, 2).unwrap());
    assert_eq!(a.neg().abs(), a);
    assert!(a.is_less_than(&b));
    assert!(b.is_greater_than_or_equal(&a));
    assert_eq!(a.max(&b), b);
    assert_eq!(a.min(&b), a);
    assert!(num(0).is_zero());
    assert!(a.is_positive());
    assert!(a.neg().is_negative());
    assert!(DecimalNum::from_parts(1, 29).is_none());
}

#[test]
fn decimal_errors_and_nan() {
    match num(1).divided_by(&num(0)) {
        Err(NumError::DivisionByZero) => {},
        _ => panic!("expected a division by zero"),
    }
    assert!(num(1).div_or_nan(&num(0)).is_nan());
    let nan = NaN::new().to_num();
    assert!(nan.is_nan());
    assert!(nan.plus(&num(1)).is_nan());
    assert!(num(1).multiplied_by(&nan).is_nan());
    assert!(nan.divided_by(&num(0)).unwrap().is_nan());
    assert!(!nan.is_greater_than(&num(1)));
    assert!(!nan.is_less_than(&num(1)));
    // The largest mantissa overflows when doubled: NaN.
    let big = DecimalNum::from_parts(0xFFFF_FFFF_FFFF_FFFF_FFFF_FFFF, 0).unwrap();
    assert!(big.plus(&big).is_nan());
    assert_eq!(NumError::Overflow.describe(), "Arithmetic overflow");
}

#[test]
fn series_keeps_the_maximum_bar_count() {
    let mut series = BaseBarSeriesBuilder::new().with_name("s".to_string()).build().unwrap();
    assert!(series.is_empty());
    assert_eq!(series.get_bar_count(), 0);
    for i in 0..5 {
        series.add_bar(minute_bar(i, 1, 2, 0, 1)).unwrap();
    }
    assert_eq!(series.get_bar_count(), 5);
    series.set_maximum_bar_count(3).unwrap();
    assert_eq!(series.get_bar_count(), 3);
    assert_eq!(series.get_removed_bars_count(), 2);
    series.add_bar(minute_bar(5, 1, 2, 0, 7)).unwrap();
    assert_eq!(series.get_bar_count(), 3);
    assert_eq!(series.get_removed_bars_count(), 3);
    assert_eq!(series.get_end_index(), Some(5));
    assert_eq!(series.get_bar(5).unwrap().close_price, Some(num(7)));
    // A removed index gives the first bar held.
    assert_eq!(series.get_bar(0).unwrap().end_time, MINUTE * 4);
    assert!(series.get_bar(6).is_none());
    // A bar that does not end after the last one is refused.
    assert!(series.add_bar(minute_bar(5, 1, 2, 0, 1)).is_err());
    assert_eq!(series.get_name(), "s");
    assert!(series.set_maximum_bar_count(0).is_err());
}

#[test]
fn series_new_checks_indices() {
    let bars = vec![minute_bar(0, 1, 1, 1, 1), minute_bar(1, 1, 1, 1, 1)];
    let factory = ta4r::bar::base_bar::DecimalNumFactory::instance();
    let builder_factory = ta4r::bar::builder::types::BarBuilderFactories::TimeBarFactory(
        ta4r::bar::builder::types::TimeBarBuilderFactory::new(),
    );
    assert!(BaseBarSeries::new("x".to_string(), bars.clone(), Some(0), Some(1), false, factory, builder_factory).is_ok());
    assert!(BaseBarSeries::new("x".to_string(), bars.clone(), Some(0), Some(2), false, factory, builder_factory).is_err());
    assert!(BaseBarSeries::new("x".to_string(), Vec::new(), Some(0), None, false, factory, builder_factory).is_err());
}

#[test]
fn duration_aggregation_into_five_minute_bars() {
    let bars: Vec<BaseBar> = (0..7).map(|i| minute_bar(i, 10 + i as i64, 20 + i as i64, 5 + i as i64, 11 + i as i64)).collect();
    let aggregator = DurationBarAggregator::new(MINUTE * 5, false);
    let out = aggregator.aggregate(&bars).unwrap();
    assert_eq!(out.len(), 2);
    assert_eq!(out[0].open_price, Some(num(10)));
    assert_eq!(out[0].high_price, Some(num(24)));
    assert_eq!(out[0].low_price, Some(num(5)));
    assert_eq!(out[0].close_price, Some(num(15)));
    assert_eq!(out[0].volume, num(5));
    assert_eq!(out[0].trades, 5);
    assert_eq!(out[1].open_price, Some(num(15)));
    assert_eq!(out[1].close_price, Some(num(17)));
    // With only final bars asked for, the unfinished last group (two minutes of five) is left out.
    let only_final = DurationBarAggregator::new(MINUTE * 5, true);
    let finals = only_final.aggregate(&bars).unwrap();
    assert_eq!(finals.len(), 1);
    assert_eq!(finals[0].close_price, Some(num(15)));
    // A finished last group is kept.
    let ten: Vec<BaseBar> = (0..10).map(|i| minute_bar(i, 1, 2, 0, 1)).collect();
    assert_eq!(only_final.aggregate(&ten).unwrap().len(), 2);
    // A period that is not a multiple of the bars' period is refused.
    assert_eq!(
        DurationBarAggregator::new(MINUTE * 5 / 2 * 3, false).aggregate(&bars).unwrap_err(),
        "New time_period must be multiple of actual bar time_period"
    );
    // A period of zero makes groups of no bar: the first one misses its close price.
    assert_eq!(DurationBarAggregator::new(0, false).aggregate(&bars).unwrap_err(), "missing close price");
    assert!(aggregator.is_in_duration(MINUTE));
    assert!(!aggregator.begin_times_in_duration(0, MINUTE * 5));
}

#[test]
fn heikin_ashi_aggregation() {
    let bars = vec![minute_bar(0, 10, 14, 8, 12), minute_bar(1, 12, 16, 11, 15)];
    let out = HeikinAshiBarAggregator::new().aggregate(&bars).unwrap();
    assert_eq!(out.len(), 2);
    assert_eq!(out[0].open_price, Some(num(10)));
    assert_eq!(out[0].close_price, Some(num(12)));
    // Second bar: close (12 + 16 + 11 + 15) / 4 = 13.5, open (10 + 12) / 2 = 11.
    assert_eq!(out[1].close_price, DecimalNum::from_parts(135, 1));
    assert_eq!(out[1].open_price, Some(num(11)));
    assert_eq!(out[1].high_price, Some(num(16)));
    assert_eq!(out[1].low_price, Some(num(11)));
    let missing = BaseBar::new(MINUTE, MINUTE, None, None, None, None, num(1), None, 0).unwrap();
    assert!(HeikinAshiBarAggregator::new().aggregate(&[missing]).is_err());
}

#[test]
fn series_aggregation_keeps_or_renames() {
    let bars: Vec<BaseBar> = (0..4).map(|i| minute_bar(i, 1, 2, 0, 1)).collect();
    let series = BaseBarSeriesBuilder::new().with_name("minutes".to_string()).with_bars(bars).build().unwrap();
    let aggregator = BaseBarSeriesAggregator::new(DurationBarAggregator::new(MINUTE * 2, false));
    let same_name = aggregator.aggregate(&series).unwrap();
    assert_eq!(same_name.get_name(), "minutes");
    assert_eq!(same_name.get_bar_count(), 2);
    let renamed = aggregator.aggregate_with_name(&series, "two-minutes").unwrap();
    assert_eq!(renamed.get_name(), "two-minutes");
}

#[test]
fn duration_aggregation_errors() {
    // A group whose bars miss their prices gives no bar.
    let mut bars: Vec<BaseBar> = (0..4).map(|i| minute_bar(i, 1, 2, 0, 1)).collect();
    bars[2] = BaseBar::new(MINUTE, MINUTE * 3, None, None, None, None, num(1), None, 0).unwrap();
    let aggregator = DurationBarAggregator::new(MINUTE * 2, false);
    // The second group (bars 2 and 3) has no open price.
    assert_eq!(aggregator.aggregate(&bars).unwrap_err(), "missing open price");
    // Trade counts that overflow when summed are refused.
    let big = BaseBar::new(MINUTE, MINUTE, Some(num(1)), Some(num(1)), Some(num(1)), Some(num(1)), num(1), None, u64::MAX).unwrap();
    let next = BaseBar::new(MINUTE, MINUTE * 2, Some(num(1)), Some(num(1)), Some(num(1)), Some(num(1)), num(1), None, 1).unwrap();
    assert!(aggregator.aggregate(&[big.clone(), next]).is_err());
    // The same bars in separate groups aggregate.
    assert_eq!(DurationBarAggregator::new(MINUTE, false).aggregate(&[big]).unwrap()[0].trades, u64::MAX);
    // No bars, no aggregated bars.
    assert!(aggregator.aggregate(&[]).unwrap().is_empty());
}

#[test]
fn nan_type_and_is_one() {
    let nan = NaN::new();
    assert!(nan.is_nan());
    assert!(!nan.is_zero());
    assert!(!nan.is_one());
    assert!(!nan.is_positive());
    assert!(!nan.is_negative());
    assert_eq!(nan.plus(&NaN::new()), NaN);
    assert_eq!(nan.minus(&NaN::new()), NaN);
    assert_eq!(nan.multiplied_by(&NaN::new()), NaN);
    assert_eq!(nan.divided_by(&NaN::new()).unwrap(), NaN);
    assert_eq!(nan.min(&NaN::new()), NaN);
    assert_eq!(nan.max(&NaN::new()), NaN);
    assert!(num(1).is_one());
    assert!(DecimalNum::from_parts(100, 2).unwrap().is_one());
    assert!(!num(2).is_one());
    assert!(!DecimalNum::nan().is_one());
}

#[test]
fn heikin_ashi_names_the_first_missing_price() {
    let ok = minute_bar(0, 10, 14, 8, 12);
    let no_high = BaseBar::new(MINUTE, MINUTE * 2, Some(num(1)), None, None, Some(num(1)), num(1), None, 0).unwrap();
    assert_eq!(HeikinAshiBarAggregator::new().aggregate(&[ok, no_high]).unwrap_err(), "missing high price");
    let no_close = BaseBar::new(MINUTE, MINUTE, Some(num(1)), Some(num(1)), Some(num(1)), None, num(1), None, 0).unwrap();
    assert_eq!(HeikinAshiBarAggregator::new().aggregate(&[no_close]).unwrap_err(), "missing close price");
}

use ta4r::bar::base_bar::{BaseBar, DecimalNumFactory};
use ta4r::bar::base_bar_series_builder::BaseBarSeriesBuilder;
use ta4r::bar::builder::heikin_ashi_bar_builder::HeikinAshiBarBuilder;
use ta4r::bar::builder::types::{
    BarBuilderFactories, TickBarBuilderFactory, TimeBarBuilderFactory, VolumeBarBuilderFactory,
};
use ta4r::num::DecimalNum;

const ONE_HOUR: i128 = 3_600_000_000_000;
const ONE_DAY: i128 = 86_400_000_000_000;
/// 2014-01-01 01:00:00 UTC, in nanoseconds.
const JAN_1_2014_0100: i128 = 1_388_538_000_000_000_000;
/// 2014-06-25 00:00:00 UTC, in nanoseconds.
const JUN_25_2014: i128 = 1_403_654_400_000_000_000;
/// A fixed "now", in nanoseconds.
const NOW: i128 = 1_700_000_000_000_000_000;

fn num(n: i64) -> DecimalNum {
    DecimalNum::from_i64(n)
}

#[test]
fn test_heikin_ashi_bar_builder_all() {
    println!("Running test for DecimalNumFactory");
    let num_factory = DecimalNumFactory::instance();
    let price_open = num_factory.num_of_i64(100);
    let price_high = num_factory.num_of_i64(110);
    let price_low = num_factory.num_of_i64(95);
    let price_close = num_factory.num_of_i64(105);
    let volume = num_factory.num_of_i64(10);
    let amount = num_factory.num_of_i64(1000);
    let trades = 1;

    let time_period = ONE_HOUR;
    let end_time = JAN_1_2014_0100;

    let input_bar = BaseBar::new(
        time_period,
        end_time,
        Some(price_open),
        Some(price_high),
        Some(price_low),
        Some(price_close),
        volume,
        Some(amount),
        trades,
    )
    .unwrap();
    assert_eq!(input_bar.get_end_time(), end_time);

    // No previous Heikin-Ashi prices: the bar keeps its own prices.
    let bar1 = HeikinAshiBarBuilder::new_with_factory(num_factory)
        .time_period(time_period)
        .end_time(end_time)
        .open_price(price_open)
        .high_price(price_high)
        .low_price(price_low)
        .close_price(price_close)
        .volume(volume)
        .amount(amount)
        .trades(trades)
        .build()
        .unwrap();

    assert_eq!(bar1.get_open_price(), Some(price_open));
    assert_eq!(bar1.get_high_price(), Some(price_high));
    assert_eq!(bar1.get_low_price(), Some(price_low));
    assert_eq!(bar1.get_close_price(), Some(price_close));

    // With previous Heikin-Ashi prices.
    let prev_ha_open = num_factory.num_of_i64(100);
    let prev_ha_close = num_factory.num_of_i64(105);

    let expected_ha_close = price_open
        .plus(&price_high)
        .plus(&price_low)
        .plus(&price_close)
        .divided_by(&num_factory.num_of_i64(4))
        .unwrap();
    let expected_ha_open = prev_ha_open.plus(&prev_ha_close).divided_by(&num_factory.num_of_i64(2)).unwrap();
    let expected_ha_high = price_high.max(&expected_ha_open).max(&expected_ha_close);
    let expected_ha_low = price_low.min(&expected_ha_open).min(&expected_ha_close);

    let ha_bar = HeikinAshiBarBuilder::new_with_factory(num_factory)
        .previous_heikin_ashi_open_price(Some(prev_ha_open))
        .previous_heikin_ashi_close_price(Some(prev_ha_close))
        .time_period(time_period)
        .end_time(end_time)
        .open_price(price_open)
        .high_price(price_high)
        .low_price(price_low)
        .close_price(price_close)
        .volume(volume)
        .amount(amount)
        .trades(trades)
        .build()
        .unwrap();

    assert_eq!(ha_bar.get_open_price(), Some(expected_ha_open));
    assert_eq!(ha_bar.get_close_price(), Some(expected_ha_close));
    assert_eq!(ha_bar.get_high_price(), Some(expected_ha_high));
    assert_eq!(ha_bar.get_low_price(), Some(expected_ha_low));
}

#[test]
fn test_tick_bar_builder_add() {
    let tick_factory = TickBarBuilderFactory::new(5);
    let mut series = BaseBarSeriesBuilder::default()
        .with_bar_builder_factory(BarBuilderFactories::TickBarFactory(tick_factory))
        .build()
        .unwrap();

    let now = NOW;
    let one_day = ONE_DAY;
    {
        let mut builder = series.bar_builder();
        builder.time_period(one_day).end_time(now).close_price(num(1)).volume(num(1)).add(&mut series).unwrap();
        builder.time_period(one_day).end_time(now + one_day).close_price(num(2)).volume(num(1)).add(&mut series).unwrap();
        builder
            .time_period(one_day)
            .end_time(now + one_day * 2)
            .close_price(num(5))
            .volume(num(1))
            .trades(9)
            .add(&mut series)
            .unwrap();
        builder.time_period(one_day).end_time(now + one_day * 3).close_price(num(1)).volume(num(1)).add(&mut series).unwrap();
        builder
            .time_period(one_day)
            .end_time(now + one_day * 4)
            .close_price(num(4))
            .volume(num(2))
            .trades(1)
            .add(&mut series)
            .unwrap();
    }
    assert_eq!(series.get_bar_count(), 1);
    let bar1 = series.get_bar(0).unwrap();

    assert_eq!(bar1.volume, num(6));
    assert_eq!(bar1.open_price, Some(num(1)));
    assert_eq!(bar1.close_price, Some(num(4)));
    assert_eq!(bar1.high_price, Some(num(5)));
    assert_eq!(bar1.low_price, Some(num(1)));
    assert_eq!(bar1.time_period, one_day * 5);
    assert_eq!(bar1.begin_time, now - one_day);
    assert_eq!(bar1.end_time, now + one_day * 4);
    assert_eq!(bar1.amount, Some(num(24)));
    assert_eq!(bar1.trades, 10);
    {
        let mut builder = series.bar_builder();
        builder
            .time_period(one_day)
            .end_time(now + one_day * 5)
            .close_price(num(2))
            .volume(num(1))
            .amount(num(24))
            .add(&mut series)
            .unwrap();
        builder.time_period(one_day).end_time(now + one_day * 6).close_price(num(3)).volume(num(1)).add(&mut series).unwrap();
        builder.time_period(one_day).end_time(now + one_day * 7).close_price(num(6)).volume(num(2)).add(&mut series).unwrap();
        builder.time_period(one_day).end_time(now + one_day * 8).close_price(num(2)).volume(num(1)).add(&mut series).unwrap();
        builder
            .time_period(one_day)
            .end_time(now + one_day * 9)
            .close_price(num(5))
            .volume(num(2))
            .trades(100)
            .add(&mut series)
            .unwrap();
    }
    assert_eq!(series.get_bar_count(), 2);
    let bar2 = series.get_bar(1).unwrap();
    assert_eq!(bar2.volume, num(7));
    assert_eq!(bar2.open_price, Some(num(2)));
    assert_eq!(bar2.close_price, Some(num(5)));
    assert_eq!(bar2.high_price, Some(num(6)));
    assert_eq!(bar2.low_price, Some(num(2)));
    assert_eq!(bar2.time_period, one_day * 5);
    assert_eq!(bar2.begin_time, now + one_day * 4);
    assert_eq!(bar2.end_time, now + one_day * 9);
    assert_eq!(bar2.amount, Some(num(24)));
    assert_eq!(bar2.trades, 100);
}

#[test]
fn test_time_bar_builder_build() {
    let begin_time = JUN_25_2014;
    let end_time = JUN_25_2014 + ONE_HOUR;
    let duration = end_time - begin_time;

    let time_factory = TimeBarBuilderFactory::new();
    let mut series = BaseBarSeriesBuilder::default()
        .with_bar_builder_factory(BarBuilderFactories::TimeBarFactory(time_factory))
        .build()
        .unwrap();

    let mut builder = series.bar_builder();
    builder
        .time_period(duration)
        .end_time(end_time)
        .open_price(num(101))
        .high_price(num(103))
        .low_price(num(100))
        .close_price(num(102))
        .trades(4)
        .volume(num(40))
        .amount(num(4020))
        .add(&mut series)
        .unwrap();

    assert_eq!(series.get_bar_count(), 1);
    let bar = series.get_bar(0).unwrap();

    assert_eq!(bar.time_period, duration);
    assert_eq!(bar.begin_time, begin_time);
    assert_eq!(bar.end_time, end_time);
    assert_eq!(bar.open_price, Some(num(101)));
    assert_eq!(bar.high_price, Some(num(103)));
    assert_eq!(bar.low_price, Some(num(100)));
    assert_eq!(bar.close_price, Some(num(102)));
    assert_eq!(bar.volume, num(40));
    assert_eq!(bar.amount, Some(num(4020)));
    assert_eq!(bar.trades, 4);
}

/// Adds the seven ticks of the volume tests: two bars of volume 4.
fn add_volume_ticks(
    builder: &mut ta4r::bar::builder::types::BarBuilders,
    series: &mut ta4r::bar::base_bar_series::BaseBarSeries,
    first: bool,
) {
    let now = NOW;
    let one_day = ONE_DAY;
    if first {
        builder.time_period(one_day).end_time(now).close_price(num(1)).volume(num(1)).add(series).unwrap();
        builder.time_period(one_day).end_time(now + one_day).close_price(num(2)).volume(num(1)).add(series).unwrap();
        builder.time_period(one_day).end_time(now + one_day * 2).close_price(num(5)).volume(num(1)).add(series).unwrap();
        // The volume reaches 5: a bar of volume 4 is built and 1 carried over.
        builder.time_period(one_day).end_time(now + one_day * 3).close_price(num(4)).volume(num(2)).add(series).unwrap();
    } else {
        builder.time_period(one_day).end_time(now + one_day * 4).close_price(num(2)).volume(num(1)).add(series).unwrap();
        builder.time_period(one_day).end_time(now + one_day * 5).close_price(num(3)).volume(num(1)).add(series).unwrap();
        builder.time_period(one_day).end_time(now + one_day * 6).close_price(num(6)).volume(num(1)).add(series).unwrap();
    }
}

fn check_first_volume_bar(bar1: &BaseBar) {
    assert_eq!(bar1.volume, num(4));
    assert_eq!(bar1.open_price, Some(num(1)));
    assert_eq!(bar1.close_price, Some(num(4)));
    assert_eq!(bar1.high_price, Some(num(5)));
    assert_eq!(bar1.low_price, Some(num(1)));
    assert_eq!(bar1.time_period, ONE_DAY * 4);
    assert_eq!(bar1.begin_time, NOW - ONE_DAY);
    assert_eq!(bar1.end_time, NOW + ONE_DAY * 3);
}

fn check_second_volume_bar(bar2: &BaseBar) {
    assert_eq!(bar2.volume, num(4));
    assert_eq!(bar2.open_price, Some(num(2)));
    assert_eq!(bar2.close_price, Some(num(6)));
    assert_eq!(bar2.high_price, Some(num(6)));
    assert_eq!(bar2.low_price, Some(num(2)));
    assert_eq!(bar2.time_period, ONE_DAY * 3);
    assert_eq!(bar2.begin_time, NOW + ONE_DAY * 3);
    assert_eq!(bar2.end_time, NOW + ONE_DAY * 6);
}

#[test]
fn test_volume_bar_builder_add_mut() {
    let factory = VolumeBarBuilderFactory::new(4);
    let mut series = BaseBarSeriesBuilder::default()
        .with_bar_builder_factory(BarBuilderFactories::VolumeBarFactory(factory))
        .build()
        .unwrap();
    let mut builder = series.bar_builder();
    add_volume_ticks(&mut builder, &mut series, true);
    add_volume_ticks(&mut builder, &mut series, false);

    check_first_volume_bar(series.get_bar(0).unwrap());
    assert_eq!(series.get_bar_count(), 2);
    check_second_volume_bar(series.get_bar(1).unwrap());
}

#[test]
fn test_volume_bar_builder_add_shared() {
    let factory = VolumeBarBuilderFactory::new(4);
    let mut series = BaseBarSeriesBuilder::default()
        .with_bar_builder_factory(BarBuilderFactories::VolumeBarFactory(factory))
        .build()
        .unwrap();
    let mut builder = series.bar_builder();
    add_volume_ticks(&mut builder, &mut series, true);
    assert_eq!(series.get_bar_count(), 1);
    check_first_volume_bar(series.get_bar(0).unwrap());

    add_volume_ticks(&mut builder, &mut series, false);
    assert_eq!(series.get_bar_count(), 2);
    check_second_volume_bar(series.get_bar(1).unwrap());
}

#[test]
fn time_bar_builder_refuses_a_bar_not_after_the_last() {
    let mut series = BaseBarSeriesBuilder::default()
        .with_bar_builder_factory(BarBuilderFactories::TimeBarFactory(TimeBarBuilderFactory::new()))
        .build()
        .unwrap();
    let mut builder = series.bar_builder();
    builder
        .time_period(ONE_HOUR)
        .end_time(JUN_25_2014)
        .open_price(num(1))
        .high_price(num(1))
        .low_price(num(1))
        .close_price(num(1))
        .volume(num(1));
    builder.add(&mut series).unwrap();
    // The same end time again: the series refuses the bar and stays as it was.
    assert!(builder.add(&mut series).is_err());
    assert_eq!(series.get_bar_count(), 1);
    // A later end time is accepted.
    builder.end_time(JUN_25_2014 + ONE_HOUR);
    builder.add(&mut series).unwrap();
    assert_eq!(series.get_bar_count(), 2);
    // A begin time below what an i128 holds is refused.
    let mut far = series.bar_builder();
    far.time_period(i128::MAX).end_time(-2).open_price(num(1)).high_price(num(1)).low_price(num(1)).close_price(num(1));
    assert!(far.build().is_err());
}

#[test]
fn tick_bar_builder_refuses_a_late_tick_bar() {
    let mut series = BaseBarSeriesBuilder::default()
        .with_bar_builder_factory(BarBuilderFactories::TickBarFactory(TickBarBuilderFactory::new(1)))
        .build()
        .unwrap();
    let mut builder = series.bar_builder();
    builder.end_time(NOW).close_price(num(3)).volume(num(1)).add(&mut series).unwrap();
    assert!(builder.end_time(NOW).close_price(num(4)).volume(num(1)).add(&mut series).is_err());
    assert_eq!(series.get_bar_count(), 1);
    assert_eq!(series.get_bar(0).unwrap().close_price, Some(num(3)));
}

#[test]
fn volume_bar_builder_starts_amount_and_trades_afresh() {
    let mut series = BaseBarSeriesBuilder::default()
        .with_bar_builder_factory(BarBuilderFactories::VolumeBarFactory(VolumeBarBuilderFactory::new(2)))
        .build()
        .unwrap();
    let mut builder = series.bar_builder();
    builder.time_period(ONE_DAY).end_time(NOW).close_price(num(3)).volume(num(2)).trades(5).add(&mut series).unwrap();
    builder
        .time_period(ONE_DAY)
        .end_time(NOW + ONE_DAY)
        .close_price(num(4))
        .volume(num(2))
        .trades(1)
        .add(&mut series)
        .unwrap();
    assert_eq!(series.get_bar_count(), 2);
    let bar1 = series.get_bar(0).unwrap();
    assert_eq!(bar1.amount, Some(num(6)));
    assert_eq!(bar1.trades, 5);
    let bar2 = series.get_bar(1).unwrap();
    // The second bar's amount is its own close price times its volume, and its trades its own.
    assert_eq!(bar2.amount, Some(num(8)));
    assert_eq!(bar2.trades, 1);
}

#[test]
fn time_bar_builder_names_the_first_missing_price() {
    let mut series = BaseBarSeriesBuilder::default()
        .with_bar_builder_factory(BarBuilderFactories::TimeBarFactory(TimeBarBuilderFactory::new()))
        .build()
        .unwrap();
    let mut builder = series.bar_builder();
    builder.end_time(NOW);
    assert_eq!(builder.build().unwrap_err(), "Missing open_price");
    builder.open_price(num(1));
    assert_eq!(builder.build().unwrap_err(), "Missing high_price");
    builder.high_price(num(1));
    assert_eq!(builder.build().unwrap_err(), "Missing low_price");
    builder.low_price(num(1));
    assert_eq!(builder.build().unwrap_err(), "Missing close_price");
    builder.close_price(num(1));
    assert!(builder.build().is_ok());
    assert!(builder.add(&mut series).is_ok());
}

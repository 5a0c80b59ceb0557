use ta4r::analysis::cost::{CostContext, CostModel, FixedTransactionCostModel, ZeroCostModel};
use ta4r::bar::base_bar::BaseBar;
use ta4r::bar::base_bar_series_builder::BaseBarSeriesBuilder;
use ta4r::num::{DecimalNum, NumError};
use ta4r::position::Position;
use ta4r::trade::{Trade, TradeType};
use ta4r::trading_record::{BaseTradingRecord, RecordLogLine, TradingRecord};

fn num(n: i64) -> DecimalNum {
    DecimalNum::from_i64(n)
}

fn fee(n: i64) -> FixedTransactionCostModel {
    FixedTransactionCostModel::new(num(n))
}

#[test]
fn fixed_cost_model_charges_per_trade() {
    let model = fee(2);
    let open = CostContext::build(num(10), num(1), Some(0), None, false);
    let closed = CostContext::build(num(10), num(1), Some(0), Some(3), true);
    assert_eq!(model.calculate_position(&open), num(2));
    assert_eq!(model.calculate_position(&closed), num(4));
    assert_eq!(model.calculate_with_index(&closed), num(4));
    assert_eq!(model.calculate_trade(&num(100), &num(3)), num(2));
    assert!(model.equals(&fee(2)));
    assert!(!model.equals(&fee(3)));
    let zero = ZeroCostModel::new();
    assert_eq!(zero.calculate_position(&closed), num(0));
    assert_eq!(zero.calculate_trade(&num(100), &num(3)), num(0));
}

#[test]
fn trade_net_price_includes_cost() {
    let buy = Trade::new(1, TradeType::Buy, num(10), num(2), fee(4));
    // Cost 4 over an amount of 2: 2 per asset, added for a buy.
    assert_eq!(buy.get_net_price(), num(12));
    assert_eq!(buy.get_cost(), num(4));
    assert_eq!(buy.get_value(), num(20));
    assert!(buy.is_buy());
    let sell = Trade::new(2, TradeType::Sell, num(10), num(2), fee(4));
    assert_eq!(sell.get_net_price(), num(8));
    assert!(sell.is_sell());
    assert_eq!(TradeType::Buy.complement_type(), TradeType::Sell);
    assert_eq!(sell.get_index(), 2);
}

#[test]
fn position_lifecycle_and_profit() {
    let mut position = Position::new_buy(fee(1), ZeroCostModel::new());
    assert!(position.is_new());
    let entry = position.operate(1, num(10), num(2)).unwrap();
    assert!(position.is_opened());
    assert_eq!(entry.get_type(), TradeType::Buy);
    let exit = position.operate(3, num(15), num(2)).unwrap();
    assert!(position.is_closed());
    assert_eq!(exit.get_type(), TradeType::Sell);
    // A closed position ignores further operations.
    assert!(position.operate(5, num(20), num(2)).is_none());
    // Gross profit 30 - 20 = 10; the position cost is that of the open
    // position (one fee), and two fees once evaluated closed at an index.
    assert_eq!(position.get_gross_profit(num(15)), num(10));
    assert_eq!(position.get_position_cost(), num(1));
    assert_eq!(position.get_position_cost_with_index(3), num(2));
    assert_eq!(position.get_profit(), num(9));
    assert!(position.has_profit());
    assert!(!position.has_loss());
    assert_eq!(position.get_gross_return(num(10), num(15)).unwrap(), DecimalNum::from_parts(15, 1).unwrap());
}

#[test]
fn sell_position_profit_and_gross_return() {
    let mut position = Position::new(TradeType::Sell, ZeroCostModel::new(), ZeroCostModel::new());
    position.operate(0, num(20), num(1));
    position.operate(1, num(25), num(1));
    assert_eq!(position.get_profit(), num(-5));
    assert!(position.has_loss());
    assert_eq!(position.get_gross_return(num(20), num(40)).unwrap(), DecimalNum::from_parts(5, 1).unwrap());
    match position.get_gross_return(num(0), num(40)) {
        Err(NumError::DivisionByZero) => {},
        _ => panic!("expected a division by zero"),
    }
    let fresh: Position<ZeroCostModel, ZeroCostModel> = Position::new_buy(ZeroCostModel::new(), ZeroCostModel::new());
    assert!(fresh.get_gross_return(num(1), num(2)).is_err());
}

#[test]
fn record_entry_then_exit() {
    let mut record = BaseTradingRecord::new_default(fee(1), ZeroCostModel::new()).with_name("demo");
    assert!(record.is_closed());
    assert!(!record.exit(0));
    assert_eq!(record.position_count(), 0);
    assert!(record.last_position().is_none());
    assert!(record.enter(1));
    assert!(!record.enter(2));
    assert!(!record.is_closed());
    // The open position is recorded too.
    assert_eq!(record.position_count(), 1);
    assert!(record.last_position().unwrap().is_opened());
    assert_eq!(record.positions().len(), 1);
    assert!(record.exit(4));
    assert!(record.is_closed());
    assert_eq!(record.position_count(), 1);
    assert_eq!(record.trades().len(), 2);
    assert_eq!(record.last_entry().unwrap().get_index(), 1);
    assert_eq!(record.last_exit().unwrap().get_index(), 4);
    assert_eq!(record.last_trade_of_type(TradeType::Sell).unwrap().get_index(), 4);
    assert!(record.current_position().is_new());
    assert!(record.last_position().unwrap().is_closed());
    assert_eq!(record.name(), "demo");
    record.operate(6);
    assert!(!record.is_closed());
    assert_eq!(record.positions().len(), 2);
    assert!(record.positions()[0].is_closed());
    assert_eq!(record.last_trade().unwrap().get_index(), 6);
}

#[test]
fn record_log_lines_show_first_and_last_ten() {
    let mut record = BaseTradingRecord::new_default(fee(0), ZeroCostModel::new());
    for i in 0..22 {
        record.operate(i);
    }
    let lines = record.log_trading_record();
    assert_eq!(lines.len(), 22);
    match &lines[0] {
        RecordLogLine::Summary { trades, positions, .. } => {
            assert_eq!(*trades, 22);
            assert_eq!(*positions, 11);
        },
        _ => panic!("expected the summary first"),
    }
    match &lines[11] {
        RecordLogLine::Omitted { count } => assert_eq!(*count, 2),
        _ => panic!("expected the omitted count"),
    }
    match &lines[12] {
        RecordLogLine::Trade { index } => assert_eq!(*index, 12),
        _ => panic!("expected a trade"),
    }
}

#[test]
fn record_indices_with_series() {
    let bars: Vec<BaseBar> = (0..5)
        .map(|i| BaseBar::new(1, i + 1, None, None, None, Some(num(1)), num(1), None, 0).unwrap())
        .collect();
    let series = BaseBarSeriesBuilder::new().with_bars(bars).build().unwrap();
    let record = BaseTradingRecord::new_with_type(TradeType::Buy, Some(2), Some(10), fee(0), ZeroCostModel::new());
    assert_eq!(record.start_index_with_series(&series), Some(2));
    assert_eq!(record.end_index_with_series(&series), Some(4));
    let open = BaseTradingRecord::new_with_type(TradeType::Buy, None, None, fee(0), ZeroCostModel::new());
    assert_eq!(open.start_index_with_series(&series), Some(0));
    assert_eq!(open.end_index_with_series(&series), Some(4));
}

#[test]
fn gross_return_without_entry_is_a_position_error() {
    let position = Position::new_buy(fee(1), ZeroCostModel::new());
    match position.get_gross_return(num(10), num(15)) {
        Err(NumError::PositionOperateError(message)) => {
            assert_eq!(message, "Cannot compute gross return: no entry trade");
        },
        _ => panic!("expected a position error"),
    }
}

#[test]
fn record_trades_alternate_between_entries_and_exits() {
    let mut record = BaseTradingRecord::new_with_type(TradeType::Sell, None, None, fee(1), ZeroCostModel::new());
    for i in 0..5 {
        record.operate(i);
    }
    let trades = record.trades();
    assert_eq!(trades.len(), 5);
    for (i, t) in trades.iter().enumerate() {
        let expected = if i % 2 == 0 { TradeType::Sell } else { TradeType::Buy };
        assert_eq!(t.get_type(), expected);
    }
    assert!(record.last_entry().unwrap().is_sell());
    assert!(record.last_exit().unwrap().is_buy());
}

# ta4r

Technical analysis of financial time series: bars and bar series, bar builders
and aggregators, trades, positions and trading records, and indicators computed
on a bar series. The library is written in Verus: every function in `src/`
carries a contract, and Verus proves the code against it.

## Layout

- `src/num.rs`: decimal numbers (backed by `rust_decimal`) with a NaN value that
  absorbs failed operations; the numeric errors.
- `src/trade.rs`, `src/position.rs`, `src/trading_record.rs`, `src/analysis/`:
  trades, positions (new, open, closed), the trading record and its laws, and
  the transaction and holding cost models.
- `src/bar/`: bars, the bar series (with an optional maximum bar count), its
  builder, and the time, tick, volume and Heikin-Ashi bar builders.
- `src/aggregator/`: aggregation of bars by duration and into Heikin-Ashi bars,
  and of a whole series.
- `src/indicators/`: the `Indicator` trait, the cache of computed values, and
  the price, average, range, cross, running-total and arithmetic indicators.
- `tests/`: tests of the library on concrete values.
- `app/`: what lies around the library: conversions to and from `rust_decimal`
  and `time` values, the floating-point multiplier of the exponential moving
  average, error types that implement `std::error::Error`, logging of trading
  records, and bar series shared between threads.

## Values and contracts

A number is described by its view: NaN or a mantissa and a scale. Arithmetic on
numbers goes through `rust_decimal`; what it returns is named in the contracts
rather than restated. Times and durations are held as nanoseconds (`i128`).

An indicator's value at an index is a spec function of the series
(`Indicator::spec_value`), and a read returns it wherever the indicator is exact
(`Indicator::exact_at`). An indicator that reads bars only is exact everywhere,
on series that have dropped old bars too. A cache holds values computed earlier,
so it is exact while the series has dropped no bar; the values it keeps agree
with `spec_value` there. A running total read at the index right after the one
it last computed takes one step from that total, and otherwise sums its window
afresh; it is exact where each step gives the window sum.

//! Aggregates consecutive bars into bars of a longer time period.
use vstd::prelude::*;
use crate::aggregator::types::{BarAggregator, unwrap_or_err};
use crate::bar::base_bar::{BaseBar, DecimalNumFactory};
use crate::bar::builder::time_bar_builder::TimeBarBuilder;
use crate::num::{DecView, DecimalNum, finite_view, spec_gt, spec_lt, spec_plus};

verus! {

/// `x > y` for optional prices, as `Option`'s order has it: nothing is below
/// any price.
pub open spec fn opt_gt(x: Option<DecimalNum>, y: Option<DecimalNum>) -> bool {
    match (x, y) {
        (Some(a), Some(b)) => spec_gt(a@, b@),
        (Some(_), None) => true,
        (None, _) => false,
    }
}

/// `x < y` for optional prices, as `Option`'s order has it: nothing is below
/// any price.
pub open spec fn opt_lt(x: Option<DecimalNum>, y: Option<DecimalNum>) -> bool {
    match (x, y) {
        (Some(a), Some(b)) => spec_lt(a@, b@),
        (None, Some(_)) => true,
        (_, None) => false,
    }
}

/// Index after the group of bars that starts at `start`, the scan being at `j`
/// with `sum` the periods of the bars taken so far: the group ends when the
/// summed periods reach the target period, at the end of the bars, or at a bar
/// that begins a target period or more after the first.
pub open spec fn scan_end(bars: Seq<BaseBar>, start: int, j: int, sum: int, period: int, actual: int) -> int
    decreases bars.len() - j,
{
    if !(sum < period) || j >= bars.len() || j < 0 {
        j
    } else if !(bars[j].begin_time - bars[start].begin_time < period) {
        j
    } else {
        scan_end(bars, start, j + 1, sum + actual, period, actual)
    }
}

/// The scan never goes back.
pub proof fn lemma_scan_end_ge(bars: Seq<BaseBar>, start: int, j: int, sum: int, period: int, actual: int)
    ensures
        scan_end(bars, start, j, sum, period, actual) >= j,
    decreases bars.len() - j,
{
    if !(sum < period) || j >= bars.len() || j < 0 {
    } else if !(bars[j].begin_time - bars[start].begin_time < period) {
    } else {
        lemma_scan_end_ge(bars, start, j + 1, sum + actual, period, actual);
    }
}

/// The scan stays within the bars.
pub proof fn lemma_scan_end_le(bars: Seq<BaseBar>, start: int, j: int, sum: int, period: int, actual: int)
    requires
        0 <= j <= bars.len(),
    ensures
        scan_end(bars, start, j, sum, period, actual) <= bars.len(),
    decreases bars.len() - j,
{
    if !(sum < period) || j >= bars.len() || j < 0 {
    } else if !(bars[j].begin_time - bars[start].begin_time < period) {
    } else {
        lemma_scan_end_le(bars, start, j + 1, sum + actual, period, actual);
    }
}

/// Index after the group of bars that starts at `start`.
pub open spec fn group_end(bars: Seq<BaseBar>, start: int, period: int, actual: int) -> int {
    scan_end(bars, start, start, 0, period, actual)
}

/// The highest price of the bars `start..j` (the first bar's to start with).
pub open spec fn fold_high(bars: Seq<BaseBar>, start: int, j: int) -> Option<DecimalNum>
    decreases j - start,
{
    if j <= start {
        bars[start].high_price
    } else {
        let h = fold_high(bars, start, j - 1);
        let x = bars[j - 1].high_price;
        if h is None || opt_gt(x, h) { x } else { h }
    }
}

/// The lowest price of the bars `start..j` (the first bar's to start with).
pub open spec fn fold_low(bars: Seq<BaseBar>, start: int, j: int) -> Option<DecimalNum>
    decreases j - start,
{
    if j <= start {
        bars[start].low_price
    } else {
        let l = fold_low(bars, start, j - 1);
        let x = bars[j - 1].low_price;
        if l is None || opt_lt(x, l) { x } else { l }
    }
}

/// The summed volume of the bars `start..j`.
pub open spec fn fold_volume(bars: Seq<BaseBar>, start: int, j: int) -> DecView
    decreases j - start,
{
    if j <= start {
        finite_view(0, 0)
    } else {
        spec_plus(fold_volume(bars, start, j - 1), bars[j - 1].volume@)
    }
}

/// The summed amounts (where set) of the bars `start..j`.
pub open spec fn fold_amount(bars: Seq<BaseBar>, start: int, j: int) -> DecView
    decreases j - start,
{
    if j <= start {
        finite_view(0, 0)
    } else {
        match bars[j - 1].amount {
            Some(a) => spec_plus(fold_amount(bars, start, j - 1), a@),
            None => fold_amount(bars, start, j - 1),
        }
    }
}

/// The summed trades of the bars `start..j`.
pub open spec fn fold_trades(bars: Seq<BaseBar>, start: int, j: int) -> int
    decreases j - start,
{
    if j <= start { 0 } else { fold_trades(bars, start, j - 1) + bars[j - 1].trades }
}

/// `out` aggregates the bars `s..e`: it begins with the first, lasts `period`,
/// opens at the first open, closes at the last close, and has their highest and
/// lowest prices, summed volume, amount and trades.
pub open spec fn aggregates_group(bars: Seq<BaseBar>, s: int, e: int, period: i128, out: BaseBar) -> bool {
    &&& out.time_period == period
    &&& out.begin_time == bars[s].begin_time
    &&& out.end_time == bars[s].begin_time + period
    &&& out.open_price == bars[s].open_price && out.open_price is Some
    &&& out.high_price == fold_high(bars, s, e) && out.high_price is Some
    &&& out.low_price == fold_low(bars, s, e) && out.low_price is Some
    &&& out.close_price == bars[e - 1].close_price && out.close_price is Some
    &&& out.volume@ == fold_volume(bars, s, e)
    &&& out.amount matches Some(a) && a@ == fold_amount(bars, s, e)
    &&& out.trades == fold_trades(bars, s, e)
}

/// The highest price folded over the bars `start..j` is at least every high
/// price among them and is one of them; it is missing only when all are.
pub proof fn lemma_fold_high_is_highest(bars: Seq<BaseBar>, start: int, j: int)
    requires
        0 <= start < j <= bars.len(),
    ensures
        fold_high(bars, start, j) matches Some(h) ==> {
            &&& forall|i: int| #![trigger bars[i]] start <= i < j ==> (bars[i].high_price matches Some(x) ==> !spec_gt(x@, h@))
            &&& exists|i: int| start <= i < j && #[trigger] bars[i].high_price == Some(h)
        },
        fold_high(bars, start, j) is None ==> forall|i: int| start <= i < j ==> #[trigger] bars[i].high_price is None,
    decreases j - start,
{
    if j - 1 > start {
        lemma_fold_high_is_highest(bars, start, j - 1);
        let h = fold_high(bars, start, j - 1);
        let x = bars[j - 1].high_price;
        if h is None || opt_gt(x, h) {
            if let Some(v) = x {
                assert(bars[j - 1].high_price == Some(v));
            }
        } else {
            let w = h.unwrap();
            assert(exists|i: int| start <= i < j - 1 && #[trigger] bars[i].high_price == Some(w));
        }
    } else {
        assert(fold_high(bars, start, j - 1) == bars[start].high_price);
        if let Some(v) = bars[start].high_price {
            assert(bars[start].high_price == Some(v));
        }
    }
}

/// Where every bar of `start..j` has a low price, the lowest price folded over
/// them is at most each of them and is one of them. (A missing low price sorts
/// below every price, so it would reset the fold.)
pub proof fn lemma_fold_low_is_lowest(bars: Seq<BaseBar>, start: int, j: int)
    requires
        0 <= start < j <= bars.len(),
        forall|i: int| start <= i < j ==> #[trigger] bars[i].low_price is Some,
    ensures
        fold_low(bars, start, j) matches Some(lo) && {
            &&& forall|i: int| #![trigger bars[i]] start <= i < j ==> (bars[i].low_price matches Some(x) ==> !spec_lt(x@, lo@))
            &&& exists|i: int| start <= i < j && #[trigger] bars[i].low_price == Some(lo)
        },
    decreases j - start,
{
    if j - 1 > start {
        lemma_fold_low_is_lowest(bars, start, j - 1);
        let lo = fold_low(bars, start, j - 1);
        let x = bars[j - 1].low_price;
        assert(x is Some);
        if opt_lt(x, lo) {
            assert(bars[j - 1].low_price == Some(x.unwrap()));
        } else {
            let w = lo.unwrap();
            assert(exists|i: int| start <= i < j - 1 && #[trigger] bars[i].low_price == Some(w));
        }
    } else {
        assert(bars[start].low_price is Some);
        assert(fold_low(bars, start, j - 1) == bars[start].low_price);
        assert(bars[start].low_price == Some(bars[start].low_price.unwrap()));
    }
}

/// Each bar made from a group of bars has, as its high price, the highest
/// high price of the group (at least every one of them, and one of them), and,
/// where every bar of the group has a low price, as its low price the lowest.
pub proof fn law_aggregated_extremes(bars: Seq<BaseBar>, s: int, e: int, period: i128, out: BaseBar)
    requires
        0 <= s < e <= bars.len(),
        aggregates_group(bars, s, e, period, out),
    ensures
        out.high_price matches Some(h) && {
            &&& forall|i: int| #![trigger bars[i]] s <= i < e ==> (bars[i].high_price matches Some(x) ==> !spec_gt(x@, h@))
            &&& exists|i: int| s <= i < e && #[trigger] bars[i].high_price == Some(h)
        },
        (forall|i: int| s <= i < e ==> #[trigger] bars[i].low_price is Some) ==> (out.low_price matches Some(lo) && {
            &&& forall|i: int| #![trigger bars[i]] s <= i < e ==> (bars[i].low_price matches Some(x) ==> !spec_lt(x@, lo@))
            &&& exists|i: int| s <= i < e && #[trigger] bars[i].low_price == Some(lo)
        }),
{
    lemma_fold_high_is_highest(bars, s, e);
    if forall|i: int| s <= i < e ==> #[trigger] bars[i].low_price is Some {
        lemma_fold_low_is_lowest(bars, s, e);
    }
}

/// Whole seconds of a duration in nanoseconds (truncated toward zero).
pub open spec fn whole_seconds(d: int) -> int {
    if d >= 0 { d / 1_000_000_000 } else { -((-d) / 1_000_000_000) }
}

/// The scan of the group that starts at `start`, now at `j` with `sum` the
/// periods of the bars taken so far, meets no overflow: each begin time it
/// compares differs from the first by an amount an `i128` holds, the trade count
/// fits a `u64` and the summed periods fit an `i128`.
pub open spec fn scan_ok(bars: Seq<BaseBar>, start: int, j: int, sum: int, period: int, actual: int) -> bool
    decreases bars.len() - j,
{
    if !(sum < period) || j >= bars.len() || j < 0 {
        true
    } else if !(i128::MIN <= bars[j].begin_time - bars[start].begin_time <= i128::MAX) {
        false
    } else if !(bars[j].begin_time - bars[start].begin_time < period) {
        true
    } else if fold_trades(bars, start, j + 1) > u64::MAX {
        false
    } else if !(i128::MIN <= sum + actual <= i128::MAX) {
        false
    } else {
        scan_ok(bars, start, j + 1, sum + actual, period, actual)
    }
}

/// The summed periods of the bars that the scan of `scan_end` takes.
pub open spec fn scan_sum(bars: Seq<BaseBar>, start: int, j: int, sum: int, period: int, actual: int) -> int
    decreases bars.len() - j,
{
    if !(sum < period) || j >= bars.len() || j < 0 {
        sum
    } else if !(bars[j].begin_time - bars[start].begin_time < period) {
        sum
    } else {
        scan_sum(bars, start, j + 1, sum + actual, period, actual)
    }
}

/// The summed periods of the bars of the group that starts at `start`.
pub open spec fn group_sum(bars: Seq<BaseBar>, start: int, period: int, actual: int) -> int {
    scan_sum(bars, start, start, 0, period, actual)
}

/// The group that starts at `start` is left out: only final bars are asked
/// for, and it is the last group and unfinished (the bars ran out before their
/// summed periods reached the target period).
pub open spec fn left_out(bars: Seq<BaseBar>, start: int, period: int, actual: int, only_final: bool) -> bool {
    &&& only_final
    &&& group_end(bars, start, period, actual) == bars.len()
    &&& group_sum(bars, start, period, actual) < period
}

/// The group that starts at `start` is handled without error: its scan meets no
/// overflow and, unless it is left out, its four prices are set and its end
/// time fits an `i128`.
pub open spec fn group_ok(bars: Seq<BaseBar>, start: int, period: int, actual: int, only_final: bool) -> bool {
    let e = group_end(bars, start, period, actual);
    &&& scan_ok(bars, start, start, 0, period, actual)
    &&& left_out(bars, start, period, actual, only_final) || {
        &&& bars[start].open_price is Some
        &&& fold_high(bars, start, e) is Some
        &&& fold_low(bars, start, e) is Some
        &&& e > start && bars[e - 1].close_price is Some
        &&& i128::MIN <= bars[start].begin_time + period <= i128::MAX
    }
}

/// Every group from `start` on is handled without error.
pub open spec fn all_groups_ok(bars: Seq<BaseBar>, start: int, period: int, actual: int, only_final: bool) -> bool
    decreases bars.len() - start,
{
    if start < 0 || start >= bars.len() {
        true
    } else {
        let e = group_end(bars, start, period, actual);
        &&& group_ok(bars, start, period, actual, only_final)
        &&& start < e <= bars.len() ==> all_groups_ok(bars, e, period, actual, only_final)
    }
}

/// `a` is a whole multiple of `b`.
pub open spec fn is_multiple(a: int, b: int) -> bool {
    (if a < 0 { -a } else { a }) % (if b < 0 { -b } else { b }) == 0
}

/// `starts` cuts `input` into the groups that make `output`: the groups follow
/// one another from the first bar, each as `group_end` says and none empty,
/// each makes its bar, and they reach the last bar but for a last group that is
/// left out.
pub open spec fn group_starts(input: Seq<BaseBar>, period: i128, only_final: bool, output: Seq<BaseBar>, starts: Seq<int>) -> bool {
    &&& starts.len() == output.len() + 1
    &&& starts[0] == 0
    &&& (starts[output.len() as int] == input.len() || {
        &&& starts[output.len() as int] < input.len()
        &&& left_out(input, starts[output.len() as int], period as int, input[0].time_period as int, only_final)
    })
    &&& forall|k: int| 0 <= k < output.len() ==> {
        &&& #[trigger] starts[k + 1] == group_end(input, starts[k], period as int, input[0].time_period as int)
        &&& starts[k] < starts[k + 1]
        &&& aggregates_group(input, starts[k], starts[k + 1], period, output[k])
    }
}

/// `output` is `input` aggregated into bars of `period`: some cut of `input`
/// into groups makes it (see `group_starts`).
pub open spec fn duration_aggregation(input: Seq<BaseBar>, period: i128, only_final: bool, output: Seq<BaseBar>) -> bool {
    &&& input.len() == 0 ==> output.len() == 0
    &&& input.len() > 0 ==> exists|starts: Seq<int>| #[trigger] group_starts(input, period, only_final, output, starts)
}

/// The groups that make the bars of an aggregation end within the input bars.
proof fn lemma_group_starts_below(input: Seq<BaseBar>, period: i128, only_final: bool, output: Seq<BaseBar>, starts: Seq<int>, k: int)
    requires
        group_starts(input, period, only_final, output, starts),
        0 <= k <= output.len(),
    ensures
        starts[k] <= input.len(),
    decreases output.len() - k,
{
    if k < output.len() {
        lemma_group_starts_below(input, period, only_final, output, starts, k + 1);
        assert(starts[k] < starts[k + 1]);
    }
}

/// The groups that make the bars of an aggregation start within the input bars.
proof fn lemma_group_starts_above(input: Seq<BaseBar>, period: i128, only_final: bool, output: Seq<BaseBar>, starts: Seq<int>, k: int)
    requires
        group_starts(input, period, only_final, output, starts),
        0 <= k <= output.len(),
    ensures
        k <= starts[k],
    decreases k,
{
    if k > 0 {
        lemma_group_starts_above(input, period, only_final, output, starts, k - 1);
        let j = k - 1;
        assert(starts[j] < starts[j + 1]);
    }
}

/// Each bar of an aggregation is made from a nonempty group of consecutive
/// input bars: it begins when the group begins, closes at the close of its last
/// bar, and its high price is the highest high of the group (at least every
/// one of them, and one of them); where every bar of the group has a low price,
/// its low price is likewise the lowest low.
pub proof fn law_aggregation_extremes(input: Seq<BaseBar>, period: i128, only_final: bool, output: Seq<BaseBar>, k: int)
    requires
        duration_aggregation(input, period, only_final, output),
        0 <= k < output.len(),
    ensures
        exists|s: int, e: int| {
            &&& 0 <= s < e <= input.len()
            &&& #[trigger] output[k].begin_time == #[trigger] input[s].begin_time
            &&& #[trigger] input[e - 1].close_price == output[k].close_price
            &&& output[k].high_price matches Some(h) && {
                &&& forall|i: int| #![trigger input[i]] s <= i < e ==> (input[i].high_price matches Some(x) ==> !spec_gt(x@, h@))
                &&& exists|i: int| s <= i < e && #[trigger] input[i].high_price == Some(h)
            }
            &&& (forall|i: int| s <= i < e ==> #[trigger] input[i].low_price is Some) ==> (output[k].low_price matches Some(lo) && {
                &&& forall|i: int| #![trigger input[i]] s <= i < e ==> (input[i].low_price matches Some(x) ==> !spec_lt(x@, lo@))
                &&& exists|i: int| s <= i < e && #[trigger] input[i].low_price == Some(lo)
            })
        },
{
    let starts = choose|starts: Seq<int>| #[trigger] group_starts(input, period, only_final, output, starts);
    lemma_group_starts_below(input, period, only_final, output, starts, k + 1);
    lemma_group_starts_above(input, period, only_final, output, starts, k);
    let (s, e) = (starts[k], starts[k + 1]);
    assert(s < e);
    law_aggregated_extremes(input, s, e, period, output[k]);
    assert(input[e - 1].close_price == output[k].close_price);
}

/// Aggregates bars into bars of `time_period`.
pub struct DurationBarAggregator {
    pub time_period: i128,
    pub only_final_bars: bool,
}

impl DurationBarAggregator {
    pub fn new(time_period: i128, only_final_bars: bool) -> (r: DurationBarAggregator)
        ensures
            r.time_period == time_period,
            r.only_final_bars == only_final_bars,
    {
        DurationBarAggregator { time_period, only_final_bars }
    }

    /// `current` begins less than a period after `start`.
    pub fn begin_times_in_duration(&self, start: i128, current: i128) -> (r: bool)
        requires
            i128::MIN <= current - start <= i128::MAX,
        ensures
            r == (current - start < self.time_period),
    {
        (current - start) < self.time_period
    }

    /// `duration` is shorter than a period.
    pub fn is_in_duration(&self, duration: i128) -> (r: bool)
        ensures
            r == (duration < self.time_period),
    {
        duration < self.time_period
    }
}

/// Whole seconds of a duration in nanoseconds.
fn whole_seconds_of(d: i128) -> (r: i128)
    ensures
        r == whole_seconds(d as int),
{
    if d >= 0 {
        d / 1_000_000_000
    } else if d == i128::MIN {
        -((i128::MAX / 1_000_000_000))
    } else {
        -((-d) / 1_000_000_000)
    }
}

impl BarAggregator for DurationBarAggregator {
    open spec fn aggregates(&self, input: Seq<BaseBar>, output: Seq<BaseBar>) -> bool {
        duration_aggregation(input, self.time_period, self.only_final_bars, output)
    }

    /// The bars' period is at least a second (or there are no bars).
    open spec fn accepts(&self, input: Seq<BaseBar>) -> bool {
        input.len() > 0 ==> whole_seconds(input[0].time_period as int) != 0
    }

    /// No bars, or the period is a multiple of the bars' period (in whole
    /// seconds) and every group makes a bar.
    open spec fn succeeds(&self, input: Seq<BaseBar>) -> bool {
        input.len() == 0 || {
            &&& is_multiple(whole_seconds(self.time_period as int), whole_seconds(input[0].time_period as int))
            &&& all_groups_ok(input, 0, self.time_period as int, input[0].time_period as int, self.only_final_bars)
        }
    }

    /// Groups consecutive bars (see `duration_aggregation`); with only final
    /// bars asked for, an unfinished last group is left out. An error if the
    /// period is not a multiple of the bars' period (in whole seconds), a group
    /// misses a price, or a time, trade count or duration sum overflows.
    fn aggregate(&self, bars: &[BaseBar]) -> (r: Result<Vec<BaseBar>, String>)
        ensures
            bars@.len() > 0 && !is_multiple(whole_seconds(self.time_period as int), whole_seconds(bars@[0].time_period as int))
                ==> (r matches Err(e) && e@ == "New time_period must be multiple of actual bar time_period"@),
    {
        let mut aggregated: Vec<BaseBar> = Vec::new();
        if bars.len() == 0 {
            return Ok(aggregated);
        }
        let actual_dur = bars[0].time_period;
        let target_seconds = whole_seconds_of(self.time_period);
        let actual_seconds = whole_seconds_of(actual_dur);
        let target_abs = if target_seconds < 0 { -target_seconds } else { target_seconds };
        let actual_abs = if actual_seconds < 0 { -actual_seconds } else { actual_seconds };
        if target_abs % actual_abs != 0 {
            return Err("New time_period must be multiple of actual bar time_period".to_string());
        }
        let zero = DecimalNum::zero();
        let ghost input = bars@;
        let ghost period = self.time_period as int;
        let ghost mut starts: Seq<int> = seq![0int];
        let mut i: usize = 0;
        while i < bars.len()
            invariant
                input == bars@,
                period == self.time_period,
                actual_dur == input[0].time_period,
                is_multiple(whole_seconds(period), whole_seconds(actual_dur as int)),
                zero@ == finite_view(0, 0),
                0 <= i <= input.len(),
                all_groups_ok(input, 0, period, actual_dur as int, self.only_final_bars) == all_groups_ok(input, i as int, period, actual_dur as int, self.only_final_bars),
                starts.len() == aggregated@.len() + 1,
                starts[0] == 0,
                starts[aggregated@.len() as int] == i,
                forall|k: int| 0 <= k < aggregated@.len() ==> {
                    &&& #[trigger] starts[k + 1] == group_end(input, starts[k], period, actual_dur as int)
                    &&& starts[k] < starts[k + 1]
                    &&& aggregates_group(input, starts[k], starts[k + 1], self.time_period, aggregated@[k])
                },
            decreases input.len() - i,
        {
            let ghost s = i as int;
            let first_bar = bars[i];
            let begin_time = first_bar.begin_time;
            let open = first_bar.open_price;
            let mut high = first_bar.high_price;
            let mut low = first_bar.low_price;
            let mut close: Option<DecimalNum> = None;
            let mut volume = zero;
            let mut amount = zero;
            let mut trades: u64 = 0;
            let mut sum_dur: i128 = 0;
            while self.is_in_duration(sum_dur) && i < bars.len()
                invariant
                    input == bars@,
                    period == self.time_period,
                    s < input.len(),
                    begin_time == input[s].begin_time,
                    s <= i <= input.len(),
                    actual_dur == input[0].time_period,
                    is_multiple(whole_seconds(period), whole_seconds(actual_dur as int)),
                    all_groups_ok(input, 0, period, actual_dur as int, self.only_final_bars) == all_groups_ok(input, s, period, actual_dur as int, self.only_final_bars),
                    scan_end(input, s, i as int, sum_dur as int, period, actual_dur as int) == group_end(input, s, period, actual_dur as int),
                    scan_ok(input, s, i as int, sum_dur as int, period, actual_dur as int) == scan_ok(input, s, s, 0, period, actual_dur as int),
                    high == fold_high(input, s, i as int),
                    low == fold_low(input, s, i as int),
                    i > s ==> close == input[i - 1].close_price,
                    i == s ==> close is None,
                    scan_sum(input, s, i as int, sum_dur as int, period, actual_dur as int) == group_sum(input, s, period, actual_dur as int),
                    volume@ == fold_volume(input, s, i as int),
                    amount@ == fold_amount(input, s, i as int),
                    trades == fold_trades(input, s, i as int),
                ensures
                    i == group_end(input, s, period, actual_dur as int),
                    scan_ok(input, s, s, 0, period, actual_dur as int),
                    i > s ==> close == input[i - 1].close_price,
                    i == s ==> close is None,
                    sum_dur == group_sum(input, s, period, actual_dur as int),
                    high == fold_high(input, s, i as int),
                    low == fold_low(input, s, i as int),
                    volume@ == fold_volume(input, s, i as int),
                    amount@ == fold_amount(input, s, i as int),
                    trades == fold_trades(input, s, i as int),
                decreases input.len() - i,
            {
                let bar = bars[i];
                let since_begin = match bar.begin_time.checked_sub(begin_time) {
                    Some(d) => d,
                    None => {
                        proof {
                            assert(!scan_ok(input, s, i as int, sum_dur as int, period, actual_dur as int));
                            assert(!all_groups_ok(input, s, period, actual_dur as int, self.only_final_bars));
                        }
                        return Err("Time difference overflow".to_string());
                    },
                };
                if !self.begin_times_in_duration(begin_time, bar.begin_time) {
                    break;
                }
                let bigger_high = match (bar.high_price, high) {
                    (Some(a), Some(b)) => a.is_greater_than(&b),
                    (Some(_), None) => true,
                    (None, _) => false,
                };
                if high.is_none() || bigger_high {
                    high = bar.high_price;
                }
                let smaller_low = match (bar.low_price, low) {
                    (Some(a), Some(b)) => a.is_less_than(&b),
                    (None, Some(_)) => true,
                    (_, None) => false,
                };
                if low.is_none() || smaller_low {
                    low = bar.low_price;
                }
                close = bar.close_price;
                volume = volume.plus(&bar.volume);
                match bar.amount {
                    Some(a) => {
                        amount = amount.plus(&a);
                    },
                    None => {},
                }
                trades = match trades.checked_add(bar.trades) {
                    Some(t) => t,
                    None => {
                        return Err("Trade count overflow".to_string());
                    },
                };
                sum_dur = match sum_dur.checked_add(actual_dur) {
                    Some(d) => d,
                    None => {
                        proof {
                            assert(!scan_ok(input, s, i as int, sum_dur as int, period, actual_dur as int));
                            assert(!all_groups_ok(input, s, period, actual_dur as int, self.only_final_bars));
                        }
                        return Err("Duration overflow".to_string());
                    },
                };
                i = i + 1;
            }
            if self.only_final_bars && i == bars.len() && sum_dur < self.time_period {
                proof {
                    assert(left_out(input, s, period, actual_dur as int, self.only_final_bars));
                    assert(group_ok(input, s, period, actual_dur as int, self.only_final_bars));
                    assert(all_groups_ok(input, input.len() as int, period, actual_dur as int, self.only_final_bars));
                    assert(all_groups_ok(input, s, period, actual_dur as int, self.only_final_bars));
                    assert(group_starts(input, self.time_period, self.only_final_bars, aggregated@, starts));
                    assert(duration_aggregation(input, self.time_period, self.only_final_bars, aggregated@));
                }
                return Ok(aggregated);
            }
            {
                let open = unwrap_or_err(open, "open price")?;
                let high = unwrap_or_err(high, "high price")?;
                let low = unwrap_or_err(low, "low price")?;
                let close = unwrap_or_err(close, "close price")?;
                let end_time = match begin_time.checked_add(self.time_period) {
                    Some(t) => t,
                    None => {
                        return Err("End time overflow".to_string());
                    },
                };
                let mut builder = TimeBarBuilder::new_with_factory(DecimalNumFactory::instance());
                builder
                    .time_period(self.time_period)
                    .begin_time(begin_time)
                    .end_time(end_time)
                    .open_price(open)
                    .high_price(high)
                    .low_price(low)
                    .close_price(close)
                    .volume(volume)
                    .amount(amount)
                    .trades(trades);
                let bar = builder.build()?;
                let ghost pre = aggregated@;
                aggregated.push(bar);
                proof {
                    assert(group_ok(input, s, period, actual_dur as int, self.only_final_bars));
                    let pre_starts = starts;
                    starts = starts.push(i as int);
                    assert forall|k: int| 0 <= k < aggregated@.len() implies {
                        &&& #[trigger] starts[k + 1] == group_end(input, starts[k], period, actual_dur as int)
                        &&& starts[k] < starts[k + 1]
                        &&& aggregates_group(input, starts[k], starts[k + 1], self.time_period, aggregated@[k])
                    } by {
                        if k < pre.len() {
                            assert(starts[k] == pre_starts[k]);
                            assert(starts[k + 1] == pre_starts[k + 1]);
                            assert(aggregated@[k] == pre[k]);
                        } else {
                            assert(starts[k] == s);
                        }
                    }
                }
            }
        }
        proof {
            assert(group_starts(input, self.time_period, self.only_final_bars, aggregated@, starts));
        }
        Ok(aggregated)
    }
}

} // verus!

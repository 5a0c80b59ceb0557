//! Trading records: the trades made on a bar series, grouped into positions.
use vstd::prelude::*;
use crate::analysis::cost::CostModel;
use crate::num::DecimalNum;
use crate::position::{Position, PositionView, new_position_view};
use crate::trade::{Trade, TradeType};
use crate::bar::base_bar_series::BaseBarSeries;

verus! {

pub open spec fn buys_of<CM: CostModel>(s: Seq<Trade<CM>>) -> Seq<Trade<CM>> {
    s.filter(|t: Trade<CM>| t.trade_type == TradeType::Buy)
}

pub open spec fn sells_of<CM: CostModel>(s: Seq<Trade<CM>>) -> Seq<Trade<CM>> {
    s.filter(|t: Trade<CM>| t.trade_type == TradeType::Sell)
}

/// What a trading record holds.
pub struct RecordView<CM: CostModel, HM: CostModel> {
    pub name: Option<String>,
    pub start_index: Option<usize>,
    pub end_index: Option<usize>,
    pub trades: Seq<Trade<CM>>,
    pub buy_trades: Seq<Trade<CM>>,
    pub sell_trades: Seq<Trade<CM>>,
    pub entry_trades: Seq<Trade<CM>>,
    pub exit_trades: Seq<Trade<CM>>,
    pub starting_type: TradeType,
    pub positions: Seq<PositionView<CM, HM>>,
    pub current_position: PositionView<CM, HM>,
    pub transaction_cost_model: CM,
    pub holding_cost_model: HM,
}

impl<CM: CostModel, HM: CostModel> RecordView<CM, HM> {
    /// 1 while the current position is open, else 0.
    pub open spec fn open_count(self) -> int {
        if self.current_position.is_opened() { 1 } else { 0 }
    }

    /// The structure every trading record keeps: the current position is new or
    /// open and has the record's starting type and cost models; the recorded
    /// positions are closed, with the same starting type and models; the trades
    /// are, in order, the entry and the exit of each recorded position, followed
    /// by the entry of the current position if it is open; the entry, exit, buy
    /// and sell lists are the matching parts of the trades.
    pub open spec fn wf(self) -> bool {
        let n = self.positions.len();
        &&& self.current_position.exit is None
        &&& self.current_position.wf()
        &&& self.current_position.starting_type == self.starting_type
        &&& self.current_position.transaction_cost_model == self.transaction_cost_model
        &&& self.current_position.holding_cost_model == self.holding_cost_model
        &&& forall|i: int| 0 <= i < n ==> {
            &&& (#[trigger] self.positions[i]).is_closed()
            &&& self.positions[i].wf()
            &&& self.positions[i].starting_type == self.starting_type
            &&& self.positions[i].transaction_cost_model == self.transaction_cost_model
            &&& self.positions[i].holding_cost_model == self.holding_cost_model
        }
        &&& self.trades.len() == 2 * n + self.open_count()
        &&& self.entry_trades.len() == n + self.open_count()
        &&& self.exit_trades.len() == n
        &&& forall|i: int| 0 <= i < n ==> {
            &&& self.trades[2 * i] == (#[trigger] self.positions[i]).entry.unwrap()
            &&& self.trades[2 * i + 1] == self.positions[i].exit.unwrap()
            &&& self.entry_trades[i] == self.positions[i].entry.unwrap()
            &&& self.exit_trades[i] == self.positions[i].exit.unwrap()
        }
        &&& self.current_position.is_opened() ==> {
            &&& self.trades[2 * n as int] == self.current_position.entry.unwrap()
            &&& self.entry_trades[n as int] == self.current_position.entry.unwrap()
        }
        &&& self.buy_trades == buys_of(self.trades)
        &&& self.sell_trades == sells_of(self.trades)
    }

    /// `post` is `self` after a trade `t` was recorded by operating the current position.
    pub open spec fn recorded(self, t: Trade<CM>, post: Self) -> bool {
        &&& post.name == self.name
        &&& post.start_index == self.start_index
        &&& post.end_index == self.end_index
        &&& post.starting_type == self.starting_type
        &&& post.transaction_cost_model == self.transaction_cost_model
        &&& post.holding_cost_model == self.holding_cost_model
        &&& post.trades == self.trades.push(t)
        &&& if self.current_position.is_new() {
            &&& post.entry_trades == self.entry_trades.push(t)
            &&& post.exit_trades == self.exit_trades
            &&& post.positions == self.positions
            &&& post.current_position == PositionView { entry: Some(t), ..self.current_position }
        } else {
            &&& post.entry_trades == self.entry_trades
            &&& post.exit_trades == self.exit_trades.push(t)
            &&& post.positions == self.positions.push(PositionView { exit: Some(t), ..self.current_position })
            &&& post.current_position == new_position_view(
                self.starting_type,
                self.transaction_cost_model,
                self.holding_cost_model,
            )
        }
    }

    /// The recorded positions: the closed ones, then the current one if open.
    pub open spec fn recorded_positions(self) -> Seq<PositionView<CM, HM>> {
        if self.current_position.is_opened() {
            self.positions.push(self.current_position)
        } else {
            self.positions
        }
    }

    /// Operating at `index` is allowed: an open position cannot be closed at an
    /// index before its entry.
    pub open spec fn may_operate(self, index: usize) -> bool {
        self.current_position.is_opened() ==> index >= self.current_position.entry.unwrap().index
    }
}

/// Recording an entry while the current position is new, then an exit, adds
/// one closed position made of the two trades, leaves a new current position,
/// and appends the two trades, in order, to the trades.
pub proof fn law_entry_then_exit<CM: CostModel, HM: CostModel>(
    r0: RecordView<CM, HM>,
    entry: Trade<CM>,
    r1: RecordView<CM, HM>,
    exit: Trade<CM>,
    r2: RecordView<CM, HM>,
)
    requires
        r0.wf(),
        r0.current_position.is_new(),
        r0.recorded(entry, r1),
        r1.recorded(exit, r2),
    ensures
        r1.current_position.is_opened(),
        r2.positions == r0.positions.push(PositionView { entry: Some(entry), exit: Some(exit), ..r0.current_position }),
        r2.positions.last().is_closed(),
        r2.current_position.is_new(),
        r2.trades == r0.trades.push(entry).push(exit),
        r2.entry_trades == r0.entry_trades.push(entry),
        r2.exit_trades == r0.exit_trades.push(exit),
{
}

/// In a well-formed record the trades alternate: entries, of the starting
/// type, at even places and exits, of the other type, at odd places.
pub proof fn law_trades_alternate<CM: CostModel, HM: CostModel>(r: RecordView<CM, HM>)
    requires
        r.wf(),
    ensures
        forall|i: int| 0 <= i < r.trades.len() ==> (#[trigger] r.trades[i]).trade_type == (if i % 2 == 0 {
            r.starting_type
        } else {
            crate::trade::spec_complement(r.starting_type)
        }),
        forall|i: int| 0 <= i < r.entry_trades.len() ==> (#[trigger] r.entry_trades[i]).trade_type == r.starting_type,
        forall|i: int| 0 <= i < r.exit_trades.len() ==> (#[trigger] r.exit_trades[i]).trade_type
            == crate::trade::spec_complement(r.starting_type),
{
    let n = r.positions.len();
    assert forall|i: int| 0 <= i < r.trades.len() implies (#[trigger] r.trades[i]).trade_type == (if i % 2 == 0 {
        r.starting_type
    } else {
        crate::trade::spec_complement(r.starting_type)
    }) by {
        let k = i / 2;
        assert(i == 2 * k + i % 2);
        if k < n {
            assert(r.positions[k].wf());
        }
    }
    assert forall|i: int| 0 <= i < r.entry_trades.len() implies (#[trigger] r.entry_trades[i]).trade_type == r.starting_type by {
        if i < n {
            assert(r.positions[i].wf());
        }
    }
    assert forall|i: int| 0 <= i < r.exit_trades.len() implies (#[trigger] r.exit_trades[i]).trade_type
        == crate::trade::spec_complement(r.starting_type) by {
        assert(r.positions[i].wf());
    }
}

/// What `log_trading_record` reports, line by line.
#[derive(Clone, Debug)]
pub enum RecordLogLine {
    /// The summary: name, number of trades, number of positions.
    Summary { name: String, trades: usize, positions: usize },
    /// The trade at this index of the trade list.
    Trade { index: usize },
    /// This many trades are not shown.
    Omitted { count: usize },
}

/// The trade indices that `log_trading_record` shows for `total` trades: all of
/// them up to 20, else the first 10 and the last 10.
pub open spec fn shown_trade_lines(total: nat) -> Seq<RecordLogLine> {
    if total <= 20 {
        Seq::new(total, |i: int| RecordLogLine::Trade { index: i as usize })
    } else {
        Seq::new(10, |i: int| RecordLogLine::Trade { index: i as usize })
            + seq![RecordLogLine::Omitted { count: (total - 20) as usize }]
            + Seq::new(10, |i: int| RecordLogLine::Trade { index: (total - 10 + i) as usize })
    }
}

/// The operations of a trading record.
pub trait TradingRecord<CM: CostModel, HM: CostModel> {
    /// The record is well formed.
    spec fn inv(&self) -> bool;

    /// Operating at `index` is allowed.
    spec fn may_operate(&self, index: usize) -> bool;

    fn starting_type(&self) -> TradeType;

    fn name(&self) -> &str;

    fn operate(&mut self, index: usize)
        requires
            old(self).inv(),
            old(self).may_operate(index),
    ;

    fn operate_with_price_amount(&mut self, index: usize, price: DecimalNum, amount: DecimalNum)
        requires
            old(self).inv(),
            old(self).may_operate(index),
    ;

    fn enter(&mut self, index: usize) -> bool
        requires
            old(self).inv(),
    ;

    fn enter_with_price_amount(&mut self, index: usize, price: DecimalNum, amount: DecimalNum) -> bool
        requires
            old(self).inv(),
    ;

    fn exit(&mut self, index: usize) -> bool
        requires
            old(self).inv(),
            old(self).may_operate(index),
    ;

    fn exit_with_price_amount(&mut self, index: usize, price: DecimalNum, amount: DecimalNum) -> bool
        requires
            old(self).inv(),
            old(self).may_operate(index),
    ;

    fn is_closed(&self) -> bool;

    fn transaction_cost_model(&self) -> &CM;

    fn holding_cost_model(&self) -> &HM;

    /// The recorded positions: the closed ones, then the current one if open.
    fn positions(&self) -> Vec<Position<CM, HM>>;

    /// The number of recorded positions.
    fn position_count(&self) -> usize
        requires
            self.inv(),
    ;

    fn current_position(&self) -> &Position<CM, HM>;

    /// The last recorded position, open or closed.
    fn last_position(&self) -> Option<Position<CM, HM>>;

    fn trades(&self) -> &[Trade<CM>];

    fn last_trade(&self) -> Option<&Trade<CM>>;

    fn last_trade_of_type(&self, trade_type: TradeType) -> Option<&Trade<CM>>;

    fn last_entry(&self) -> Option<&Trade<CM>>;

    fn last_exit(&self) -> Option<&Trade<CM>>;

    /// The index where the record starts, if set.
    spec fn spec_start_index(&self) -> Option<usize>;

    /// The index where the record ends, if set.
    spec fn spec_end_index(&self) -> Option<usize>;

    fn start_index(&self) -> (r: Option<usize>)
        ensures
            r == self.spec_start_index(),
    ;

    fn end_index(&self) -> (r: Option<usize>)
        ensures
            r == self.spec_end_index(),
    ;

    /// The later of the record's start and the series' begin index.
    fn start_index_with_series(&self, series: &BaseBarSeries) -> (r: Option<usize>)
        ensures
            r == later_index(self.spec_start_index(), series@.begin_index),
    {
        match (self.start_index(), series.get_begin_index()) {
            (Some(s), Some(begin)) => Some(if s >= begin { s } else { begin }),
            (Some(s), None) => Some(s),
            (None, Some(begin)) => Some(begin),
            (None, None) => None,
        }
    }

    /// The earlier of the record's end and the series' end index.
    fn end_index_with_series(&self, series: &BaseBarSeries) -> (r: Option<usize>)
        ensures
            r == earlier_index(self.spec_end_index(), series@.end_index),
    {
        match (self.end_index(), series.get_end_index()) {
            (Some(e), Some(series_end)) => Some(if e <= series_end { e } else { series_end }),
            (Some(e), None) => Some(e),
            (None, Some(series_end)) => Some(series_end),
            (None, None) => None,
        }
    }
}

/// The larger of two optional indices, or the one given.
pub open spec fn later_index(a: Option<usize>, b: Option<usize>) -> Option<usize> {
    match (a, b) {
        (Some(x), Some(y)) => Some(if x >= y { x } else { y }),
        (Some(x), None) => Some(x),
        (None, Some(y)) => Some(y),
        (None, None) => None,
    }
}

/// The smaller of two optional indices, or the one given.
pub open spec fn earlier_index(a: Option<usize>, b: Option<usize>) -> Option<usize> {
    match (a, b) {
        (Some(x), Some(y)) => Some(if x <= y { x } else { y }),
        (Some(x), None) => Some(x),
        (None, Some(y)) => Some(y),
        (None, None) => None,
    }
}

/// A trading record that keeps its trades, split by type and by role, and its
/// positions.
pub struct BaseTradingRecord<CM: CostModel, HM: CostModel> {
    name: Option<String>,
    start_index: Option<usize>,
    end_index: Option<usize>,
    trades: Vec<Trade<CM>>,
    buy_trades: Vec<Trade<CM>>,
    sell_trades: Vec<Trade<CM>>,
    entry_trades: Vec<Trade<CM>>,
    exit_trades: Vec<Trade<CM>>,
    starting_type: TradeType,
    positions: Vec<Position<CM, HM>>,
    current_position: Position<CM, HM>,
    transaction_cost_model: CM,
    holding_cost_model: HM,
}

impl<CM: CostModel, HM: CostModel> View for BaseTradingRecord<CM, HM> {
    type V = RecordView<CM, HM>;

    closed spec fn view(&self) -> RecordView<CM, HM> {
        RecordView {
            name: self.name,
            start_index: self.start_index,
            end_index: self.end_index,
            trades: self.trades@,
            buy_trades: self.buy_trades@,
            sell_trades: self.sell_trades@,
            entry_trades: self.entry_trades@,
            exit_trades: self.exit_trades@,
            starting_type: self.starting_type,
            positions: self.positions@.map_values(|p: Position<CM, HM>| p@),
            current_position: self.current_position@,
            transaction_cost_model: self.transaction_cost_model,
            holding_cost_model: self.holding_cost_model,
        }
    }
}

impl<CM: CostModel, HM: CostModel> BaseTradingRecord<CM, HM> {
    /// The price used when none is given: one.
    fn default_price() -> (r: DecimalNum)
        ensures
            r@ == crate::num::finite_view(1, 0),
    {
        DecimalNum::one()
    }

    /// The amount used when none is given: one.
    fn default_amount() -> (r: DecimalNum)
        ensures
            r@ == crate::num::finite_view(1, 0),
    {
        DecimalNum::one()
    }

    /// An empty record whose positions start with a buy.
    pub fn new_default(transaction_cost_model: CM, holding_cost_model: HM) -> (r: Self)
        ensures
            r@.wf(),
            r@ == empty_record_view(TradeType::Buy, None, None, transaction_cost_model, holding_cost_model),
    {
        Self::new_with_type(TradeType::Buy, None, None, transaction_cost_model, holding_cost_model)
    }

    /// An empty record with the given starting type and index range.
    pub fn new_with_type(
        starting_type: TradeType,
        start_index: Option<usize>,
        end_index: Option<usize>,
        transaction_cost_model: CM,
        holding_cost_model: HM,
    ) -> (r: Self)
        ensures
            r@.wf(),
            r@ == empty_record_view(starting_type, start_index, end_index, transaction_cost_model, holding_cost_model),
    {
        let current_position = Position::new(starting_type, transaction_cost_model, holding_cost_model);
        let r = BaseTradingRecord {
            name: None,
            start_index,
            end_index,
            trades: Vec::new(),
            buy_trades: Vec::new(),
            sell_trades: Vec::new(),
            entry_trades: Vec::new(),
            exit_trades: Vec::new(),
            starting_type,
            positions: Vec::new(),
            current_position,
            transaction_cost_model,
            holding_cost_model,
        };
        proof {
            reveal_with_fuel(Seq::filter, 1);
            assert(r@.positions =~= Seq::<PositionView<CM, HM>>::empty());
        }
        r
    }

    /// The same record with a name.
    pub fn with_name(self, name: &str) -> (r: Self)
        ensures
            r@.name matches Some(s) && s@ == name@,
            r@ == (RecordView { name: r@.name, ..self@ }),
    {
        let mut r = self;
        r.name = Some(name.to_string());
        r
    }

    /// The lines that describe this record in a log: a summary (name, number of
    /// trades, number of positions), then the trades, all of them up to 20, else
    /// the first 10, the number left out, and the last 10.
    pub fn log_trading_record(&self) -> (r: Vec<RecordLogLine>)
        ensures
            r@.len() >= 1,
            r@[0] matches RecordLogLine::Summary { name, trades, positions } && {
                &&& trades == self@.trades.len()
                &&& positions == self@.positions.len()
                &&& self@.name matches Some(s) ==> name@ == s@
                &&& self@.name is None ==> name@ == Seq::<char>::empty()
            },
            r@.skip(1) == shown_trade_lines(self@.trades.len()),
    {
        let total_trades = self.trades.len();
        let total_positions = self.positions.len();
        let name = match &self.name {
            Some(s) => s.clone(),
            None => String::new(),
        };
        let mut lines: Vec<RecordLogLine> = Vec::new();
        lines.push(RecordLogLine::Summary { name, trades: total_trades, positions: total_positions });
        let ghost first = lines@[0];
        let show_limit: usize = 10;
        if total_trades <= 2 * show_limit {
            for i in 0..total_trades
                invariant
                    lines@.len() == 1 + i,
                    lines@[0] == first,
                    forall|j: int| 1 <= j < 1 + i ==> #[trigger] lines@[j] == (RecordLogLine::Trade { index: (j - 1) as usize }),
            {
                lines.push(RecordLogLine::Trade { index: i });
            }
        } else {
            for i in 0..show_limit
                invariant
                    lines@.len() == 1 + i,
                    lines@[0] == first,
                    forall|j: int| 1 <= j < 1 + i ==> #[trigger] lines@[j] == (RecordLogLine::Trade { index: (j - 1) as usize }),
            {
                lines.push(RecordLogLine::Trade { index: i });
            }
            lines.push(RecordLogLine::Omitted { count: total_trades - 2 * show_limit });
            for i in 0..show_limit
                invariant
                    total_trades > 20,
                    show_limit == 10,
                    lines@.len() == 12 + i,
                    lines@[0] == first,
                    forall|j: int| 1 <= j < 11 ==> #[trigger] lines@[j] == (RecordLogLine::Trade { index: (j - 1) as usize }),
                    lines@[11] == (RecordLogLine::Omitted { count: (total_trades - 20) as usize }),
                    forall|j: int| 12 <= j < 12 + i ==> #[trigger] lines@[j] == (RecordLogLine::Trade { index: (total_trades - 10 + j - 12) as usize }),
            {
                lines.push(RecordLogLine::Trade { index: total_trades - show_limit + i });
            }
        }
        proof {
            let shown = shown_trade_lines(total_trades as nat);
            assert(lines@.skip(1) =~= shown);
        }
        lines
    }

    /// Records a trade just made by the current position.
    fn record_trade(&mut self, trade: Trade<CM>, is_entry: bool, Ghost(pre): Ghost<RecordView<CM, HM>>)
        requires
            pre.wf(),
            is_entry == pre.current_position.is_new(),
            !pre.current_position.is_closed(),
            old(self)@ == (RecordView {
                current_position: if is_entry {
                    PositionView { entry: Some(trade), ..pre.current_position }
                } else {
                    PositionView { exit: Some(trade), ..pre.current_position }
                },
                ..pre
            }),
            old(self)@.current_position.entry is Some,
            trade.trade_type == (if is_entry { pre.starting_type } else { crate::trade::spec_complement(pre.starting_type) }),
        ensures
            pre.recorded(trade, final(self)@),
            final(self)@.wf(),
    {
        if is_entry {
            self.entry_trades.push(trade);
        } else {
            self.exit_trades.push(trade);
        }
        self.trades.push(trade);
        match trade.trade_type {
            TradeType::Buy => self.buy_trades.push(trade),
            TradeType::Sell => self.sell_trades.push(trade),
        }
        let ghost mid = self@;
        if self.current_position.is_closed() {
            self.positions.push(self.current_position);
            self.current_position = Position::new(
                self.starting_type,
                self.transaction_cost_model,
                self.holding_cost_model,
            );
            proof {
                assert(self@.positions =~= pre.positions.push(mid.current_position));
            }
        }
        proof {
            reveal_with_fuel(Seq::filter, 1);
            assert(pre.trades.push(trade).drop_last() =~= pre.trades);
            let post = self@;
            let n = pre.positions.len();
            assert forall|i: int| 0 <= i < post.positions.len() implies {
                &&& post.trades[2 * i] == (#[trigger] post.positions[i]).entry.unwrap()
                &&& post.trades[2 * i + 1] == post.positions[i].exit.unwrap()
                &&& post.entry_trades[i] == post.positions[i].entry.unwrap()
                &&& post.exit_trades[i] == post.positions[i].exit.unwrap()
            } by {
                if i < n {
                    assert(pre.positions[i] == post.positions[i]);
                }
            }
        }
    }
}

/// The view of a record that holds no trade yet.
pub open spec fn empty_record_view<CM: CostModel, HM: CostModel>(
    starting_type: TradeType,
    start_index: Option<usize>,
    end_index: Option<usize>,
    transaction_cost_model: CM,
    holding_cost_model: HM,
) -> RecordView<CM, HM> {
    RecordView {
        name: None,
        start_index,
        end_index,
        trades: Seq::empty(),
        buy_trades: Seq::empty(),
        sell_trades: Seq::empty(),
        entry_trades: Seq::empty(),
        exit_trades: Seq::empty(),
        starting_type,
        positions: Seq::empty(),
        current_position: new_position_view(starting_type, transaction_cost_model, holding_cost_model),
        transaction_cost_model,
        holding_cost_model,
    }
}

impl<CM: CostModel, HM: CostModel> TradingRecord<CM, HM> for BaseTradingRecord<CM, HM> {
    open spec fn inv(&self) -> bool {
        self@.wf()
    }

    open spec fn may_operate(&self, index: usize) -> bool {
        self@.may_operate(index)
    }

    fn starting_type(&self) -> (r: TradeType)
        ensures
            r == self@.starting_type,
    {
        self.starting_type
    }

    /// The name, or the empty string.
    fn name(&self) -> (r: &str)
        ensures
            self@.name matches Some(s) ==> r@ == s@,
            self@.name is None ==> r@ == Seq::<char>::empty(),
    {
        match &self.name {
            Some(s) => s.as_str(),
            None => {
                proof {
                    reveal_strlit("");
                }
                ""
            },
        }
    }

    /// Operates with price and amount one.
    fn operate(&mut self, index: usize)
        ensures
            final(self)@.wf(),
            old(self)@.recorded(final(self)@.trades.last(), final(self)@),
            trade_made(old(self)@, index, crate::num::finite_view(1, 0), crate::num::finite_view(1, 0), final(self)@.trades.last()),
    {
        self.operate_with_price_amount(index, Self::default_price(), Self::default_amount());
    }

    /// Operates the current position: a new one is entered, an open one is
    /// exited (and becomes a recorded position); the trade made is recorded.
    fn operate_with_price_amount(&mut self, index: usize, price: DecimalNum, amount: DecimalNum)
        ensures
            final(self)@.wf(),
            old(self)@.recorded(final(self)@.trades.last(), final(self)@),
            trade_made(old(self)@, index, price@, amount@, final(self)@.trades.last()),
            final(self)@.trades.last().price_per_asset == price,
            final(self)@.trades.last().amount == amount,
    {
        let ghost pre = self@;
        let is_entry = self.current_position.is_new();
        let made = self.current_position.operate(index, price, amount);
        match made {
            Some(trade) => {
                self.record_trade(trade, is_entry, Ghost(pre));
            },
            None => {},
        }
    }

    /// Enters with price and amount one if the current position is new.
    fn enter(&mut self, index: usize) -> (r: bool)
        ensures
            r == old(self)@.current_position.is_new(),
            final(self)@.wf(),
            r ==> old(self)@.recorded(final(self)@.trades.last(), final(self)@),
            r ==> trade_made(old(self)@, index, crate::num::finite_view(1, 0), crate::num::finite_view(1, 0), final(self)@.trades.last()),
            !r ==> final(self)@ == old(self)@,
    {
        self.enter_with_price_amount(index, Self::default_price(), Self::default_amount())
    }

    /// Enters if the current position is new; tells whether it did.
    fn enter_with_price_amount(&mut self, index: usize, price: DecimalNum, amount: DecimalNum) -> (r: bool)
        ensures
            r == old(self)@.current_position.is_new(),
            final(self)@.wf(),
            r ==> old(self)@.recorded(final(self)@.trades.last(), final(self)@),
            r ==> trade_made(old(self)@, index, price@, amount@, final(self)@.trades.last()),
            !r ==> final(self)@ == old(self)@,
    {
        if self.current_position.is_new() {
            self.operate_with_price_amount(index, price, amount);
            true
        } else {
            false
        }
    }

    /// Exits with price and amount one if the current position is open.
    fn exit(&mut self, index: usize) -> (r: bool)
        ensures
            r == old(self)@.current_position.is_opened(),
            final(self)@.wf(),
            r ==> old(self)@.recorded(final(self)@.trades.last(), final(self)@),
            r ==> trade_made(old(self)@, index, crate::num::finite_view(1, 0), crate::num::finite_view(1, 0), final(self)@.trades.last()),
            !r ==> final(self)@ == old(self)@,
    {
        self.exit_with_price_amount(index, Self::default_price(), Self::default_amount())
    }

    /// Exits if the current position is open; tells whether it did.
    fn exit_with_price_amount(&mut self, index: usize, price: DecimalNum, amount: DecimalNum) -> (r: bool)
        ensures
            r == old(self)@.current_position.is_opened(),
            final(self)@.wf(),
            r ==> old(self)@.recorded(final(self)@.trades.last(), final(self)@),
            r ==> trade_made(old(self)@, index, price@, amount@, final(self)@.trades.last()),
            !r ==> final(self)@ == old(self)@,
    {
        if self.current_position.is_opened() {
            self.operate_with_price_amount(index, price, amount);
            true
        } else {
            false
        }
    }

    /// Whether the current position is closed (never, in a well-formed record).
    /// No position is open: the current position is new (or closed).
    fn is_closed(&self) -> (r: bool)
        ensures
            r == !self@.current_position.is_opened(),
    {
        !self.current_position.is_opened()
    }

    fn transaction_cost_model(&self) -> (r: &CM)
        ensures
            *r == self@.transaction_cost_model,
    {
        &self.transaction_cost_model
    }

    fn holding_cost_model(&self) -> (r: &HM)
        ensures
            *r == self@.holding_cost_model,
    {
        &self.holding_cost_model
    }

    fn positions(&self) -> (r: Vec<Position<CM, HM>>)
        ensures
            r@.map_values(|p: Position<CM, HM>| p@) == self@.recorded_positions(),
    {
        let mut r: Vec<Position<CM, HM>> = Vec::new();
        let mut i: usize = 0;
        while i < self.positions.len()
            invariant
                i <= self.positions@.len(),
                r@.map_values(|p: Position<CM, HM>| p@) == self@.positions.take(i as int),
            decreases self.positions@.len() - i,
        {
            proof {
                assert(self@.positions.take(i + 1) =~= self@.positions.take(i as int).push(self.positions@[i as int]@));
            }
            r.push(self.positions[i]);
            proof {
                assert(r@.map_values(|p: Position<CM, HM>| p@) =~= self@.positions.take(i + 1));
            }
            i = i + 1;
        }
        proof {
            assert(self@.positions.take(i as int) =~= self@.positions);
        }
        if self.current_position.is_opened() {
            r.push(self.current_position);
            proof {
                assert(r@.map_values(|p: Position<CM, HM>| p@) =~= self@.positions.push(self@.current_position));
            }
        }
        r
    }

    fn position_count(&self) -> (r: usize)
        ensures
            r == self@.recorded_positions().len(),
    {
        if self.current_position.is_opened() {
            let trade_count = self.trades.len();
            assert(trade_count == 2 * self@.positions.len() + 1);
            self.positions.len() + 1
        } else {
            self.positions.len()
        }
    }

    fn current_position(&self) -> (r: &Position<CM, HM>)
        ensures
            r@ == self@.current_position,
    {
        &self.current_position
    }

    fn last_position(&self) -> (r: Option<Position<CM, HM>>)
        ensures
            r is None <==> self@.recorded_positions().len() == 0,
            r matches Some(p) ==> p@ == self@.recorded_positions().last(),
    {
        if self.current_position.is_opened() {
            Some(self.current_position)
        } else if self.positions.len() == 0 {
            None
        } else {
            Some(self.positions[self.positions.len() - 1])
        }
    }

    fn trades(&self) -> (r: &[Trade<CM>])
        ensures
            r@ == self@.trades,
    {
        self.trades.as_slice()
    }

    fn last_trade(&self) -> (r: Option<&Trade<CM>>)
        ensures
            r is None <==> self@.trades.len() == 0,
            r matches Some(t) ==> *t == self@.trades.last(),
    {
        last_of(&self.trades)
    }

    fn last_trade_of_type(&self, trade_type: TradeType) -> (r: Option<&Trade<CM>>)
        ensures
            trade_type == TradeType::Buy ==> {
                &&& r is None <==> self@.buy_trades.len() == 0
                &&& r matches Some(t) ==> *t == self@.buy_trades.last()
            },
            trade_type == TradeType::Sell ==> {
                &&& r is None <==> self@.sell_trades.len() == 0
                &&& r matches Some(t) ==> *t == self@.sell_trades.last()
            },
    {
        match trade_type {
            TradeType::Buy => last_of(&self.buy_trades),
            TradeType::Sell => last_of(&self.sell_trades),
        }
    }

    fn last_entry(&self) -> (r: Option<&Trade<CM>>)
        ensures
            r is None <==> self@.entry_trades.len() == 0,
            r matches Some(t) ==> *t == self@.entry_trades.last(),
    {
        last_of(&self.entry_trades)
    }

    fn last_exit(&self) -> (r: Option<&Trade<CM>>)
        ensures
            r is None <==> self@.exit_trades.len() == 0,
            r matches Some(t) ==> *t == self@.exit_trades.last(),
    {
        last_of(&self.exit_trades)
    }

    open spec fn spec_start_index(&self) -> Option<usize> {
        self@.start_index
    }

    open spec fn spec_end_index(&self) -> Option<usize> {
        self@.end_index
    }

    fn start_index(&self) -> (r: Option<usize>) {
        self.start_index
    }

    fn end_index(&self) -> (r: Option<usize>) {
        self.end_index
    }
}

/// The last element of a vector, if any.
fn last_of<T>(v: &Vec<T>) -> (r: Option<&T>)
    ensures
        r is None <==> v@.len() == 0,
        r matches Some(t) ==> *t == v@.last(),
{
    if v.len() == 0 {
        None
    } else {
        Some(&v[v.len() - 1])
    }
}

/// `t` is the trade that operating `pre` at `index` with `price` and `amount`
/// makes: an entry of the starting type for a new position, an exit of the other
/// type for an open one.
pub open spec fn trade_made<CM: CostModel, HM: CostModel>(
    pre: RecordView<CM, HM>,
    index: usize,
    price: crate::num::DecView,
    amount: crate::num::DecView,
    t: Trade<CM>,
) -> bool {
    &&& t.index == index
    &&& t.trade_type == (if pre.current_position.is_new() {
        pre.starting_type
    } else {
        crate::trade::spec_complement(pre.starting_type)
    })
    &&& t.price_per_asset@ == price
    &&& t.amount@ == amount
    &&& t.cost_model == pre.transaction_cost_model
    &&& t.cost@ == pre.transaction_cost_model.spec_calculate_trade(price, amount)
    &&& t.net_price@ == crate::trade::spec_net_price(t.trade_type, price, amount, t.cost@)
}

} // verus!

//! A position: an entry trade followed by an exit trade of the opposite type.
use vstd::prelude::*;
use crate::analysis::cost::{CostContext, CostModel};
use crate::num::{
    DecView, DecimalNum, MAX_SCALE, NumError, finite_view, fits_i32, lemma_product_value, lemma_rescale_value,
    lemma_small_product, spec_divided_by, spec_minus, spec_neg, spec_plus, spec_times,
};
use vstd::arithmetic::power::pow;
use crate::trade::{Trade, TradeType, is_new_trade, spec_complement};

verus! {

/// What a position holds.
pub struct PositionView<CM: CostModel, HM: CostModel> {
    pub entry: Option<Trade<CM>>,
    pub exit: Option<Trade<CM>>,
    pub starting_type: TradeType,
    pub transaction_cost_model: CM,
    pub holding_cost_model: HM,
}

impl<CM: CostModel, HM: CostModel> PositionView<CM, HM> {
    pub open spec fn is_new(self) -> bool {
        self.entry is None && self.exit is None
    }

    /// A position is new, open or closed: it has no exit without an entry, its
    /// entry is of the starting type and its exit of the other type.
    pub open spec fn wf(self) -> bool {
        &&& self.exit is Some ==> self.entry is Some
        &&& self.entry matches Some(e) ==> e.trade_type == self.starting_type
        &&& self.exit matches Some(x) ==> x.trade_type == spec_complement(self.starting_type)
    }

    pub open spec fn is_opened(self) -> bool {
        self.entry is Some && self.exit is None
    }

    pub open spec fn is_closed(self) -> bool {
        self.entry is Some && self.exit is Some
    }

    /// Cost context of the position while it is open.
    pub open spec fn open_context(self) -> CostContext {
        let e = self.entry.unwrap();
        CostContext {
            entry_price: e.price_per_asset,
            amount: e.amount,
            entry_index: Some(e.index),
            final_index: None,
            is_closed: false,
        }
    }

    /// Cost context of the position closed at `final_index`.
    pub open spec fn closed_context(self, final_index: usize) -> CostContext {
        let e = self.entry.unwrap();
        CostContext {
            entry_price: e.price_per_asset,
            amount: e.amount,
            entry_index: Some(e.index),
            final_index: Some(final_index),
            is_closed: true,
        }
    }

    /// Gross profit: for an open position, what the entry amount is worth at
    /// `final_price` less the entry value; for a closed one, the exit value less
    /// the entry value; negated when the entry is a sell.
    pub open spec fn gross_profit(self, final_price: DecView) -> DecView {
        let e = self.entry.unwrap();
        let g = if self.is_opened() {
            spec_minus(spec_times(e.amount@, final_price), spec_times(e.price_per_asset@, e.amount@))
        } else {
            let x = self.exit.unwrap();
            spec_minus(spec_times(x.price_per_asset@, x.amount@), spec_times(e.price_per_asset@, e.amount@))
        };
        if e.trade_type == TradeType::Sell { spec_neg(g) } else { g }
    }

    pub open spec fn holding_cost(self) -> DecView {
        self.holding_cost_model.spec_calculate_position(self.open_context())
    }

    pub open spec fn position_cost(self) -> DecView {
        spec_plus(
            self.transaction_cost_model.spec_calculate_position(self.open_context()),
            self.holding_cost(),
        )
    }

    pub open spec fn holding_cost_with_final(self, final_index: usize) -> DecView {
        self.holding_cost_model.spec_calculate_with_index(self.closed_context(final_index))
    }

    pub open spec fn position_cost_with_index(self, final_index: usize) -> DecView {
        spec_plus(
            self.transaction_cost_model.spec_calculate_with_index(self.closed_context(final_index)),
            self.holding_cost_with_final(final_index),
        )
    }

    /// Profit: zero while open; otherwise the gross profit at the exit price less the cost.
    pub open spec fn profit(self) -> DecView {
        if self.is_opened() {
            finite_view(0, 0)
        } else {
            spec_minus(self.gross_profit(self.exit.unwrap().price_per_asset@), self.position_cost())
        }
    }

    pub open spec fn profit_with_final(self, final_index: usize, final_price: DecView) -> DecView {
        spec_minus(self.gross_profit(final_price), self.position_cost_with_index(final_index))
    }

    /// Gross return from `entry_price` to `exit_price`: their ratio for a buy,
    /// its inverse for a sell.
    pub open spec fn gross_return(self, entry_price: DecView, exit_price: DecView) -> Result<DecView, NumError> {
        match spec_divided_by(exit_price, entry_price) {
            Ok(ratio) => if self.entry.unwrap().trade_type == TradeType::Buy {
                Ok(ratio)
            } else {
                spec_divided_by(finite_view(1, 0), ratio)
            },
            Err(e) => Err(e),
        }
    }

    /// `post` and `r` are what `operate(index, price, amount)` makes of `self`:
    /// a new position gets its entry trade, of the starting type; an open one its
    /// exit trade, of the other type; a closed one stays as it is.
    pub open spec fn operated(
        self,
        index: usize,
        price: DecimalNum,
        amount: DecimalNum,
        post: Self,
        r: Option<Trade<CM>>,
    ) -> bool {
        if self.is_new() {
            &&& r matches Some(t) && is_new_trade(t, index, self.starting_type, price, amount, self.transaction_cost_model)
            &&& post == PositionView { entry: r, ..self }
        } else if self.is_opened() {
            &&& r matches Some(t) && is_new_trade(t, index, spec_complement(self.starting_type), price, amount, self.transaction_cost_model)
            &&& post == PositionView { exit: r, ..self }
        } else {
            &&& r is None
            &&& post == self
        }
    }
}

/// Operating a well-formed position keeps it well formed: it is new, open or
/// closed, with its entry of the starting type and its exit of the other type.
pub proof fn law_operate_keeps_position_wf<CM: CostModel, HM: CostModel>(
    p: PositionView<CM, HM>,
    index: usize,
    price: DecimalNum,
    amount: DecimalNum,
    post: PositionView<CM, HM>,
    r: Option<Trade<CM>>,
)
    requires
        p.wf(),
        p.operated(index, price, amount, post, r),
    ensures
        post.wf(),
{
}

/// The gross profit of an open position at a final price is what the entry
/// amount is worth at that price less what it cost at the entry price,
/// `amount * final - entry * amount`, and its negation for a sell entry: it is
/// positive for a buy of a positive amount whose price rose. Stated for
/// mantissas below `2^31`, with the entry and final prices at one scale, so that
/// the products are exact; a nonzero result has the scale of the products.
pub proof fn law_open_gross_profit<CM: CostModel, HM: CostModel>(p: PositionView<CM, HM>, final_price: DecView)
    requires
        p.is_opened(),
        !p.entry.unwrap().amount@.nan,
        !p.entry.unwrap().price_per_asset@.nan,
        !final_price.nan,
        p.entry.unwrap().price_per_asset@.scale == final_price.scale,
        p.entry.unwrap().amount@.scale + final_price.scale <= MAX_SCALE,
        fits_i32(p.entry.unwrap().amount@.mantissa as int),
        fits_i32(p.entry.unwrap().price_per_asset@.mantissa as int),
        fits_i32(final_price.mantissa as int),
    ensures
        ({
            let e = p.entry.unwrap();
            let a = e.amount@.mantissa as int;
            let ep = e.price_per_asset@.mantissa as int;
            let fp = final_price.mantissa as int;
            let m = if e.trade_type == TradeType::Sell { ep * a - a * fp } else { a * fp - ep * a };
            let g = p.gross_profit(final_price);
            &&& !g.nan
            &&& g.mantissa == m
            &&& m != 0 ==> g.scale == e.amount@.scale + final_price.scale
        }),
{
    let e = p.entry.unwrap();
    let a = e.amount@.mantissa as int;
    let ep = e.price_per_asset@.mantissa as int;
    let fp = final_price.mantissa as int;
    lemma_small_product(a, fp);
    lemma_small_product(ep, a);
    assert(a * fp == fp * a) by (nonlinear_arith);
    assert(a == 0 || fp == 0 ==> a * fp == 0) by (nonlinear_arith);
    assert(a == 0 || ep == 0 ==> ep * a == 0) by (nonlinear_arith);
    assert(a != 0 && fp != 0 ==> a * fp != 0) by (nonlinear_arith);
    assert(a != 0 && ep != 0 ==> ep * a != 0) by (nonlinear_arith);
}

/// The same for prices of different scales, stated on the values: for an open
/// position, gross profit times `10^28` (the unit of `value`) equals
/// `amount * final price - entry price * amount`, negated for a sell entry.
/// Stated for mantissas below `2^31`, scales of the prices that differ by at
/// most 9 digits, and products whose scales stay within 28 digits.
pub proof fn law_open_gross_profit_value<CM: CostModel, HM: CostModel>(p: PositionView<CM, HM>, final_price: DecView)
    requires
        p.is_opened(),
        !p.entry.unwrap().amount@.nan,
        !p.entry.unwrap().price_per_asset@.nan,
        !final_price.nan,
        p.entry.unwrap().amount@.scale + p.entry.unwrap().price_per_asset@.scale <= MAX_SCALE,
        p.entry.unwrap().amount@.scale + final_price.scale <= MAX_SCALE,
        p.entry.unwrap().price_per_asset@.scale <= final_price.scale + 9,
        final_price.scale <= p.entry.unwrap().price_per_asset@.scale + 9,
        fits_i32(p.entry.unwrap().amount@.mantissa as int),
        fits_i32(p.entry.unwrap().price_per_asset@.mantissa as int),
        fits_i32(final_price.mantissa as int),
    ensures
        ({
            let e = p.entry.unwrap();
            let worth = e.amount@.value() * final_price.value() - e.price_per_asset@.value() * e.amount@.value();
            let g = p.gross_profit(final_price);
            &&& !g.nan
            &&& g.value() * pow(10, MAX_SCALE as nat) == if e.trade_type == TradeType::Sell { -worth } else { worth }
        }),
{
    let e = p.entry.unwrap();
    let (am, asc) = (e.amount@.mantissa, e.amount@.scale);
    let (pm, psc) = (e.price_per_asset@.mantissa, e.price_per_asset@.scale);
    let (fm, fsc) = (final_price.mantissa, final_price.scale);
    let p1 = am * fm;
    let p2 = pm * am;
    let (s1, s2) = ((asc + fsc) as u32, (psc + asc) as u32);
    lemma_small_product(am as int, fm as int);
    lemma_small_product(pm as int, am as int);
    assert((am == 0 || fm == 0) == (am * fm == 0)) by (nonlinear_arith);
    assert((am == 0 || pm == 0) == (pm * am == 0)) by (nonlinear_arith);
    lemma_product_value(am, asc, fm, fsc);
    lemma_product_value(pm, psc, am, asc);
    let d = pow(10, MAX_SCALE as nat);
    let v1 = p1 * pow(10, (MAX_SCALE - s1) as nat);
    let v2 = p2 * pow(10, (MAX_SCALE - s2) as nat);
    assert(p1 == 0 ==> v1 == 0) by (nonlinear_arith)
        requires
            v1 == p1 * pow(10, (MAX_SCALE - s1) as nat),
    ;
    assert(p2 == 0 ==> v2 == 0) by (nonlinear_arith)
        requires
            v2 == p2 * pow(10, (MAX_SCALE - s2) as nat),
    ;
    let prod1 = spec_times(e.amount@, final_price);
    let prod2 = spec_times(e.price_per_asset@, e.amount@);
    assert(prod1.value() == v1);
    assert(prod2.value() == v2);
    let g0 = spec_minus(prod1, prod2);
    let t = if s1 < s2 { s2 } else { s1 };
    lemma_rescale_value(p1, s1, t);
    lemma_rescale_value(p2, s2, t);
    if prod1.mantissa == 0 {
        assert(g0.value() == -v2) by (nonlinear_arith)
            requires
                g0.value() == (-(prod2.mantissa as int)) * pow(10, (MAX_SCALE - prod2.scale) as nat),
                prod2.value() == v2,
                prod2.value() == (prod2.mantissa as int) * pow(10, (MAX_SCALE - prod2.scale) as nat),
        ;
    } else if prod2.mantissa == 0 {
    } else if s1 == s2 {
        assert(g0.value() == v1 - v2) by (nonlinear_arith)
            requires
                g0.value() == (p1 - p2) * pow(10, (MAX_SCALE - s1) as nat),
                v1 == p1 * pow(10, (MAX_SCALE - s1) as nat),
                v2 == p2 * pow(10, (MAX_SCALE - s1) as nat),
        ;
    } else {
        let r1 = p1 * pow(10, (t - s1) as nat);
        let r2 = p2 * pow(10, (t - s2) as nat);
        assert(g0 == finite_view((r1 - r2) as i128, t));
        assert(g0.value() == v1 - v2) by (nonlinear_arith)
            requires
                g0.value() == (r1 - r2) * pow(10, (MAX_SCALE - t) as nat),
                v1 == r1 * pow(10, (MAX_SCALE - t) as nat),
                v2 == r2 * pow(10, (MAX_SCALE - t) as nat),
        ;
    }
    assert(g0.value() == v1 - v2);
    assert(g0.value() * d == v1 * d - v2 * d) by (nonlinear_arith)
        requires
            g0.value() == v1 - v2,
    ;
    if e.trade_type == TradeType::Sell {
        let g = spec_neg(g0);
        assert(g.value() == -g0.value()) by (nonlinear_arith)
            requires
                g.value() == (-(g0.mantissa as int)) * pow(10, (MAX_SCALE - g0.scale) as nat),
                g0.value() == (g0.mantissa as int) * pow(10, (MAX_SCALE - g0.scale) as nat),
        ;
        assert(g.value() * d == -(g0.value() * d)) by (nonlinear_arith)
            requires
                g.value() == -g0.value(),
        ;
    }
}

/// The gross profit of a closed position, whatever final price is given, is
/// the exit value less the entry value, `exit price * exit amount - entry price
/// * entry amount`, and its negation for a sell entry. Stated for mantissas below `2^31`, with the two
/// prices at one scale and the two amounts at another, so that the products
/// are exact; a nonzero result has the scale of the products.
pub proof fn law_closed_gross_profit<CM: CostModel, HM: CostModel>(p: PositionView<CM, HM>, final_price: DecView)
    requires
        p.is_closed(),
        !p.entry.unwrap().amount@.nan,
        !p.entry.unwrap().price_per_asset@.nan,
        !p.exit.unwrap().amount@.nan,
        !p.exit.unwrap().price_per_asset@.nan,
        p.entry.unwrap().price_per_asset@.scale == p.exit.unwrap().price_per_asset@.scale,
        p.entry.unwrap().amount@.scale == p.exit.unwrap().amount@.scale,
        p.entry.unwrap().amount@.scale + p.entry.unwrap().price_per_asset@.scale <= MAX_SCALE,
        fits_i32(p.entry.unwrap().amount@.mantissa as int),
        fits_i32(p.entry.unwrap().price_per_asset@.mantissa as int),
        fits_i32(p.exit.unwrap().amount@.mantissa as int),
        fits_i32(p.exit.unwrap().price_per_asset@.mantissa as int),
    ensures
        ({
            let (e, x) = (p.entry.unwrap(), p.exit.unwrap());
            let (ea, ep) = (e.amount@.mantissa as int, e.price_per_asset@.mantissa as int);
            let (xa, xp) = (x.amount@.mantissa as int, x.price_per_asset@.mantissa as int);
            let m = if e.trade_type == TradeType::Sell { ep * ea - xp * xa } else { xp * xa - ep * ea };
            let g = p.gross_profit(final_price);
            &&& !g.nan
            &&& g.mantissa == m
            &&& m != 0 ==> g.scale == e.amount@.scale + e.price_per_asset@.scale
        }),
{
    let (e, x) = (p.entry.unwrap(), p.exit.unwrap());
    let (ea, ep) = (e.amount@.mantissa as int, e.price_per_asset@.mantissa as int);
    let (xa, xp) = (x.amount@.mantissa as int, x.price_per_asset@.mantissa as int);
    lemma_small_product(xp, xa);
    lemma_small_product(ep, ea);
    assert(xp == 0 || xa == 0 ==> xp * xa == 0) by (nonlinear_arith);
    assert(ep == 0 || ea == 0 ==> ep * ea == 0) by (nonlinear_arith);
    assert(xp != 0 && xa != 0 ==> xp * xa != 0) by (nonlinear_arith);
    assert(ep != 0 && ea != 0 ==> ep * ea != 0) by (nonlinear_arith);
}

pub open spec fn new_position_view<CM: CostModel, HM: CostModel>(
    starting_type: TradeType,
    transaction_cost_model: CM,
    holding_cost_model: HM,
) -> PositionView<CM, HM> {
    PositionView { entry: None, exit: None, starting_type, transaction_cost_model, holding_cost_model }
}

/// A pair of an entry and an exit trade.
#[derive(Clone, Copy, Debug)]
pub struct Position<CM: CostModel, HM: CostModel> {
    entry: Option<Trade<CM>>,
    exit: Option<Trade<CM>>,
    starting_type: TradeType,
    transaction_cost_model: CM,
    holding_cost_model: HM,
}

impl<CM: CostModel, HM: CostModel> View for Position<CM, HM> {
    type V = PositionView<CM, HM>;

    closed spec fn view(&self) -> PositionView<CM, HM> {
        PositionView {
            entry: self.entry,
            exit: self.exit,
            starting_type: self.starting_type,
            transaction_cost_model: self.transaction_cost_model,
            holding_cost_model: self.holding_cost_model,
        }
    }
}

impl<CM: CostModel, HM: CostModel> Position<CM, HM> {
    /// A new position (no trade yet) with the given starting type.
    pub fn new(starting_type: TradeType, transaction_cost_model: CM, holding_cost_model: HM) -> (r: Self)
        ensures
            r@ == new_position_view(starting_type, transaction_cost_model, holding_cost_model),
            r@.wf(),
    {
        Position { entry: None, exit: None, starting_type, transaction_cost_model, holding_cost_model }
    }

    /// A new position that starts with a buy.
    pub fn new_buy(transaction_cost_model: CM, holding_cost_model: HM) -> (r: Self)
        ensures
            r@ == new_position_view(TradeType::Buy, transaction_cost_model, holding_cost_model),
    {
        Self::new(TradeType::Buy, transaction_cost_model, holding_cost_model)
    }

    /// A closed position made of two trades of different types.
    pub fn from_trades(entry: Trade<CM>, exit: Trade<CM>, transaction_cost_model: CM, holding_cost_model: HM) -> (r: Self)
        requires
            entry.trade_type != exit.trade_type,
        ensures
            r@ == (PositionView {
                entry: Some(entry),
                exit: Some(exit),
                starting_type: entry.trade_type,
                transaction_cost_model,
                holding_cost_model,
            }),
            r@.wf(),
    {
        Position {
            starting_type: entry.get_type(),
            entry: Some(entry),
            exit: Some(exit),
            transaction_cost_model,
            holding_cost_model,
        }
    }

    pub fn entry(&self) -> (r: Option<&Trade<CM>>)
        ensures
            r is Some <==> self@.entry is Some,
            r matches Some(t) ==> self@.entry == Some(*t),
    {
        match &self.entry {
            Some(t) => Some(t),
            None => None,
        }
    }

    pub fn exit(&self) -> (r: Option<&Trade<CM>>)
        ensures
            r is Some <==> self@.exit is Some,
            r matches Some(t) ==> self@.exit == Some(*t),
    {
        match &self.exit {
            Some(t) => Some(t),
            None => None,
        }
    }

    pub fn starting_type(&self) -> (r: TradeType)
        ensures
            r == self@.starting_type,
    {
        self.starting_type
    }

    pub fn transaction_cost_model(&self) -> (r: &CM)
        ensures
            *r == self@.transaction_cost_model,
    {
        &self.transaction_cost_model
    }

    pub fn holding_cost_model(&self) -> (r: &HM)
        ensures
            *r == self@.holding_cost_model,
    {
        &self.holding_cost_model
    }

    pub fn is_new(&self) -> (r: bool)
        ensures
            r == self@.is_new(),
    {
        self.entry.is_none() && self.exit.is_none()
    }

    pub fn is_opened(&self) -> (r: bool)
        ensures
            r == self@.is_opened(),
    {
        self.entry.is_some() && self.exit.is_none()
    }

    pub fn is_closed(&self) -> (r: bool)
        ensures
            r == self@.is_closed(),
    {
        self.entry.is_some() && self.exit.is_some()
    }

    /// Opens the position if it is new, closes it if it is open, and returns the
    /// trade made; a closed position is left as it is and `None` is returned.
    pub fn operate(&mut self, index: usize, price: DecimalNum, amount: DecimalNum) -> (r: Option<Trade<CM>>)
        requires
            old(self)@.is_opened() ==> index >= old(self)@.entry.unwrap().index,
        ensures
            old(self)@.operated(index, price, amount, final(self)@, r),
    {
        if self.is_new() {
            let trade = Trade::new(index, self.starting_type, price, amount, self.transaction_cost_model);
            self.entry = Some(trade);
            Some(trade)
        } else if self.is_opened() {
            let trade = Trade::new(
                index,
                self.starting_type.complement_type(),
                price,
                amount,
                self.transaction_cost_model,
            );
            self.exit = Some(trade);
            Some(trade)
        } else {
            None
        }
    }

    /// Closed with a positive profit.
    pub fn has_profit(&self) -> (r: bool)
        ensures
            r == (self@.is_closed() && !self@.profit().nan && self@.profit().value() > 0),
    {
        self.is_closed() && self.get_profit().is_positive()
    }

    /// Closed with a negative profit.
    pub fn has_loss(&self) -> (r: bool)
        ensures
            r == (self@.is_closed() && !self@.profit().nan && self@.profit().value() < 0),
    {
        self.is_closed() && self.get_profit().is_negative()
    }

    pub fn get_profit(&self) -> (r: DecimalNum)
        requires
            self@.entry is Some,
        ensures
            r@ == self@.profit(),
    {
        if self.is_opened() {
            self.zero()
        } else {
            let exit_price = self.exit.unwrap().get_price_per_asset();
            self.get_gross_profit(exit_price).minus(&self.get_position_cost())
        }
    }

    pub fn get_profit_with_final(&self, final_index: usize, final_price: DecimalNum) -> (r: DecimalNum)
        requires
            self@.entry is Some,
        ensures
            r@ == self@.profit_with_final(final_index, final_price@),
    {
        let gross_profit = self.get_gross_profit(final_price);
        let trading_cost = self.get_position_cost_with_index(final_index);
        gross_profit.minus(&trading_cost)
    }

    pub fn get_gross_profit(&self, final_price: DecimalNum) -> (r: DecimalNum)
        requires
            self@.entry is Some,
        ensures
            r@ == self@.gross_profit(final_price@),
    {
        let e = self.entry.unwrap();
        let mut gross_profit = if self.is_opened() {
            e.get_amount().multiplied_by(&final_price).minus(&e.get_value())
        } else {
            let x = self.exit.unwrap();
            x.get_value().minus(&e.get_value())
        };
        if e.is_sell() {
            gross_profit = gross_profit.neg();
        }
        gross_profit
    }

    /// Gross return between two prices; an error when there is no entry trade
    /// or a division fails.
    pub fn get_gross_return(&self, entry_price: DecimalNum, exit_price: DecimalNum) -> (r: Result<DecimalNum, NumError>)
        ensures
            self@.entry is None ==> (r matches Err(NumError::PositionOperateError(m))
                && m@ == "Cannot compute gross return: no entry trade"@),
            self@.entry is Some ==> match r {
                Ok(x) => self@.gross_return(entry_price@, exit_price@) == Ok::<DecView, NumError>(x@),
                Err(e) => self@.gross_return(entry_price@, exit_price@) == Err::<DecView, NumError>(e),
            },
    {
        let entry_trade = match &self.entry {
            Some(t) => t,
            None => {
                return Err(NumError::PositionOperateError(
                    "Cannot compute gross return: no entry trade".to_string(),
                ));
            },
        };
        let one = DecimalNum::one();
        let ratio = exit_price.divided_by(&entry_price)?;
        if entry_trade.is_buy() {
            Ok(ratio)
        } else {
            one.divided_by(&ratio)
        }
    }

    fn open_context(&self) -> (r: CostContext)
        requires
            self@.entry is Some,
        ensures
            r == self@.open_context(),
    {
        let trade = self.entry.unwrap();
        CostContext {
            entry_price: trade.price_per_asset,
            amount: trade.amount,
            entry_index: Some(trade.index),
            final_index: None,
            is_closed: false,
        }
    }

    /// Cost of the open position: transaction cost plus holding cost.
    pub fn get_position_cost(&self) -> (r: DecimalNum)
        requires
            self@.entry is Some,
        ensures
            r@ == self@.position_cost(),
    {
        let ctx = self.open_context();
        self.transaction_cost_model.calculate_position(&ctx).plus(&self.get_holding_cost())
    }

    /// Cost of the position closed at `final_index`.
    pub fn get_position_cost_with_index(&self, final_index: usize) -> (r: DecimalNum)
        requires
            self@.entry is Some,
        ensures
            r@ == self@.position_cost_with_index(final_index),
    {
        let closed_ctx = self.to_closed_cost_context(final_index);
        self.transaction_cost_model.calculate_with_index(&closed_ctx).plus(
            &self.get_holding_cost_with_final(final_index),
        )
    }

    pub fn get_holding_cost(&self) -> (r: DecimalNum)
        requires
            self@.entry is Some,
        ensures
            r@ == self@.holding_cost(),
    {
        let ctx = self.open_context();
        self.holding_cost_model.calculate_position(&ctx)
    }

    pub fn get_holding_cost_with_final(&self, final_index: usize) -> (r: DecimalNum)
        requires
            self@.entry is Some,
        ensures
            r@ == self@.holding_cost_with_final(final_index),
    {
        let closed_ctx = self.to_closed_cost_context(final_index);
        self.holding_cost_model.calculate_with_index(&closed_ctx)
    }

    /// Zero.
    fn zero(&self) -> (r: DecimalNum)
        requires
            self@.entry is Some,
        ensures
            r@ == finite_view(0, 0),
    {
        DecimalNum::zero()
    }

    pub fn to_closed_cost_context(&self, final_index: usize) -> (r: CostContext)
        requires
            self@.entry is Some,
        ensures
            r == self@.closed_context(final_index),
    {
        let trade = self.entry.unwrap();
        CostContext {
            entry_price: trade.price_per_asset,
            amount: trade.amount,
            entry_index: Some(trade.index),
            final_index: Some(final_index),
            is_closed: true,
        }
    }
}

} // verus!

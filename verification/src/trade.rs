//! Trades: a buy or a sell of an amount of an asset at a price, at an index of
//! a bar series.
use vstd::prelude::*;
use crate::analysis::cost::CostModel;
use crate::num::{DecView, DecimalNum, spec_div_or_nan, spec_minus, spec_plus, spec_times};

verus! {

#[derive(Clone, Copy, Debug, PartialEq, Eq, Structural)]
pub enum TradeType {
    Buy,
    Sell,
}

pub open spec fn spec_complement(t: TradeType) -> TradeType {
    match t {
        TradeType::Buy => TradeType::Sell,
        TradeType::Sell => TradeType::Buy,
    }
}

impl TradeType {
    /// The opposite trade type.
    pub fn complement_type(&self) -> (r: TradeType)
        ensures
            r == spec_complement(*self),
    {
        match self {
            TradeType::Buy => TradeType::Sell,
            TradeType::Sell => TradeType::Buy,
        }
    }
}

/// A trade, with its transaction cost and its net price (the price per asset
/// with the cost per asset added for a buy, subtracted for a sell).
#[derive(Clone, Copy, Debug)]
pub struct Trade<CM: CostModel> {
    pub index: usize,
    pub trade_type: TradeType,
    pub price_per_asset: DecimalNum,
    pub amount: DecimalNum,
    pub cost: DecimalNum,
    pub net_price: DecimalNum,
    pub cost_model: CM,
}

/// The net price of a trade: the cost per asset added to the price for a buy,
/// subtracted for a sell.
pub open spec fn spec_net_price(trade_type: TradeType, price: DecView, amount: DecView, cost: DecView) -> DecView {
    let cost_per_asset = spec_div_or_nan(cost, amount);
    match trade_type {
        TradeType::Buy => spec_plus(price, cost_per_asset),
        TradeType::Sell => spec_minus(price, cost_per_asset),
    }
}

/// `t` is the trade that `Trade::new` builds from these arguments.
pub open spec fn is_new_trade<CM: CostModel>(
    t: Trade<CM>,
    index: usize,
    trade_type: TradeType,
    price: DecimalNum,
    amount: DecimalNum,
    cost_model: CM,
) -> bool {
    &&& t.index == index
    &&& t.trade_type == trade_type
    &&& t.price_per_asset == price
    &&& t.amount == amount
    &&& t.cost_model == cost_model
    &&& t.cost@ == cost_model.spec_calculate_trade(price@, amount@)
    &&& t.net_price@ == spec_net_price(trade_type, price@, amount@, t.cost@)
}

impl<CM: CostModel> Trade<CM> {
    pub fn new(
        index: usize,
        trade_type: TradeType,
        price_per_asset: DecimalNum,
        amount: DecimalNum,
        cost_model: CM,
    ) -> (r: Trade<CM>)
        ensures
            is_new_trade(r, index, trade_type, price_per_asset, amount, cost_model),
    {
        let cost = cost_model.calculate_trade(&price_per_asset, &amount);
        let cost_per_asset = cost.div_or_nan(&amount);
        let net_price = match trade_type {
            TradeType::Buy => price_per_asset.plus(&cost_per_asset),
            TradeType::Sell => price_per_asset.minus(&cost_per_asset),
        };
        Trade { index, trade_type, price_per_asset, amount, cost, net_price, cost_model }
    }

    pub fn get_index(&self) -> (r: usize)
        ensures
            r == self.index,
    {
        self.index
    }

    pub fn get_type(&self) -> (r: TradeType)
        ensures
            r == self.trade_type,
    {
        self.trade_type
    }

    pub fn get_price_per_asset(&self) -> (r: DecimalNum)
        ensures
            r == self.price_per_asset,
    {
        self.price_per_asset
    }

    pub fn get_net_price(&self) -> (r: DecimalNum)
        ensures
            r == self.net_price,
    {
        self.net_price
    }

    pub fn get_amount(&self) -> (r: DecimalNum)
        ensures
            r == self.amount,
    {
        self.amount
    }

    pub fn get_cost(&self) -> (r: DecimalNum)
        ensures
            r == self.cost,
    {
        self.cost
    }

    /// Price per asset times amount.
    pub fn get_value(&self) -> (r: DecimalNum)
        ensures
            r@ == spec_times(self.price_per_asset@, self.amount@),
    {
        self.price_per_asset.multiplied_by(&self.amount)
    }

    pub fn is_buy(&self) -> (r: bool)
        ensures
            r == (self.trade_type == TradeType::Buy),
    {
        self.trade_type == TradeType::Buy
    }

    pub fn is_sell(&self) -> (r: bool)
        ensures
            r == (self.trade_type == TradeType::Sell),
    {
        self.trade_type == TradeType::Sell
    }
}

} // verus!

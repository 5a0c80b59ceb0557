//! The parameters of a cost calculation, the cost-model trait and the cost
//! models of the library.
use vstd::prelude::*;
use crate::num::{DecView, DecimalNum, MAX_SCALE, finite_view, fits_i32, spec_num_eq, spec_times};

verus! {

/// All the parameters that a cost calculation needs.
#[derive(Clone, Copy, Debug)]
pub struct CostContext {
    pub entry_price: DecimalNum,
    pub amount: DecimalNum,
    pub entry_index: Option<usize>,
    pub final_index: Option<usize>,
    pub is_closed: bool,
}

impl CostContext {
    pub fn build(
        entry_price: DecimalNum,
        amount: DecimalNum,
        entry_index: Option<usize>,
        final_index: Option<usize>,
        is_closed: bool,
    ) -> (r: CostContext)
        ensures
            r == (CostContext { entry_price, amount, entry_index, final_index, is_closed }),
    {
        CostContext { entry_price, amount, entry_index, final_index, is_closed }
    }
}

/// A model of what trades and positions cost. Each method's result is given by
/// the matching spec function.
pub trait CostModel: Sized + Copy {
    /// Cost of a position evaluated at a given index.
    spec fn spec_calculate_with_index(&self, ctx: CostContext) -> DecView;

    /// Current cost of a position.
    spec fn spec_calculate_position(&self, ctx: CostContext) -> DecView;

    /// Cost of one trade.
    spec fn spec_calculate_trade(&self, price: DecView, amount: DecView) -> DecView;

    /// Whether two models are equal.
    spec fn spec_equals(&self, other: &Self) -> bool;

    fn calculate_with_index(&self, ctx: &CostContext) -> (r: DecimalNum)
        ensures
            r@ == self.spec_calculate_with_index(*ctx),
    ;

    fn calculate_position(&self, ctx: &CostContext) -> (r: DecimalNum)
        ensures
            r@ == self.spec_calculate_position(*ctx),
    ;

    fn calculate_trade(&self, price: &DecimalNum, amount: &DecimalNum) -> (r: DecimalNum)
        ensures
            r@ == self.spec_calculate_trade(price@, amount@),
    ;

    fn equals(&self, other: &Self) -> (r: bool)
        ensures
            r == self.spec_equals(other),
    ;
}

/// A fixed fee per trade: a position costs one fee while open and two once closed.
#[derive(Clone, Copy, Debug)]
pub struct FixedTransactionCostModel {
    pub fee_per_trade: DecimalNum,
}

/// The fee of a position under a fixed fee per trade.
pub open spec fn fixed_position_cost(fee: DecView, is_closed: bool) -> DecView {
    spec_times(fee, if is_closed { finite_view(2, 0) } else { finite_view(1, 0) })
}

/// A fixed fee per trade costs a position one fee while open and two fees once
/// closed: exactly `fee` and `2 * fee` for a fee whose mantissa is below `2^31`.
pub proof fn law_fixed_cost_counts_trades(fee: DecView)
    requires
        !fee.nan,
        fee.scale <= MAX_SCALE,
        fits_i32(fee.mantissa as int),
    ensures
        fixed_position_cost(fee, false) == if fee.mantissa == 0 { finite_view(0, 0) } else { fee },
        fixed_position_cost(fee, true) == if fee.mantissa == 0 {
            finite_view(0, 0)
        } else {
            finite_view((2 * fee.mantissa) as i128, fee.scale)
        },
{
}

impl FixedTransactionCostModel {
    pub fn new(fee_per_trade: DecimalNum) -> (r: FixedTransactionCostModel)
        ensures
            r.fee_per_trade == fee_per_trade,
    {
        FixedTransactionCostModel { fee_per_trade }
    }
}

impl CostModel for FixedTransactionCostModel {
    open spec fn spec_calculate_with_index(&self, ctx: CostContext) -> DecView {
        fixed_position_cost(self.fee_per_trade@, ctx.is_closed)
    }

    open spec fn spec_calculate_position(&self, ctx: CostContext) -> DecView {
        fixed_position_cost(self.fee_per_trade@, ctx.is_closed)
    }

    open spec fn spec_calculate_trade(&self, price: DecView, amount: DecView) -> DecView {
        self.fee_per_trade@
    }

    open spec fn spec_equals(&self, other: &Self) -> bool {
        spec_num_eq(self.fee_per_trade@, other.fee_per_trade@)
    }

    /// The fee does not depend on the index: same as `calculate_position`.
    fn calculate_with_index(&self, ctx: &CostContext) -> (r: DecimalNum) {
        self.calculate_position(ctx)
    }

    /// One fee for an open position, two for a closed one.
    fn calculate_position(&self, ctx: &CostContext) -> (r: DecimalNum) {
        let multiplier = if ctx.is_closed {
            DecimalNum::from_i64(2)
        } else {
            DecimalNum::one()
        };
        self.fee_per_trade.multiplied_by(&multiplier)
    }

    /// One fee, whatever the price and the amount.
    fn calculate_trade(&self, price: &DecimalNum, amount: &DecimalNum) -> (r: DecimalNum) {
        self.fee_per_trade
    }

    fn equals(&self, other: &Self) -> (r: bool) {
        self.fee_per_trade.is_equal(&other.fee_per_trade)
    }
}

/// No cost at all: a fixed fee of zero.
#[derive(Clone, Copy, Debug)]
pub struct ZeroCostModel {
    inner: FixedTransactionCostModel,
}

impl ZeroCostModel {
    #[verifier::type_invariant]
    spec fn inv(self) -> bool {
        self.inner.fee_per_trade@ == finite_view(0, 0)
    }

    pub fn new() -> (r: ZeroCostModel) {
        ZeroCostModel { inner: FixedTransactionCostModel::new(DecimalNum::zero()) }
    }
}

impl CostModel for ZeroCostModel {
    open spec fn spec_calculate_with_index(&self, ctx: CostContext) -> DecView {
        fixed_position_cost(finite_view(0, 0), ctx.is_closed)
    }

    open spec fn spec_calculate_position(&self, ctx: CostContext) -> DecView {
        fixed_position_cost(finite_view(0, 0), ctx.is_closed)
    }

    open spec fn spec_calculate_trade(&self, price: DecView, amount: DecView) -> DecView {
        finite_view(0, 0)
    }

    open spec fn spec_equals(&self, other: &Self) -> bool {
        true
    }

    fn calculate_with_index(&self, ctx: &CostContext) -> (r: DecimalNum) {
        proof {
            use_type_invariant(self);
        }
        self.inner.calculate_with_index(ctx)
    }

    fn calculate_position(&self, ctx: &CostContext) -> (r: DecimalNum) {
        proof {
            use_type_invariant(self);
        }
        self.inner.calculate_position(ctx)
    }

    fn calculate_trade(&self, price: &DecimalNum, amount: &DecimalNum) -> (r: DecimalNum) {
        proof {
            use_type_invariant(self);
        }
        self.inner.calculate_trade(price, amount)
    }

    fn equals(&self, other: &Self) -> (r: bool) {
        proof {
            use_type_invariant(self);
            use_type_invariant(other);
        }
        self.inner.equals(&other.inner)
    }
}

} // verus!

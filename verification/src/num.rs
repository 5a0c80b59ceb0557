//! Decimal numbers backed by `rust_decimal`, with a NaN value that absorbs
//! failed operations, and the errors of numeric operations.
use vstd::prelude::*;
use vstd::arithmetic::power::pow;
use vstd::std_specs::cmp::PartialEqSpecImpl;

verus! {

/// Largest magnitude of a `rust_decimal` mantissa (96 bits).
pub const MAX_MANTISSA: i128 = 0xFFFF_FFFF_FFFF_FFFF_FFFF_FFFFi128;

/// Largest scale (number of fractional digits) of a `rust_decimal` value.
pub const MAX_SCALE: u32 = 28u32;

/// `2^32`: a mantissa below it in magnitude fits in 32 bits.
pub const U32_BOUND: i128 = 0x1_0000_0000i128;

/// `2^64`: a mantissa below it in magnitude fits in 64 bits.
pub const U64_BOUND: i128 = 0x1_0000_0000_0000_0000i128;

/// `2^96`: a mantissa must be below it in magnitude.
pub const U96_BOUND: i128 = 0x1_0000_0000_0000_0000_0000_0000i128;

/// Largest difference of scales that `rust_decimal` aligns within 128 bits.
pub const MAX_ALIGN: u32 = 19u32;

/// A mantissa and a scale that `rust_decimal` can represent.
pub open spec fn raw_wf(m: i128, s: u32) -> bool {
    -MAX_MANTISSA <= m <= MAX_MANTISSA && s <= MAX_SCALE
}

/// The value `m / 10^s`, expressed in units of `10^-28` (an integer, since `s <= 28`).
pub open spec fn raw_value(m: i128, s: u32) -> int {
    m * pow(10, (MAX_SCALE - s) as nat)
}

/// The result of `rust_decimal::Decimal::checked_add` on two decimals given by
/// mantissa and scale, as mantissa and scale (`None` on overflow).
pub uninterp spec fn decimal_checked_add(a: (i128, u32), b: (i128, u32)) -> Option<(i128, u32)>;

/// The result of `rust_decimal::Decimal::checked_sub`, as for `decimal_checked_add`.
pub uninterp spec fn decimal_checked_sub(a: (i128, u32), b: (i128, u32)) -> Option<(i128, u32)>;

/// The result of `rust_decimal::Decimal::checked_mul`, as for `decimal_checked_add`.
pub uninterp spec fn decimal_checked_mul(a: (i128, u32), b: (i128, u32)) -> Option<(i128, u32)>;

/// The result of `rust_decimal::Decimal::checked_div`, as for `decimal_checked_add`
/// (`None` on division by zero or overflow).
pub uninterp spec fn decimal_checked_div(a: (i128, u32), b: (i128, u32)) -> Option<(i128, u32)>;

/// A mantissa that fits in 64 bits.
pub open spec fn fits_u64(m: i128) -> bool {
    -U64_BOUND < m < U64_BOUND
}

/// A mantissa that fits in 32 bits.
pub open spec fn fits_u32(m: i128) -> bool {
    -U32_BOUND < m < U32_BOUND
}

/// `2^31`: products of two mantissas below it in magnitude fit in 62 bits.
pub const I32_BOUND: i128 = 0x8000_0000i128;

/// A mantissa below `2^31` in magnitude.
pub open spec fn fits_i32(m: int) -> bool {
    -I32_BOUND < m < I32_BOUND
}

/// A product of two mantissas below `2^31` in magnitude is below `2^62`.
pub proof fn lemma_small_product(x: int, y: int)
    requires
        fits_i32(x),
        fits_i32(y),
    ensures
        -0x4000_0000_0000_0000 < x * y < 0x4000_0000_0000_0000,
{
    assert(-0x4000_0000_0000_0000 < x * y < 0x4000_0000_0000_0000) by (nonlinear_arith)
        requires
            -0x8000_0000 < x < 0x8000_0000,
            -0x8000_0000 < y < 0x8000_0000,
    ;
}

/// The larger of two scales.
pub open spec fn larger_scale(a: u32, b: u32) -> u32 {
    if a < b { b } else { a }
}

/// Mantissa `m` of scale `s` rescaled to the larger scale `t`.
pub open spec fn rescaled(m: i128, s: u32, t: u32) -> int {
    m * pow(10, (t - s) as nat)
}

/// Both mantissas fit in 64 bits and the scales differ by at most 19 digits,
/// so that `rust_decimal` can align them within 128 bits.
pub open spec fn aligns(a: (i128, u32), b: (i128, u32)) -> bool {
    &&& fits_u64(a.0) && fits_u64(b.0)
    &&& a.1 <= b.1 + MAX_ALIGN && b.1 <= a.1 + MAX_ALIGN
}

/// Sum of two mantissas aligned to the larger of their scales.
pub open spec fn aligned_sum(a: (i128, u32), b: (i128, u32)) -> int {
    let t = larger_scale(a.1, b.1);
    rescaled(a.0, a.1, t) + rescaled(b.0, b.1, t)
}

/// Difference of two mantissas aligned to the larger of their scales.
pub open spec fn aligned_difference(a: (i128, u32), b: (i128, u32)) -> int {
    let t = larger_scale(a.1, b.1);
    rescaled(a.0, a.1, t) - rescaled(b.0, b.1, t)
}

/// What `rust_decimal::Decimal::checked_add` gives: its source (`ops/add.rs`)
/// returns the other operand when one is zero (the first when both are); adds
/// the mantissas exactly when the scales are equal and both mantissas fit in
/// 64 bits (their sum then fits in 96); and, when both fit in 64 bits and the
/// scales differ by at most 19, adds them aligned to the larger scale, exactly
/// when the result fits in 96 bits; otherwise the named result.
pub open spec fn decimal_add(a: (i128, u32), b: (i128, u32)) -> Option<(i128, u32)> {
    if a.0 == 0 {
        Some(b)
    } else if b.0 == 0 {
        Some(a)
    } else if a.1 == b.1 && fits_u64(a.0) && fits_u64(b.0) {
        Some(((a.0 + b.0) as i128, a.1))
    } else if aligns(a, b) && -U96_BOUND < aligned_sum(a, b) < U96_BOUND {
        Some((aligned_sum(a, b) as i128, larger_scale(a.1, b.1)))
    } else {
        decimal_checked_add(a, b)
    }
}

/// What `rust_decimal::Decimal::checked_sub` gives: `0 - b` is `-b`, `a - 0` is
/// `a`, with equal scales and mantissas that fit in 64 bits the mantissas are
/// subtracted exactly, and with scales that differ by at most 19 they are
/// subtracted aligned to the larger scale where the result fits in 96 bits;
/// otherwise the named result.
pub open spec fn decimal_sub(a: (i128, u32), b: (i128, u32)) -> Option<(i128, u32)> {
    if a.0 == 0 {
        Some(((-b.0) as i128, b.1))
    } else if b.0 == 0 {
        Some(a)
    } else if a.1 == b.1 && fits_u64(a.0) && fits_u64(b.0) {
        Some(((a.0 - b.0) as i128, a.1))
    } else if aligns(a, b) && -U96_BOUND < aligned_difference(a, b) < U96_BOUND {
        Some((aligned_difference(a, b) as i128, larger_scale(a.1, b.1)))
    } else {
        decimal_checked_sub(a, b)
    }
}

/// What `rust_decimal::Decimal::checked_mul` gives: its source (`ops/mul.rs`)
/// gives zero of scale 0 when an operand is zero, and multiplies mantissas that
/// fit in 32 bits exactly, adding the scales, when the scales add up to at most
/// 28; otherwise the named result.
pub open spec fn decimal_mul(a: (i128, u32), b: (i128, u32)) -> Option<(i128, u32)> {
    if a.0 == 0 || b.0 == 0 {
        Some((0i128, 0u32))
    } else if fits_u32(a.0) && fits_u32(b.0) && a.1 + b.1 <= MAX_SCALE {
        Some(((a.0 * b.0) as i128, (a.1 + b.1) as u32))
    } else {
        decimal_checked_mul(a, b)
    }
}

/// What `rust_decimal::Decimal::checked_div` gives: `None` for a zero divisor,
/// as its documentation says; its source (`ops/div.rs`) gives zero of scale 0
/// for a zero dividend and, for a divisor whose mantissa fits in 32 bits and
/// divides the dividend's, with a scale no larger, the exact quotient at the
/// difference of the scales; otherwise the named result.
pub open spec fn decimal_div(a: (i128, u32), b: (i128, u32)) -> Option<(i128, u32)> {
    if b.0 == 0 {
        None
    } else if a.0 == 0 {
        Some((0i128, 0u32))
    } else if fits_u32(b.0) && a.1 >= b.1 && a.0 % b.0 == 0 {
        Some(((a.0 / b.0) as i128, (a.1 - b.1) as u32))
    } else {
        decimal_checked_div(a, b)
    }
}

/// Calls `rust_decimal::Decimal::checked_add`. Claims: the result is the named
/// result `decimal_checked_add` of the two operands, it is `decimal_add` of
/// them (exact in the cases that function spells out), and a returned decimal
/// is representable (as every `Decimal` is).
#[verifier::external_body]
fn raw_checked_add(am: i128, ascale: u32, bm: i128, bscale: u32) -> (r: Option<(i128, u32)>)
    requires
        raw_wf(am, ascale),
        raw_wf(bm, bscale),
    ensures
        r == decimal_checked_add((am, ascale), (bm, bscale)),
        r == decimal_add((am, ascale), (bm, bscale)),
        r matches Some((m, s)) ==> raw_wf(m, s),
{
    let a = rust_decimal::Decimal::from_i128_with_scale(am, ascale);
    let b = rust_decimal::Decimal::from_i128_with_scale(bm, bscale);
    a.checked_add(b).map(|d| (d.mantissa(), d.scale()))
}

/// Calls `rust_decimal::Decimal::checked_sub`; claims as for `raw_checked_add`,
/// with `decimal_sub`.
#[verifier::external_body]
fn raw_checked_sub(am: i128, ascale: u32, bm: i128, bscale: u32) -> (r: Option<(i128, u32)>)
    requires
        raw_wf(am, ascale),
        raw_wf(bm, bscale),
    ensures
        r == decimal_checked_sub((am, ascale), (bm, bscale)),
        r == decimal_sub((am, ascale), (bm, bscale)),
        r matches Some((m, s)) ==> raw_wf(m, s),
{
    let a = rust_decimal::Decimal::from_i128_with_scale(am, ascale);
    let b = rust_decimal::Decimal::from_i128_with_scale(bm, bscale);
    a.checked_sub(b).map(|d| (d.mantissa(), d.scale()))
}

/// Calls `rust_decimal::Decimal::checked_mul`; claims as for `raw_checked_add`,
/// with `decimal_mul`.
#[verifier::external_body]
fn raw_checked_mul(am: i128, ascale: u32, bm: i128, bscale: u32) -> (r: Option<(i128, u32)>)
    requires
        raw_wf(am, ascale),
        raw_wf(bm, bscale),
    ensures
        r == decimal_checked_mul((am, ascale), (bm, bscale)),
        r == decimal_mul((am, ascale), (bm, bscale)),
        r matches Some((m, s)) ==> raw_wf(m, s),
{
    let a = rust_decimal::Decimal::from_i128_with_scale(am, ascale);
    let b = rust_decimal::Decimal::from_i128_with_scale(bm, bscale);
    a.checked_mul(b).map(|d| (d.mantissa(), d.scale()))
}

/// Calls `rust_decimal::Decimal::checked_div`; claims as for `raw_checked_add`,
/// with `decimal_div` (so `None` for a zero divisor).
#[verifier::external_body]
fn raw_checked_div(am: i128, ascale: u32, bm: i128, bscale: u32) -> (r: Option<(i128, u32)>)
    requires
        raw_wf(am, ascale),
        raw_wf(bm, bscale),
    ensures
        r == decimal_checked_div((am, ascale), (bm, bscale)),
        r == decimal_div((am, ascale), (bm, bscale)),
        r matches Some((m, s)) ==> raw_wf(m, s),
{
    let a = rust_decimal::Decimal::from_i128_with_scale(am, ascale);
    let b = rust_decimal::Decimal::from_i128_with_scale(bm, bscale);
    a.checked_div(b).map(|d| (d.mantissa(), d.scale()))
}

/// Compares two decimals with `Ord::cmp` of `rust_decimal::Decimal`, which
/// compares numeric values whatever the scales: claims that the result is -1,
/// 0 or 1 as the value of the first is below, equal to or above that of the
/// second.
#[verifier::external_body]
fn raw_compare(am: i128, ascale: u32, bm: i128, bscale: u32) -> (r: i8)
    requires
        raw_wf(am, ascale),
        raw_wf(bm, bscale),
    ensures
        r == -1 <==> raw_value(am, ascale) < raw_value(bm, bscale),
        r == 0 <==> raw_value(am, ascale) == raw_value(bm, bscale),
        r == 1 <==> raw_value(am, ascale) > raw_value(bm, bscale),
{
    let a = rust_decimal::Decimal::from_i128_with_scale(am, ascale);
    let b = rust_decimal::Decimal::from_i128_with_scale(bm, bscale);
    match a.cmp(&b) {
        std::cmp::Ordering::Less => -1,
        std::cmp::Ordering::Equal => 0,
        std::cmp::Ordering::Greater => 1,
    }
}

/// Errors of numeric operations.
#[derive(Debug, Clone, PartialEq, Eq)]
pub enum NumError {
    DivisionByZero,
    Overflow,
    InvalidFormat,
    PositionOperateError(String),
}

impl NumError {
    /// The message that describes the error.
    pub open spec fn spec_message(&self) -> Seq<char> {
        match self {
            NumError::DivisionByZero => "Division by zero"@,
            NumError::Overflow => "Arithmetic overflow"@,
            NumError::InvalidFormat => "Invalid number format"@,
            NumError::PositionOperateError(message) => message@,
        }
    }

    /// A message that describes the error.
    pub fn describe(&self) -> (r: String)
        ensures
            r@ == self.spec_message(),
    {
        match self {
            NumError::DivisionByZero => "Division by zero".to_string(),
            NumError::Overflow => "Arithmetic overflow".to_string(),
            NumError::InvalidFormat => "Invalid number format".to_string(),
            NumError::PositionOperateError(message) => message.clone(),
        }
    }
}

/// The mathematical content of a `DecimalNum`.
pub struct DecView {
    pub nan: bool,
    pub mantissa: i128,
    pub scale: u32,
}

impl DecView {
    /// Value in units of `10^-28` (meaningless for NaN).
    pub open spec fn value(self) -> int {
        raw_value(self.mantissa, self.scale)
    }

    pub open spec fn finite(self) -> bool {
        !self.nan
    }
}

pub open spec fn nan_view() -> DecView {
    DecView { nan: true, mantissa: 0, scale: 0 }
}

pub open spec fn finite_view(m: i128, s: u32) -> DecView {
    DecView { nan: false, mantissa: m, scale: s }
}

/// From the named result of an outside operation: a decimal, or NaN on failure.
pub open spec fn from_checked(r: Option<(i128, u32)>) -> DecView {
    match r {
        Some((m, s)) => finite_view(m, s),
        None => nan_view(),
    }
}

/// Sum: NaN if an operand is NaN or the sum overflows.
pub open spec fn spec_plus(a: DecView, b: DecView) -> DecView {
    if a.nan || b.nan {
        nan_view()
    } else {
        from_checked(decimal_add((a.mantissa, a.scale), (b.mantissa, b.scale)))
    }
}

/// Difference: NaN if an operand is NaN or the difference overflows.
pub open spec fn spec_minus(a: DecView, b: DecView) -> DecView {
    if a.nan || b.nan {
        nan_view()
    } else {
        from_checked(decimal_sub((a.mantissa, a.scale), (b.mantissa, b.scale)))
    }
}

/// Product: NaN if an operand is NaN or the product overflows.
pub open spec fn spec_times(a: DecView, b: DecView) -> DecView {
    if a.nan || b.nan {
        nan_view()
    } else {
        from_checked(decimal_mul((a.mantissa, a.scale), (b.mantissa, b.scale)))
    }
}

/// Quotient as `divided_by` gives it, or the error it gives.
pub open spec fn spec_divided_by(a: DecView, b: DecView) -> Result<DecView, NumError> {
    if a.nan || b.nan {
        Ok(nan_view())
    } else if b.mantissa == 0 {
        Err(NumError::DivisionByZero)
    } else {
        match decimal_div((a.mantissa, a.scale), (b.mantissa, b.scale)) {
            Some((m, s)) => Ok(finite_view(m, s)),
            None => Err(NumError::Overflow),
        }
    }
}

/// Quotient that is NaN where `divided_by` fails.
pub open spec fn spec_div_or_nan(a: DecView, b: DecView) -> DecView {
    match spec_divided_by(a, b) {
        Ok(q) => q,
        Err(_) => nan_view(),
    }
}

pub open spec fn spec_neg(a: DecView) -> DecView {
    if a.nan { nan_view() } else { finite_view((-a.mantissa) as i128, a.scale) }
}

pub open spec fn spec_abs(a: DecView) -> DecView {
    if a.nan { nan_view() } else if a.mantissa < 0 { finite_view((-a.mantissa) as i128, a.scale) } else { a }
}

/// `a > b`; false when either is NaN.
pub open spec fn spec_gt(a: DecView, b: DecView) -> bool {
    !a.nan && !b.nan && a.value() > b.value()
}

/// `a < b`; false when either is NaN.
pub open spec fn spec_lt(a: DecView, b: DecView) -> bool {
    !a.nan && !b.nan && a.value() < b.value()
}

/// `a >= b`; false when either is NaN.
pub open spec fn spec_ge(a: DecView, b: DecView) -> bool {
    !a.nan && !b.nan && a.value() >= b.value()
}

/// `a <= b`; false when either is NaN.
pub open spec fn spec_le(a: DecView, b: DecView) -> bool {
    !a.nan && !b.nan && a.value() <= b.value()
}

/// Equal values, or both NaN.
pub open spec fn spec_num_eq(a: DecView, b: DecView) -> bool {
    (a.nan && b.nan) || (!a.nan && !b.nan && a.value() == b.value())
}

/// The larger of two numbers (the first on a tie); NaN if either is NaN.
pub open spec fn spec_max(a: DecView, b: DecView) -> DecView {
    if a.nan || b.nan { nan_view() } else if a.value() < b.value() { b } else { a }
}

/// The smaller of two numbers (the first on a tie); NaN if either is NaN.
pub open spec fn spec_min(a: DecView, b: DecView) -> DecView {
    if a.nan || b.nan { nan_view() } else if a.value() > b.value() { b } else { a }
}

/// A decimal number as `rust_decimal::Decimal` holds it (a 96-bit mantissa and
/// a scale of at most 28 digits), or NaN. Operations that fail (an overflow)
/// give NaN, and NaN absorbs every arithmetic operation.
#[derive(Clone, Copy, Debug)]
pub struct DecimalNum {
    nan: bool,
    mantissa: i128,
    scale: u32,
}

impl View for DecimalNum {
    type V = DecView;

    closed spec fn view(&self) -> DecView {
        DecView { nan: self.nan, mantissa: self.mantissa, scale: self.scale }
    }
}

impl DecimalNum {
    #[verifier::type_invariant]
    spec fn inv(self) -> bool {
        if self.nan {
            self.mantissa == 0 && self.scale == 0
        } else {
            raw_wf(self.mantissa, self.scale)
        }
    }

    /// The views of decimal numbers: NaN, or a representable mantissa and scale.
    pub open spec fn view_wf(v: DecView) -> bool {
        if v.nan { v.mantissa == 0 && v.scale == 0 } else { raw_wf(v.mantissa, v.scale) }
    }

    fn from_view_parts(nan: bool, mantissa: i128, scale: u32) -> (r: DecimalNum)
        requires
            Self::view_wf(DecView { nan, mantissa, scale }),
        ensures
            r@ == (DecView { nan, mantissa, scale }),
    {
        DecimalNum { nan, mantissa, scale }
    }

    fn from_checked(r: Option<(i128, u32)>) -> (d: DecimalNum)
        requires
            r matches Some((m, s)) ==> raw_wf(m, s),
        ensures
            d@ == from_checked(r),
    {
        match r {
            Some((m, s)) => Self::from_view_parts(false, m, s),
            None => Self::nan(),
        }
    }

    /// The number whose mantissa is `mantissa` and scale `scale`
    /// (value `mantissa / 10^scale`), if `rust_decimal` can represent it.
    pub fn from_parts(mantissa: i128, scale: u32) -> (r: Option<DecimalNum>)
        ensures
            r is Some <==> raw_wf(mantissa, scale),
            r matches Some(d) ==> d@ == finite_view(mantissa, scale),
    {
        if -MAX_MANTISSA <= mantissa && mantissa <= MAX_MANTISSA && scale <= MAX_SCALE {
            Some(DecimalNum { nan: false, mantissa, scale })
        } else {
            None
        }
    }

    /// The integer `n`.
    pub fn from_i64(n: i64) -> (r: DecimalNum)
        ensures
            r@ == finite_view(n as i128, 0),
    {
        DecimalNum { nan: false, mantissa: n as i128, scale: 0 }
    }

    /// The integer `n`.
    pub fn from_usize(n: usize) -> (r: DecimalNum)
        ensures
            r@ == finite_view(n as i128, 0),
    {
        assert(n <= usize::MAX);
        DecimalNum { nan: false, mantissa: n as i128, scale: 0 }
    }

    pub fn zero() -> (r: DecimalNum)
        ensures
            r@ == finite_view(0, 0),
    {
        Self::from_i64(0)
    }

    pub fn one() -> (r: DecimalNum)
        ensures
            r@ == finite_view(1, 0),
    {
        Self::from_i64(1)
    }

    pub fn nan() -> (r: DecimalNum)
        ensures
            r@ == nan_view(),
    {
        DecimalNum { nan: true, mantissa: 0, scale: 0 }
    }

    pub fn is_nan(&self) -> (r: bool)
        ensures
            r == self@.nan,
    {
        self.nan
    }

    /// The mantissa (0 for NaN).
    pub fn mantissa(&self) -> (r: i128)
        ensures
            r == self@.mantissa,
    {
        self.mantissa
    }

    /// The scale (0 for NaN).
    pub fn scale(&self) -> (r: u32)
        ensures
            r == self@.scale,
    {
        self.scale
    }

    /// Every decimal number has a well-formed view.
    pub fn lemma_wf(&self)
        ensures
            Self::view_wf(self@),
    {
        proof {
            use_type_invariant(self);
        }
    }

    pub fn is_zero(&self) -> (r: bool)
        ensures
            r == (!self@.nan && self@.value() == 0),
    {
        proof {
            use_type_invariant(self);
            lemma_sign(self@.mantissa, self@.scale);
        }
        !self.nan && self.mantissa == 0
    }

    pub fn is_one(&self) -> (r: bool)
        ensures
            r == (!self@.nan && self@.value() == raw_value(1, 0)),
    {
        let one = DecimalNum::one();
        !self.nan && self.is_equal(&one)
    }

    pub fn is_positive(&self) -> (r: bool)
        ensures
            r == (!self@.nan && self@.value() > 0),
    {
        proof {
            use_type_invariant(self);
            lemma_sign(self@.mantissa, self@.scale);
        }
        !self.nan && self.mantissa > 0
    }

    pub fn is_negative(&self) -> (r: bool)
        ensures
            r == (!self@.nan && self@.value() < 0),
    {
        proof {
            use_type_invariant(self);
            lemma_sign(self@.mantissa, self@.scale);
        }
        !self.nan && self.mantissa < 0
    }

    pub fn plus(&self, other: &DecimalNum) -> (r: DecimalNum)
        ensures
            r@ == spec_plus(self@, other@),
    {
        proof {
            use_type_invariant(self);
            use_type_invariant(other);
        }
        if self.nan || other.nan {
            return Self::nan();
        }
        Self::from_checked(raw_checked_add(self.mantissa, self.scale, other.mantissa, other.scale))
    }

    pub fn minus(&self, other: &DecimalNum) -> (r: DecimalNum)
        ensures
            r@ == spec_minus(self@, other@),
    {
        proof {
            use_type_invariant(self);
            use_type_invariant(other);
        }
        if self.nan || other.nan {
            return Self::nan();
        }
        Self::from_checked(raw_checked_sub(self.mantissa, self.scale, other.mantissa, other.scale))
    }

    pub fn multiplied_by(&self, other: &DecimalNum) -> (r: DecimalNum)
        ensures
            r@ == spec_times(self@, other@),
    {
        proof {
            use_type_invariant(self);
            use_type_invariant(other);
        }
        if self.nan || other.nan {
            return Self::nan();
        }
        Self::from_checked(raw_checked_mul(self.mantissa, self.scale, other.mantissa, other.scale))
    }

    /// Quotient; NaN if an operand is NaN; an error on a zero divisor or an overflow.
    pub fn divided_by(&self, other: &DecimalNum) -> (r: Result<DecimalNum, NumError>)
        ensures
            r matches Ok(q) ==> spec_divided_by(self@, other@) == Ok::<DecView, NumError>(q@),
            r matches Err(e) ==> spec_divided_by(self@, other@) == Err::<DecView, NumError>(e),
    {
        proof {
            use_type_invariant(self);
            use_type_invariant(other);
        }
        if self.nan || other.nan {
            return Ok(Self::nan());
        }
        if other.mantissa == 0 {
            return Err(NumError::DivisionByZero);
        }
        match raw_checked_div(self.mantissa, self.scale, other.mantissa, other.scale) {
            Some((m, s)) => Ok(Self::from_view_parts(false, m, s)),
            None => Err(NumError::Overflow),
        }
    }

    /// Quotient, NaN where `divided_by` gives an error.
    pub fn div_or_nan(&self, other: &DecimalNum) -> (r: DecimalNum)
        ensures
            r@ == spec_div_or_nan(self@, other@),
    {
        match self.divided_by(other) {
            Ok(q) => q,
            Err(_) => Self::nan(),
        }
    }

    pub fn neg(&self) -> (r: DecimalNum)
        ensures
            r@ == spec_neg(self@),
    {
        proof {
            use_type_invariant(self);
        }
        if self.nan {
            Self::nan()
        } else {
            DecimalNum { nan: false, mantissa: -self.mantissa, scale: self.scale }
        }
    }

    pub fn abs(&self) -> (r: DecimalNum)
        ensures
            r@ == spec_abs(self@),
    {
        proof {
            use_type_invariant(self);
        }
        if self.nan {
            Self::nan()
        } else if self.mantissa < 0 {
            DecimalNum { nan: false, mantissa: -self.mantissa, scale: self.scale }
        } else {
            *self
        }
    }

    /// -1, 0 or 1 as the value of `self` is below, equal to or above that of
    /// `other`; both must be finite.
    fn compare(&self, other: &DecimalNum) -> (r: i8)
        requires
            !self@.nan,
            !other@.nan,
        ensures
            r == -1 <==> self@.value() < other@.value(),
            r == 0 <==> self@.value() == other@.value(),
            r == 1 <==> self@.value() > other@.value(),
    {
        proof {
            use_type_invariant(self);
            use_type_invariant(other);
        }
        raw_compare(self.mantissa, self.scale, other.mantissa, other.scale)
    }

    pub fn is_greater_than(&self, other: &DecimalNum) -> (r: bool)
        ensures
            r == spec_gt(self@, other@),
    {
        if self.nan || other.nan {
            false
        } else {
            self.compare(other) == 1
        }
    }

    pub fn is_greater_than_or_equal(&self, other: &DecimalNum) -> (r: bool)
        ensures
            r == spec_ge(self@, other@),
    {
        if self.nan || other.nan {
            false
        } else {
            self.compare(other) != -1
        }
    }

    pub fn is_less_than(&self, other: &DecimalNum) -> (r: bool)
        ensures
            r == spec_lt(self@, other@),
    {
        if self.nan || other.nan {
            false
        } else {
            self.compare(other) == -1
        }
    }

    pub fn is_less_than_or_equal(&self, other: &DecimalNum) -> (r: bool)
        ensures
            r == spec_le(self@, other@),
    {
        if self.nan || other.nan {
            false
        } else {
            self.compare(other) != 1
        }
    }

    /// Equal values (whatever the scales), or both NaN.
    pub fn is_equal(&self, other: &DecimalNum) -> (r: bool)
        ensures
            r == spec_num_eq(self@, other@),
    {
        if self.nan || other.nan {
            self.nan && other.nan
        } else {
            self.compare(other) == 0
        }
    }

    pub fn max(&self, other: &DecimalNum) -> (r: DecimalNum)
        ensures
            r@ == spec_max(self@, other@),
    {
        if self.nan || other.nan {
            Self::nan()
        } else if self.compare(other) == -1 {
            *other
        } else {
            *self
        }
    }

    pub fn min(&self, other: &DecimalNum) -> (r: DecimalNum)
        ensures
            r@ == spec_min(self@, other@),
    {
        if self.nan || other.nan {
            Self::nan()
        } else if self.compare(other) == 1 {
            *other
        } else {
            *self
        }
    }
}

/// NaN absorbs every arithmetic operation: a sum, difference, product,
/// quotient, negation or absolute value with a NaN operand is NaN, and NaN
/// compares neither above, below nor equal to a number.
pub proof fn law_nan_absorbs(a: DecView)
    ensures
        spec_plus(nan_view(), a).nan && spec_plus(a, nan_view()).nan,
        spec_minus(nan_view(), a).nan && spec_minus(a, nan_view()).nan,
        spec_times(nan_view(), a).nan && spec_times(a, nan_view()).nan,
        spec_divided_by(nan_view(), a) == Ok::<DecView, NumError>(nan_view()),
        spec_divided_by(a, nan_view()) == Ok::<DecView, NumError>(nan_view()),
        spec_neg(nan_view()).nan && spec_abs(nan_view()).nan,
        !spec_gt(nan_view(), a) && !spec_lt(nan_view(), a) && !spec_ge(nan_view(), a) && !spec_le(nan_view(), a),
        !a.nan ==> !spec_num_eq(nan_view(), a),
{
}

/// The larger and the smaller of two numbers are one of them; the larger is
/// at least, and the smaller at most, each of them.
pub proof fn law_max_min(a: DecView, b: DecView)
    requires
        !a.nan,
        !b.nan,
    ensures
        spec_max(a, b) == a || spec_max(a, b) == b,
        spec_min(a, b) == a || spec_min(a, b) == b,
        spec_max(a, b).value() >= a.value() && spec_max(a, b).value() >= b.value(),
        spec_min(a, b).value() <= a.value() && spec_min(a, b).value() <= b.value(),
        spec_gt(a, b) == spec_lt(b, a),
        spec_ge(a, b) == !spec_lt(a, b),
{
}

/// Arithmetic on decimals of one scale with small mantissas is exact: the sum
/// and difference keep the scale, the product adds the scales, and a quotient
/// by a 32-bit divisor of scale 0 that divides the mantissa keeps the scale
/// (zero results aside, which `rust_decimal` gives at scale 0 or at the scale
/// of the other operand).
pub proof fn law_exact_arithmetic(a: i128, b: i128, s: u32)
    requires
        s <= MAX_SCALE,
        fits_i32(a as int),
        fits_i32(b as int),
    ensures
        a != 0 && b != 0 ==> spec_plus(finite_view(a, s), finite_view(b, s)) == finite_view((a + b) as i128, s),
        a != 0 && b != 0 ==> spec_minus(finite_view(a, s), finite_view(b, s)) == finite_view((a - b) as i128, s),
        s + s <= MAX_SCALE && a != 0 && b != 0 ==> spec_times(finite_view(a, s), finite_view(b, s))
            == finite_view((a * b) as i128, (s + s) as u32),
        b != 0 && a != 0 && a % b == 0 ==> spec_divided_by(finite_view(a, s), finite_view(b, 0))
            == Ok::<DecView, NumError>(finite_view((a / b) as i128, s)),
        b == 0 ==> spec_divided_by(finite_view(a, s), finite_view(b, 0)) == Err::<DecView, NumError>(NumError::DivisionByZero),
{
    lemma_small_product(a as int, b as int);
}

/// The sign of a decimal's value is that of its mantissa.
pub proof fn lemma_sign(m: i128, s: u32)
    requires
        s <= MAX_SCALE,
    ensures
        (raw_value(m, s) > 0) == (m > 0),
        (raw_value(m, s) < 0) == (m < 0),
        (raw_value(m, s) == 0) == (m == 0),
{
    let p = pow(10, (MAX_SCALE - s) as nat);
    vstd::arithmetic::power::lemma_pow_positive(10, (MAX_SCALE - s) as nat);
    if m > 0 {
        vstd::arithmetic::mul::lemma_mul_strictly_positive(m as int, p);
    } else if m < 0 {
        vstd::arithmetic::mul::lemma_mul_strictly_positive(-m, p);
        vstd::arithmetic::mul::lemma_mul_unary_negation(m as int, p);
    }
}

/// Decimals of one scale are ordered as their mantissas.
pub proof fn lemma_same_scale_order(a: i128, b: i128, s: u32)
    requires
        s <= MAX_SCALE,
    ensures
        (raw_value(a, s) < raw_value(b, s)) == (a < b),
        (raw_value(a, s) == raw_value(b, s)) == (a == b),
{
    let p = pow(10, (MAX_SCALE - s) as nat);
    vstd::arithmetic::power::lemma_pow_positive(10, (MAX_SCALE - s) as nat);
    assert((a * p < b * p) == (a < b) && (a * p == b * p) == (a == b)) by (nonlinear_arith)
        requires
            p > 0,
    ;
}

/// Rescaling by `k <= 19` digits: the value of `m` at scale `s` is that of
/// `m * 10^k` at scale `s + k`, and `m * 10^k` stays below `2^94` in magnitude
/// for `m` below `2^30`.
pub proof fn lemma_pow10_align(m: int, s: u32, k: u32)
    requires
        s + k <= MAX_SCALE,
        k <= MAX_ALIGN,
    ensures
        pow(10, k as nat) >= 1,
        m * pow(10, (MAX_SCALE - s) as nat) == (m * pow(10, k as nat)) * pow(10, (MAX_SCALE - s - k) as nat),
        -0x4000_0000 < m < 0x4000_0000 ==> -0x4000_0000_0000_0000_0000_0000 < m * pow(10, k as nat) < 0x4000_0000_0000_0000_0000_0000,
        k == 0 ==> pow(10, k as nat) == 1,
{
    let q = pow(10, k as nat);
    let r = pow(10, (MAX_SCALE - s - k) as nat);
    vstd::arithmetic::power::lemma_pow_positive(10, k as nat);
    vstd::arithmetic::power::lemma_pow_adds(10, k as nat, (MAX_SCALE - s - k) as nat);
    vstd::arithmetic::power::lemma_pow_increases(10, k as nat, MAX_ALIGN as nat);
    vstd::arithmetic::power::lemma_pow0(10);
    assert(pow(10, MAX_ALIGN as nat) == 10_000_000_000_000_000_000) by {
        reveal_with_fuel(pow, 20);
    }
    assert(m * pow(10, (MAX_SCALE - s) as nat) == (m * q) * r) by (nonlinear_arith)
        requires
            pow(10, (MAX_SCALE - s) as nat) == q * r,
    ;
    assert(-0x4000_0000 < m < 0x4000_0000 ==> -0x4000_0000_0000_0000_0000_0000 < m * q < 0x4000_0000_0000_0000_0000_0000) by (nonlinear_arith)
        requires
            1 <= q <= 10_000_000_000_000_000_000,
    ;
}

/// Rescaling a mantissa below `2^62` from scale `s` up to `t`, at most 9
/// digits more, keeps its value and keeps it below `2^92`.
pub proof fn lemma_rescale_value(m: int, s: u32, t: u32)
    requires
        s <= t <= MAX_SCALE,
        t - s <= 9,
    ensures
        m * pow(10, (MAX_SCALE - s) as nat) == (m * pow(10, (t - s) as nat)) * pow(10, (MAX_SCALE - t) as nat),
        -0x4000_0000_0000_0000 < m < 0x4000_0000_0000_0000
            ==> -0x1000_0000_0000_0000_0000_0000 < m * pow(10, (t - s) as nat) < 0x1000_0000_0000_0000_0000_0000,
        t == s ==> pow(10, (t - s) as nat) == 1,
{
    let q = pow(10, (t - s) as nat);
    let r = pow(10, (MAX_SCALE - t) as nat);
    vstd::arithmetic::power::lemma_pow_positive(10, (t - s) as nat);
    vstd::arithmetic::power::lemma_pow_adds(10, (t - s) as nat, (MAX_SCALE - t) as nat);
    vstd::arithmetic::power::lemma_pow_increases(10, (t - s) as nat, 9);
    vstd::arithmetic::power::lemma_pow0(10);
    assert(pow(10, 9) == 1_000_000_000) by {
        reveal_with_fuel(pow, 10);
    }
    assert(m * pow(10, (MAX_SCALE - s) as nat) == (m * q) * r) by (nonlinear_arith)
        requires
            pow(10, (MAX_SCALE - s) as nat) == q * r,
    ;
    assert(-0x4000_0000_0000_0000 < m < 0x4000_0000_0000_0000
        ==> -0x1000_0000_0000_0000_0000_0000 < m * q < 0x1000_0000_0000_0000_0000_0000) by (nonlinear_arith)
        requires
            1 <= q <= 1_000_000_000,
    ;
}

/// The product of the values of two decimals, in units of `10^-56`, is the
/// value of the product of their mantissas at the sum of their scales.
pub proof fn lemma_product_value(x: i128, sx: u32, y: i128, sy: u32)
    requires
        sx + sy <= MAX_SCALE,
    ensures
        raw_value(x, sx) * raw_value(y, sy) == (x * y) * pow(10, (MAX_SCALE - sx - sy) as nat) * pow(10, MAX_SCALE as nat),
{
    let a = pow(10, (MAX_SCALE - sx) as nat);
    let b = pow(10, (MAX_SCALE - sy) as nat);
    let c = pow(10, (MAX_SCALE - sx - sy) as nat);
    let d = pow(10, MAX_SCALE as nat);
    vstd::arithmetic::power::lemma_pow_adds(10, (MAX_SCALE - sx) as nat, (MAX_SCALE - sy) as nat);
    vstd::arithmetic::power::lemma_pow_adds(10, (MAX_SCALE - sx - sy) as nat, MAX_SCALE as nat);
    assert((x * a) * (y * b) == (x * y) * c * d) by (nonlinear_arith)
        requires
            a * b == c * d,
    ;
}

impl PartialEq for DecimalNum {
    fn eq(&self, other: &DecimalNum) -> (r: bool) {
        self.is_equal(other)
    }
}

impl PartialEqSpecImpl for DecimalNum {
    open spec fn obeys_eq_spec() -> bool {
        true
    }

    open spec fn eq_spec(&self, other: &DecimalNum) -> bool {
        spec_num_eq(self@, other@)
    }
}

/// The Not-a-Number value as a type of its own.
#[derive(Clone, Copy, Debug, PartialEq, Eq)]
pub struct NaN;

impl NaN {
    pub fn new() -> (r: NaN) {
        NaN
    }

    /// This value as a decimal number (NaN).
    pub fn to_num(&self) -> (r: DecimalNum)
        ensures
            r@ == nan_view(),
    {
        DecimalNum::nan()
    }

    /// Always: NaN is not a number.
    pub fn is_nan(&self) -> (r: bool)
        ensures
            r,
    {
        true
    }

    /// Never: NaN is not zero.
    pub fn is_zero(&self) -> (r: bool)
        ensures
            !r,
    {
        false
    }

    /// Never: NaN is not one.
    pub fn is_one(&self) -> (r: bool)
        ensures
            !r,
    {
        false
    }

    /// Never: NaN has no sign.
    pub fn is_positive(&self) -> (r: bool)
        ensures
            !r,
    {
        false
    }

    /// Never: NaN has no sign.
    pub fn is_negative(&self) -> (r: bool)
        ensures
            !r,
    {
        false
    }

    /// NaN, whatever is added.
    pub fn plus(&self, augend: &NaN) -> (r: NaN) {
        NaN
    }

    /// NaN, whatever is subtracted.
    pub fn minus(&self, subtrahend: &NaN) -> (r: NaN) {
        NaN
    }

    /// NaN, whatever the factor.
    pub fn multiplied_by(&self, multiplicand: &NaN) -> (r: NaN) {
        NaN
    }

    /// NaN (never an error), whatever the divisor.
    pub fn divided_by(&self, divisor: &NaN) -> (r: Result<NaN, NumError>)
        ensures
            r is Ok,
    {
        Ok(NaN)
    }

    /// NaN, whatever the other value.
    pub fn min(&self, other: &NaN) -> (r: NaN) {
        NaN
    }

    /// NaN, whatever the other value.
    pub fn max(&self, other: &NaN) -> (r: NaN) {
        NaN
    }
}

} // verus!

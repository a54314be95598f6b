use vstd::arithmetic::power::pow;
use vstd::prelude::*;

verus! {

/// The largest scale of a decimal number: 28 digits after the point.
pub const MAX_DECIMAL_SCALE: u32 = 28;

/// The largest magnitude of a decimal mantissa: 96 bits.
pub const MAX_DECIMAL_MANTISSA: i128 = 0xFFFF_FFFF_FFFF_FFFF_FFFF_FFFFi128;

/// A decimal number `mantissa * 10^(-scale)`, as rust_decimal stores it.
#[derive(Clone, Copy, Debug, PartialEq, Eq, Structural)]
pub struct DecimalValue {
    pub mantissa: i128,
    pub scale: u32,
}

/// Returned where rust_decimal's arithmetic overflows or divides by zero.
#[derive(Clone, Copy, Debug, PartialEq, Eq, Structural)]
pub struct DecimalOverflow;

/// A decimal number that rust_decimal can hold: at most 28 digits after the
/// point and a mantissa of at most 96 bits.
pub open spec fn is_valid_decimal(d: DecimalValue) -> bool {
    d.scale <= MAX_DECIMAL_SCALE && -MAX_DECIMAL_MANTISSA <= d.mantissa <= MAX_DECIMAL_MANTISSA
}

/// The decimal `mantissa * 10^(-scale)`.
pub open spec fn dec(mantissa: int, scale: u32) -> DecimalValue {
    DecimalValue { mantissa: mantissa as i128, scale }
}

/// The decimal for a whole number.
pub open spec fn whole(n: int) -> DecimalValue {
    dec(n, 0)
}

/// `a` is numerically smaller than `b`: `a.m / 10^a.s < b.m / 10^b.s`.
pub open spec fn value_lt(a: DecimalValue, b: DecimalValue) -> bool {
    a.mantissa * pow(10, b.scale as nat) < b.mantissa * pow(10, a.scale as nat)
}

/// `a` is numerically zero.
pub open spec fn is_zero(a: DecimalValue) -> bool {
    a.mantissa == 0
}

/// The absolute value of `a`.
pub open spec fn abs(a: DecimalValue) -> DecimalValue {
    if a.mantissa < 0 {
        DecimalValue { mantissa: (-a.mantissa) as i128, scale: a.scale }
    } else {
        a
    }
}

/// What rust_decimal's `Decimal::checked_add` returns for `a` and `b`.
pub uninterp spec fn decimal_sum(a: DecimalValue, b: DecimalValue) -> Option<DecimalValue>;

/// What rust_decimal's `Decimal::checked_sub` returns for `a` and `b`.
pub uninterp spec fn decimal_difference(a: DecimalValue, b: DecimalValue) -> Option<DecimalValue>;

/// What rust_decimal's `Decimal::checked_mul` returns for `a` and `b`.
pub uninterp spec fn decimal_product(a: DecimalValue, b: DecimalValue) -> Option<DecimalValue>;

/// What rust_decimal's `Decimal::checked_div` returns for `a` and `b`.
pub uninterp spec fn decimal_quotient(a: DecimalValue, b: DecimalValue) -> Option<DecimalValue>;

/// The magnitude of a mantissa.
pub open spec fn magnitude(m: i128) -> int {
    if m < 0 {
        -m
    } else {
        m as int
    }
}

/// The mantissa with the sign of `m` and the magnitude `n`.
pub open spec fn with_sign_of(m: i128, n: int) -> i128 {
    (if m < 0 {
        -n
    } else {
        n
    }) as i128
}

/// What rust_decimal's `Decimal::round_dp(dp)` returns for `a`: `a` itself when
/// it has no more than `dp` decimals; otherwise the value rounded to `dp`
/// decimals, half to even (the magnitude of the mantissa divided by
/// `10^(scale - dp)`, plus one when the remainder is above half of that power,
/// or exactly half and the quotient is odd), with scale `dp` and `a`'s sign.
pub open spec fn decimal_rounded(a: DecimalValue, dp: u32) -> DecimalValue {
    if a.scale <= dp {
        a
    } else {
        let d = pow(10, (a.scale - dp) as nat);
        let half = 5 * pow(10, (a.scale - dp - 1) as nat);
        let q = magnitude(a.mantissa) / d;
        let r = magnitude(a.mantissa) % d;
        let rounded = if r > half || (r == half && q % 2 == 1) {
            q + 1
        } else {
            q
        };
        DecimalValue { mantissa: with_sign_of(a.mantissa, rounded), scale: dp }
    }
}

/// Calls rust_decimal's `Decimal::checked_add` on the two numbers (built with
/// `Decimal::from_i128_with_scale`). The contract claims that the result is
/// [`decimal_sum`] of the arguments and, like every `Decimal`, valid; and that
/// two numbers of one scale whose mantissas add up to a mantissa rust_decimal
/// can hold add exactly, at that scale (no rescaling happens then).
#[verifier::external_body]
pub(crate) fn checked_add(a: DecimalValue, b: DecimalValue) -> (sum: Option<DecimalValue>)
    requires
        is_valid_decimal(a),
        is_valid_decimal(b),
    ensures
        sum == decimal_sum(a, b),
        sum matches Some(s) ==> is_valid_decimal(s),
        a.scale == b.scale && -MAX_DECIMAL_MANTISSA <= a.mantissa + b.mantissa <= MAX_DECIMAL_MANTISSA ==> sum
            == Some(DecimalValue { mantissa: (a.mantissa + b.mantissa) as i128, scale: a.scale }),
{
    let x = rust_decimal::Decimal::from_i128_with_scale(a.mantissa, a.scale);
    let y = rust_decimal::Decimal::from_i128_with_scale(b.mantissa, b.scale);
    x.checked_add(y).map(|s| DecimalValue { mantissa: s.mantissa(), scale: s.scale() })
}

/// Calls rust_decimal's `Decimal::checked_sub` on the two numbers (built with
/// `Decimal::from_i128_with_scale`). The contract claims that the result is
/// [`decimal_difference`] of the arguments and, like every `Decimal`, valid; and
/// that two numbers of one scale whose mantissas differ by a mantissa
/// rust_decimal can hold subtract exactly, at that scale.
#[verifier::external_body]
pub(crate) fn checked_sub(a: DecimalValue, b: DecimalValue) -> (difference: Option<DecimalValue>)
    requires
        is_valid_decimal(a),
        is_valid_decimal(b),
    ensures
        difference == decimal_difference(a, b),
        difference matches Some(d) ==> is_valid_decimal(d),
        a.scale == b.scale && -MAX_DECIMAL_MANTISSA <= a.mantissa - b.mantissa <= MAX_DECIMAL_MANTISSA
            ==> difference == Some(DecimalValue { mantissa: (a.mantissa - b.mantissa) as i128, scale: a.scale }),
{
    let x = rust_decimal::Decimal::from_i128_with_scale(a.mantissa, a.scale);
    let y = rust_decimal::Decimal::from_i128_with_scale(b.mantissa, b.scale);
    x.checked_sub(y).map(|d| DecimalValue { mantissa: d.mantissa(), scale: d.scale() })
}

/// Calls rust_decimal's `Decimal::checked_mul` on the two numbers (built with
/// `Decimal::from_i128_with_scale`). The contract claims that the result is
/// [`decimal_product`] of the arguments and, like every `Decimal`, valid; that
/// a product with zero is zero at scale 0; and that a product of nonzero
/// numbers whose mantissa product and scale sum rust_decimal can hold is exact,
/// at the sum of the scales.
#[verifier::external_body]
pub(crate) fn checked_mul(a: DecimalValue, b: DecimalValue) -> (product: Option<DecimalValue>)
    requires
        is_valid_decimal(a),
        is_valid_decimal(b),
    ensures
        product == decimal_product(a, b),
        product matches Some(p) ==> is_valid_decimal(p),
        a.mantissa == 0 || b.mantissa == 0 ==> product == Some(DecimalValue { mantissa: 0, scale: 0 }),
        a.mantissa != 0 && b.mantissa != 0 && a.scale + b.scale <= MAX_DECIMAL_SCALE && -MAX_DECIMAL_MANTISSA
            <= a.mantissa * b.mantissa <= MAX_DECIMAL_MANTISSA ==> product == Some(
            DecimalValue { mantissa: (a.mantissa * b.mantissa) as i128, scale: (a.scale + b.scale) as u32 },
        ),
{
    let x = rust_decimal::Decimal::from_i128_with_scale(a.mantissa, a.scale);
    let y = rust_decimal::Decimal::from_i128_with_scale(b.mantissa, b.scale);
    x.checked_mul(y).map(|p| DecimalValue { mantissa: p.mantissa(), scale: p.scale() })
}

/// Calls rust_decimal's `Decimal::checked_div` on the two numbers (built with
/// `Decimal::from_i128_with_scale`). The contract claims that the result is
/// [`decimal_quotient`] of the arguments and, like every `Decimal`, valid.
#[verifier::external_body]
pub(crate) fn checked_div(a: DecimalValue, b: DecimalValue) -> (quotient: Option<DecimalValue>)
    requires
        is_valid_decimal(a),
        is_valid_decimal(b),
    ensures
        quotient == decimal_quotient(a, b),
        quotient matches Some(q) ==> is_valid_decimal(q),
{
    let x = rust_decimal::Decimal::from_i128_with_scale(a.mantissa, a.scale);
    let y = rust_decimal::Decimal::from_i128_with_scale(b.mantissa, b.scale);
    x.checked_div(y).map(|q| DecimalValue { mantissa: q.mantissa(), scale: q.scale() })
}

/// What rust_decimal's `Decimal::round_dp_with_strategy(dp, RoundingStrategy::ToZero)`
/// returns for `a`: `a` itself when it has no more than `dp` decimals;
/// otherwise the digits after the `dp`-th cut off (the magnitude of the mantissa
/// divided by `10^(scale - dp)`), with scale `dp` and `a`'s sign.
pub open spec fn decimal_truncated(a: DecimalValue, dp: u32) -> DecimalValue {
    if a.scale <= dp {
        a
    } else {
        let q = magnitude(a.mantissa) / pow(10, (a.scale - dp) as nat);
        DecimalValue { mantissa: with_sign_of(a.mantissa, q), scale: dp }
    }
}

/// Calls rust_decimal's `Decimal::round_dp_with_strategy` with
/// `RoundingStrategy::ToZero` on the number (built with
/// `Decimal::from_i128_with_scale`). The contract claims that the result is
/// [`decimal_truncated`] of the arguments, as rust_decimal's rounding code
/// computes it, and, like every `Decimal`, valid.
#[verifier::external_body]
pub(crate) fn truncate_dp(a: DecimalValue, dp: u32) -> (truncated: DecimalValue)
    requires
        is_valid_decimal(a),
    ensures
        truncated == decimal_truncated(a, dp),
        is_valid_decimal(truncated),
{
    let x = rust_decimal::Decimal::from_i128_with_scale(a.mantissa, a.scale);
    let r = x.round_dp_with_strategy(dp, rust_decimal::RoundingStrategy::ToZero);
    DecimalValue { mantissa: r.mantissa(), scale: r.scale() }
}

/// Calls rust_decimal's `Decimal::round_dp` on the number (built with
/// `Decimal::from_i128_with_scale`). The contract claims that the result is
/// [`decimal_rounded`] of the arguments, as rust_decimal's rounding code
/// computes it, and, like every `Decimal`, valid.
#[verifier::external_body]
pub(crate) fn round_dp(a: DecimalValue, dp: u32) -> (rounded: DecimalValue)
    requires
        is_valid_decimal(a),
    ensures
        rounded == decimal_rounded(a, dp),
        is_valid_decimal(rounded),
{
    let x = rust_decimal::Decimal::from_i128_with_scale(a.mantissa, a.scale);
    let r = x.round_dp(dp);
    DecimalValue { mantissa: r.mantissa(), scale: r.scale() }
}

/// Calls rust_decimal's `<` on the two numbers (built with
/// `Decimal::from_i128_with_scale`). The contract claims that it compares the
/// numbers by value, as rust_decimal documents for its ordering.
#[verifier::external_body]
pub(crate) fn less_than(a: DecimalValue, b: DecimalValue) -> (lt: bool)
    requires
        is_valid_decimal(a),
        is_valid_decimal(b),
    ensures
        lt == value_lt(a, b),
{
    let x = rust_decimal::Decimal::from_i128_with_scale(a.mantissa, a.scale);
    let y = rust_decimal::Decimal::from_i128_with_scale(b.mantissa, b.scale);
    x < y
}

/// The absolute value.
pub fn absolute(a: DecimalValue) -> (r: DecimalValue)
    requires
        is_valid_decimal(a),
    ensures
        r == abs(a),
        is_valid_decimal(r),
{
    if a.mantissa < 0 {
        DecimalValue { mantissa: -a.mantissa, scale: a.scale }
    } else {
        a
    }
}

/// Product, with overflow reported as an error.
pub fn times(a: DecimalValue, b: DecimalValue) -> (r: Result<DecimalValue, DecimalOverflow>)
    requires
        is_valid_decimal(a),
        is_valid_decimal(b),
    ensures
        r == ok_or_overflow(decimal_product(a, b)),
        r matches Ok(v) ==> is_valid_decimal(v),
{
    match checked_mul(a, b) {
        Some(v) => Ok(v),
        None => Err(DecimalOverflow),
    }
}

/// Quotient, with overflow and division by zero reported as an error.
pub fn divided_by(a: DecimalValue, b: DecimalValue) -> (r: Result<DecimalValue, DecimalOverflow>)
    requires
        is_valid_decimal(a),
        is_valid_decimal(b),
    ensures
        r == ok_or_overflow(decimal_quotient(a, b)),
        r matches Ok(v) ==> is_valid_decimal(v),
{
    match checked_div(a, b) {
        Some(v) => Ok(v),
        None => Err(DecimalOverflow),
    }
}

/// Sum, with overflow reported as an error.
pub fn plus(a: DecimalValue, b: DecimalValue) -> (r: Result<DecimalValue, DecimalOverflow>)
    requires
        is_valid_decimal(a),
        is_valid_decimal(b),
    ensures
        r == ok_or_overflow(decimal_sum(a, b)),
        r matches Ok(v) ==> is_valid_decimal(v),
{
    match checked_add(a, b) {
        Some(v) => Ok(v),
        None => Err(DecimalOverflow),
    }
}

/// Difference, with overflow reported as an error.
pub fn minus(a: DecimalValue, b: DecimalValue) -> (r: Result<DecimalValue, DecimalOverflow>)
    requires
        is_valid_decimal(a),
        is_valid_decimal(b),
    ensures
        r == ok_or_overflow(decimal_difference(a, b)),
        r matches Ok(v) ==> is_valid_decimal(v),
{
    match checked_sub(a, b) {
        Some(v) => Ok(v),
        None => Err(DecimalOverflow),
    }
}

/// A checked result as a `Result`.
pub open spec fn ok_or_overflow(r: Option<DecimalValue>) -> Result<DecimalValue, DecimalOverflow> {
    match r {
        Some(v) => Ok(v),
        None => Err(DecimalOverflow),
    }
}

} // verus!

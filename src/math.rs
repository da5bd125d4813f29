//! Fixed-point arithmetic kernel. Monetary quantities are integers scaled by
//! one million ("e6 units"); every operation either returns the exact
//! mathematical result or reports `Overflow`.

use vstd::prelude::*;
use crate::error::LedgerError;

verus! {

/// The fixed-point scale: one unit equals this many e6 units.
pub const E6: u64 = 1_000_000;

/// Does `x` fit in an `i64`?
pub open spec fn fits_i64(x: int) -> bool {
    i64::MIN <= x <= i64::MAX
}

/// Does `x` fit in a `u64`?
pub open spec fn fits_u64(x: int) -> bool {
    0 <= x <= u64::MAX
}

/// Division rounding toward zero, as machine division does.
pub open spec fn trunc_div(x: int, d: int) -> int {
    if x >= 0 {
        if d > 0 { x / d } else { -(x / (-d)) }
    } else {
        if d > 0 { -((-x) / d) } else { (-x) / (-d) }
    }
}

/// The `i64` outcome of an exact signed computation: the value when it fits,
/// `Overflow` otherwise.
pub open spec fn i64_result(x: int) -> Result<i64, LedgerError> {
    if fits_i64(x) { Ok(x as i64) } else { Err(LedgerError::Overflow) }
}

/// The `u64` outcome of an exact unsigned computation.
pub open spec fn u64_result(x: int) -> Result<u64, LedgerError> {
    if fits_u64(x) { Ok(x as u64) } else { Err(LedgerError::Overflow) }
}

/// `a * b / 1e6`, rounded toward zero.
pub open spec fn mul_e6_spec(a: int, b: int) -> int {
    trunc_div(a * b, 1_000_000)
}

/// `a * 1e6 / b`, rounded toward zero.
pub open spec fn div_e6_spec(a: int, b: int) -> int {
    trunc_div(a * 1_000_000, b)
}

/// Margin for a notional `size * price` at the given leverage, in e6 units.
pub open spec fn required_margin_spec(size: int, price: int, leverage: int) -> int {
    (size * price) / leverage / 1_000_000
}

/// Fee on a notional `size * price` at an e6-scaled rate.
pub open spec fn fee_spec(size: int, price: int, rate: int) -> int {
    (size * price * rate) / 1_000_000_000_000
}

/// Checked `i64` addition.
pub fn checked_add(a: i64, b: i64) -> (r: Result<i64, LedgerError>)
    ensures
        r == i64_result(a + b),
{
    match a.checked_add(b) {
        Some(v) => Ok(v),
        None => Err(LedgerError::Overflow),
    }
}

/// Checked `i64` subtraction.
pub fn checked_sub(a: i64, b: i64) -> (r: Result<i64, LedgerError>)
    ensures
        r == i64_result(a - b),
{
    match a.checked_sub(b) {
        Some(v) => Ok(v),
        None => Err(LedgerError::Overflow),
    }
}

/// Checked `i64` multiplication.
pub fn checked_mul(a: i64, b: i64) -> (r: Result<i64, LedgerError>)
    ensures
        r == i64_result(a * b),
{
    match a.checked_mul(b) {
        Some(v) => Ok(v),
        None => Err(LedgerError::Overflow),
    }
}

/// Checked `i64` division, rounding toward zero; division by zero is an
/// `Overflow`.
pub fn checked_div(a: i64, b: i64) -> (r: Result<i64, LedgerError>)
    ensures
        b == 0 ==> r == Err::<i64, LedgerError>(LedgerError::Overflow),
        b != 0 ==> r == i64_result(trunc_div(a as int, b as int)),
{
    if b == 0 {
        return Err(LedgerError::Overflow);
    }
    match a.checked_div(b) {
        Some(v) => Ok(v),
        None => Err(LedgerError::Overflow),
    }
}

/// Checked `u64` addition.
pub fn checked_add_u64(a: u64, b: u64) -> (r: Result<u64, LedgerError>)
    ensures
        r == u64_result(a + b),
{
    match a.checked_add(b) {
        Some(v) => Ok(v),
        None => Err(LedgerError::Overflow),
    }
}

/// Checked `u64` subtraction.
pub fn checked_sub_u64(a: u64, b: u64) -> (r: Result<u64, LedgerError>)
    ensures
        r == u64_result(a - b),
{
    match a.checked_sub(b) {
        Some(v) => Ok(v),
        None => Err(LedgerError::Overflow),
    }
}

/// Checked `u64` multiplication.
pub fn checked_mul_u64(a: u64, b: u64) -> (r: Result<u64, LedgerError>)
    ensures
        r == u64_result(a * b),
{
    match a.checked_mul(b) {
        Some(v) => Ok(v),
        None => Err(LedgerError::Overflow),
    }
}

/// Checked `u64` division; division by zero is an `Overflow`.
pub fn checked_div_u64(a: u64, b: u64) -> (r: Result<u64, LedgerError>)
    ensures
        b == 0 ==> r == Err::<u64, LedgerError>(LedgerError::Overflow),
        b != 0 ==> r == Ok::<u64, LedgerError>((a / b) as u64),
{
    if b == 0 {
        return Err(LedgerError::Overflow);
    }
    match a.checked_div(b) {
        Some(v) => Ok(v),
        None => Err(LedgerError::Overflow),
    }
}

/// Narrows an `i128` to an `i64`, reporting `Overflow` when it does not fit.
fn narrow_i128(x: i128) -> (r: Result<i64, LedgerError>)
    ensures
        r == i64_result(x as int),
{
    if x < i64::MIN as i128 || x > i64::MAX as i128 {
        Err(LedgerError::Overflow)
    } else {
        Ok(x as i64)
    }
}

/// Narrows a `u128` to a `u64`, reporting `Overflow` when it does not fit.
fn narrow_u128(x: u128) -> (r: Result<u64, LedgerError>)
    ensures
        r == u64_result(x as int),
{
    if x > u64::MAX as u128 {
        Err(LedgerError::Overflow)
    } else {
        Ok(x as u64)
    }
}

/// Fixed-point product `a * b / 1e6`, computed through a 128-bit
/// intermediate and rounded toward zero.
pub fn mul_e6(a: i64, b: i64) -> (r: Result<i64, LedgerError>)
    ensures
        r == i64_result(mul_e6_spec(a as int, b as int)),
{
    assert((a as int) * (b as int) <= 0x4000_0000_0000_0000_0000_0000_0000_0000
        && (a as int) * (b as int) >= -0x4000_0000_0000_0000_0000_0000_0000_0000) by (nonlinear_arith)
        requires
            -0x8000_0000_0000_0000 <= a <= 0x7fff_ffff_ffff_ffff,
            -0x8000_0000_0000_0000 <= b <= 0x7fff_ffff_ffff_ffff,
    ;
    let wide = (a as i128) * (b as i128);
    let q = wide / 1_000_000i128;
    assert(q == mul_e6_spec(a as int, b as int));
    narrow_i128(q)
}

/// Fixed-point quotient `a * 1e6 / b`, computed through a 128-bit
/// intermediate and rounded toward zero; division by zero is an `Overflow`.
pub fn div_e6(a: i64, b: i64) -> (r: Result<i64, LedgerError>)
    ensures
        b == 0 ==> r == Err::<i64, LedgerError>(LedgerError::Overflow),
        b != 0 ==> r == i64_result(div_e6_spec(a as int, b as int)),
{
    if b == 0 {
        return Err(LedgerError::Overflow);
    }
    let wide = (a as i128) * 1_000_000i128;
    match wide.checked_div(b as i128) {
        Some(q) => narrow_i128(q),
        None => Err(LedgerError::Overflow),
    }
}

/// Product of two `u64` values in 128 bits; it always fits.
pub(crate) fn wide_mul(a: u64, b: u64) -> (r: u128)
    ensures
        r == a * b,
{
    assert((a as int) * (b as int) <= 0xffff_ffff_ffff_ffff_ffff_ffff_ffff_ffff) by (nonlinear_arith)
        requires
            0 <= a <= 0xffff_ffff_ffff_ffff,
            0 <= b <= 0xffff_ffff_ffff_ffff,
    ;
    (a as u128) * (b as u128)
}

/// Margin required to open `size_e6` at `price_e6` with the given leverage:
/// `floor(size * price / leverage / 1e6)`. A leverage of zero is refused
/// with `InvalidLeverage`; a margin beyond `u64` with `Overflow`.
pub fn calculate_required_margin(size_e6: u64, price_e6: u64, leverage: u8) -> (r: Result<u64, LedgerError>)
    ensures
        leverage == 0 ==> r == Err::<u64, LedgerError>(LedgerError::InvalidLeverage),
        leverage > 0 ==> r == u64_result(required_margin_spec(size_e6 as int, price_e6 as int, leverage as int)),
{
    if leverage == 0 {
        return Err(LedgerError::InvalidLeverage);
    }
    let notional = wide_mul(size_e6, price_e6);
    let margin = notional / (leverage as u128);
    let margin = margin / 1_000_000u128;
    narrow_u128(margin)
}

/// Fee on `size_e6` at `price_e6` for an e6-scaled rate:
/// `floor(size * price * rate / 1e12)`, with `Overflow` when the 128-bit
/// product or the final fee does not fit.
pub fn calculate_fee(size_e6: u64, price_e6: u64, fee_rate_e6: u64) -> (r: Result<u64, LedgerError>)
    ensures
        size_e6 * price_e6 * fee_rate_e6 > u128::MAX ==> r == Err::<u64, LedgerError>(LedgerError::Overflow),
        size_e6 * price_e6 * fee_rate_e6 <= u128::MAX ==> r == u64_result(
            fee_spec(size_e6 as int, price_e6 as int, fee_rate_e6 as int),
        ),
{
    let notional = wide_mul(size_e6, price_e6);
    match notional.checked_mul(fee_rate_e6 as u128) {
        Some(fee) => narrow_u128(fee / 1_000_000_000_000u128),
        None => Err(LedgerError::Overflow),
    }
}

} // verus!

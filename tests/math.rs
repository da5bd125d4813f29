use ledger::error::LedgerError;
use ledger::math::{
    calculate_fee, calculate_required_margin, checked_add, checked_add_u64, checked_div, checked_div_u64,
    checked_mul, checked_mul_u64, checked_sub, checked_sub_u64, div_e6, mul_e6,
};

#[test]
fn test_calculate_required_margin() {
    // 1 BTC at $50,000 with 10x leverage = $5,000 margin
    let size_e6 = 1_000_000;
    let price_e6 = 50_000_000_000u64;
    let leverage = 10u8;
    let margin = calculate_required_margin(size_e6, price_e6, leverage).unwrap();
    assert_eq!(margin, 5_000_000_000);
}

#[test]
fn test_calculate_fee() {
    // 1 BTC at $50,000 with 0.1% fee = $50 fee
    let size_e6 = 1_000_000;
    let price_e6 = 50_000_000_000u64;
    let fee_rate_e6 = 1_000;
    let fee = calculate_fee(size_e6, price_e6, fee_rate_e6).unwrap();
    assert_eq!(fee, 50_000_000);
}

#[test]
fn test_mul_e6() {
    // 100.5 * 2.0 = 201.0
    let a = 100_500_000i64;
    let b = 2_000_000i64;
    let result = mul_e6(a, b).unwrap();
    assert_eq!(result, 201_000_000);
}

#[test]
fn test_div_e6() {
    // 100.0 / 2.0 = 50.0
    let a = 100_000_000i64;
    let b = 2_000_000i64;
    let result = div_e6(a, b).unwrap();
    assert_eq!(result, 50_000_000);
}

#[test]
fn margin_with_zero_leverage_is_refused() {
    assert_eq!(calculate_required_margin(1_000_000, 50_000_000_000, 0), Err(LedgerError::InvalidLeverage));
}

#[test]
fn margin_truncates_toward_zero() {
    // 3 * 7 / 2 / 1e6 rounds down to zero; 3e6 * 7e6 / 2 / 1e6 = 10.5e6
    assert_eq!(calculate_required_margin(3, 7, 2), Ok(0));
    assert_eq!(calculate_required_margin(3_000_000, 7_000_000, 2), Ok(10_500_000));
}

#[test]
fn margin_beyond_u64_is_an_overflow() {
    assert_eq!(calculate_required_margin(u64::MAX, u64::MAX, 1), Err(LedgerError::Overflow));
}

#[test]
fn fee_overflow_is_reported() {
    assert_eq!(calculate_fee(u64::MAX, u64::MAX, 2), Err(LedgerError::Overflow));
    assert_eq!(calculate_fee(2, 3, 1_000_000), Ok(0));
    assert_eq!(calculate_fee(2_000_000, 3_000_000, 1_000_000), Ok(6_000_000));
}

#[test]
fn checked_signed_operations() {
    assert_eq!(checked_add(2, 3), Ok(5));
    assert_eq!(checked_add(i64::MAX, 1), Err(LedgerError::Overflow));
    assert_eq!(checked_sub(2, 3), Ok(-1));
    assert_eq!(checked_sub(i64::MIN, 1), Err(LedgerError::Overflow));
    assert_eq!(checked_mul(-4, 5), Ok(-20));
    assert_eq!(checked_mul(i64::MAX, 2), Err(LedgerError::Overflow));
    assert_eq!(checked_div(-7, 2), Ok(-3));
    assert_eq!(checked_div(7, 0), Err(LedgerError::Overflow));
    assert_eq!(checked_div(i64::MIN, -1), Err(LedgerError::Overflow));
}

#[test]
fn checked_unsigned_operations() {
    assert_eq!(checked_add_u64(2, 3), Ok(5));
    assert_eq!(checked_add_u64(u64::MAX, 1), Err(LedgerError::Overflow));
    assert_eq!(checked_sub_u64(3, 2), Ok(1));
    assert_eq!(checked_sub_u64(2, 3), Err(LedgerError::Overflow));
    assert_eq!(checked_mul_u64(4, 5), Ok(20));
    assert_eq!(checked_mul_u64(u64::MAX, 2), Err(LedgerError::Overflow));
    assert_eq!(checked_div_u64(7, 2), Ok(3));
    assert_eq!(checked_div_u64(7, 0), Err(LedgerError::Overflow));
}

#[test]
fn fixed_point_rounding_and_range() {
    // -1.5 * 0.5 = -0.75, truncated toward zero at the micro unit
    assert_eq!(mul_e6(-1_500_000, 500_000), Ok(-750_000));
    assert_eq!(mul_e6(-1, 1), Ok(0));
    assert_eq!(mul_e6(i64::MAX, i64::MAX), Err(LedgerError::Overflow));
    assert_eq!(div_e6(1_000_000, 3_000_000), Ok(333_333));
    assert_eq!(div_e6(-1_000_000, 3_000_000), Ok(-333_333));
    assert_eq!(div_e6(1, 0), Err(LedgerError::Overflow));
    assert_eq!(div_e6(i64::MAX, 1), Err(LedgerError::Overflow));
}

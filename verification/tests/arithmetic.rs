use stablecoin::error::ErrorCode;
use stablecoin::utils::{
    accrue_interest, calculate_collateral_value, calculate_health_factor,
    calculate_liquidation_amounts, calculate_max_borrowable_amount, compute_ltv,
};

#[test]
fn collateral_value_scales_down_by_negative_exponent() {
    // One SOL (1e9 lamports) at a price of 150.00000000 with exponent -8.
    assert_eq!(
        calculate_collateral_value(1_000_000_000, 15_000_000_000, -8),
        Ok(150_000_000_000)
    );
    assert_eq!(calculate_collateral_value(100, 5, -1), Ok(50));
    assert_eq!(calculate_collateral_value(7, 3, -1), Ok(2));
}

#[test]
fn collateral_value_scales_up_by_positive_exponent() {
    assert_eq!(calculate_collateral_value(5, 3, 2), Ok(1500));
    assert_eq!(calculate_collateral_value(5, 3, 0), Ok(15));
}

#[test]
fn collateral_value_at_the_exponent_limits() {
    assert_eq!(calculate_collateral_value(u64::MAX, i64::MAX, -38), Ok(1));
    assert_eq!(calculate_collateral_value(0, i64::MAX, 38), Ok(0));
}

#[test]
fn collateral_value_refuses_non_positive_price() {
    assert_eq!(calculate_collateral_value(100, 0, 0), Err(ErrorCode::InvalidPrice));
    assert_eq!(calculate_collateral_value(100, -5, -2), Err(ErrorCode::InvalidPrice));
    assert_eq!(calculate_collateral_value(1, 0, 39), Err(ErrorCode::InvalidPrice));
    assert_eq!(calculate_collateral_value(1, -1, i32::MIN), Err(ErrorCode::InvalidPrice));
    assert_eq!(
        calculate_liquidation_amounts(1, 1, 0, 0, i32::MAX),
        Err(ErrorCode::InvalidPrice)
    );
}

#[test]
fn collateral_value_refuses_overflow() {
    assert_eq!(calculate_collateral_value(u64::MAX, 2, 0), Err(ErrorCode::MathOverflow));
    assert_eq!(calculate_collateral_value(1, 1, 20), Err(ErrorCode::MathOverflow));
    assert_eq!(calculate_collateral_value(u64::MAX, i64::MAX, 38), Err(ErrorCode::MathOverflow));
}

#[test]
fn max_borrowable_is_value_times_ltv() {
    assert_eq!(calculate_max_borrowable_amount(1000, 5000), Ok(500));
    assert_eq!(calculate_max_borrowable_amount(999, 5000), Ok(499));
    assert_eq!(calculate_max_borrowable_amount(0, 10000), Ok(0));
    assert_eq!(calculate_max_borrowable_amount(u64::MAX, 10000), Ok(u64::MAX));
}

#[test]
fn max_borrowable_refuses_overflow() {
    assert_eq!(calculate_max_borrowable_amount(u64::MAX, 20000), Err(ErrorCode::MathOverflow));
}

#[test]
fn interest_over_a_year() {
    assert_eq!(accrue_interest(1_000_000, 1000, 0, 31_557_600), Ok(1_100_000));
    assert_eq!(accrue_interest(1_000_000, 1000, 0, 15_778_800), Ok(1_050_000));
}

#[test]
fn interest_rounds_down_to_nothing_over_a_second() {
    assert_eq!(accrue_interest(1_000_000, 1000, 100, 101), Ok(1_000_000));
}

#[test]
fn zero_debt_accrues_nothing() {
    assert_eq!(accrue_interest(0, 5000, 0, 1_000_000_000), Ok(0));
    assert_eq!(accrue_interest(0, 5000, i64::MIN, i64::MAX), Ok(0));
}

#[test]
fn no_elapsed_time_accrues_nothing() {
    assert_eq!(accrue_interest(1234, 5000, 77, 77), Ok(1234));
}

#[test]
fn interest_refuses_unrepresentable_elapsed_time() {
    assert_eq!(accrue_interest(1, 100, i64::MIN, 1), Err(ErrorCode::InvalidTimestamp));
}

#[test]
fn interest_refuses_a_backward_clock() {
    assert_eq!(accrue_interest(1, 1, 1, 0), Err(ErrorCode::InvalidTimestamp));
    assert_eq!(accrue_interest(1000, 500, 10, 9), Err(ErrorCode::InvalidTimestamp));
    assert_eq!(accrue_interest(0, 500, 10, 9), Ok(0));
}

#[test]
fn interest_refuses_overflow() {
    assert_eq!(accrue_interest(u64::MAX, 65535, 0, i64::MAX), Err(ErrorCode::MathOverflow));
    assert_eq!(accrue_interest(u64::MAX, 5000, 0, 31_557_600), Err(ErrorCode::MathOverflow));
}

#[test]
fn health_factor_values() {
    assert_eq!(calculate_health_factor(1000, 500, 8000), Ok(16000));
    assert_eq!(calculate_health_factor(0, 5, 8000), Ok(0));
    assert_eq!(calculate_health_factor(1000, 0, 8000), Ok(u16::MAX));
    assert_eq!(calculate_health_factor(u64::MAX, 1, 65535), Ok(u16::MAX));
}

#[test]
fn loan_to_value_values() {
    assert_eq!(compute_ltv(500, 1000), Ok(5000));
    assert_eq!(compute_ltv(100, 0), Ok(u16::MAX));
    assert_eq!(compute_ltv(u64::MAX, 1), Ok(u16::MAX));
    assert_eq!(compute_ltv(0, 1000), Ok(0));
}

#[test]
fn liquidation_splits_collateral() {
    // Debt 100 plus a 10% bonus, collateral 1000 worth 1000.
    assert_eq!(calculate_liquidation_amounts(100, 1000, 1000, 1, 0), Ok((110, 890)));
    assert_eq!(calculate_liquidation_amounts(0, 1000, 1000, 1, 0), Ok((0, 1000)));
}

#[test]
fn liquidation_seizes_at_most_all_collateral() {
    assert_eq!(calculate_liquidation_amounts(1000, 1000, 1000, 1, 0), Ok((1000, 0)));
}

#[test]
fn liquidation_amounts_errors() {
    assert_eq!(
        calculate_liquidation_amounts(100, 1000, 1000, 0, 0),
        Err(ErrorCode::InvalidPrice)
    );
    assert_eq!(
        calculate_liquidation_amounts(100, 1000, 60000, 1, 0),
        Err(ErrorCode::MathOverflow)
    );
    // Collateral worth nothing at this price.
    assert_eq!(calculate_liquidation_amounts(1, 1, 0, 1, -1), Err(ErrorCode::MathOverflow));
    assert_eq!(
        calculate_liquidation_amounts(u64::MAX, u64::MAX, 2000, 1, -19),
        Err(ErrorCode::MathOverflow)
    );
}

#[test]
fn liquidation_split_adds_up() {
    for (debt, amount, bonus, price, exponent) in [
        (5u64, 17u64, 300u16, 3i64, 0i32),
        (123_456, 9_876_543, 2000, 15_000_000_000, -8),
        (1, 1, 0, 1, 0),
    ] {
        let (seized, remaining) =
            calculate_liquidation_amounts(debt, amount, bonus, price, exponent).unwrap();
        assert!(seized <= amount);
        assert_eq!(seized + remaining, amount);
    }
}

#[test]
fn interest_grows_with_time() {
    let mut previous = 0;
    for now in [0i64, 1, 3_600, 86_400, 15_778_800, 31_557_600, 315_576_000] {
        let debt = accrue_interest(123_456_789, 4321, 0, now).unwrap();
        assert!(debt >= previous);
        assert!(debt >= 123_456_789);
        previous = debt;
    }
}

//! The program's arithmetic: collateral valuation, borrowing limits, interest,
//! health factor, loan-to-value ratio and liquidation amounts.
//!
//! Every function here computes in 128-bit integers with checked operations
//! and reports a quantity that does not fit as `ErrorCode::MathOverflow`.
//! Each contract states the result over unbounded integers.
use vstd::prelude::*;

use crate::error::ErrorCode;

verus! {

/// One hundred percent, in basis points.
pub const BPS_DENOMINATOR: u128 = 10000;

/// The length of a year in seconds (365.25 days).
pub const SECONDS_PER_YEAR: u64 = 31_557_600;

/// The largest decimal exponent, in either direction, whose power of ten
/// fits in a `u128`.
pub const MAX_PRICE_EXPONENT: i32 = 38;

/// Ten to the power `n`.
pub open spec fn pow10(n: nat) -> nat
    decreases n,
{
    if n == 0 {
        1
    } else {
        10 * pow10((n - 1) as nat)
    }
}

proof fn lemma_pow10_positive(n: nat)
    ensures
        pow10(n) >= 1,
    decreases n,
{
    if n > 0 {
        lemma_pow10_positive((n - 1) as nat);
    }
}

proof fn lemma_pow10_monotonic(i: nat, j: nat)
    requires
        i <= j,
    ensures
        pow10(i) <= pow10(j),
    decreases j,
{
    if i < j {
        lemma_pow10_monotonic(i, (j - 1) as nat);
        lemma_pow10_positive((j - 1) as nat);
    }
}

proof fn lemma_pow10_38()
    ensures
        pow10(38) == 100_000_000_000_000_000_000_000_000_000_000_000_000,
{
    reveal_with_fuel(pow10, 39);
}

/// Ten to the power `k`, for `k` up to 38.
/// Law: `pow10` is vstd's power of ten.
pub proof fn lemma_pow10_is_power(n: nat)
    ensures
        pow10(n) == vstd::arithmetic::power::pow(10, n),
    decreases n,
{
    reveal(vstd::arithmetic::power::pow);
    if n > 0 {
        lemma_pow10_is_power((n - 1) as nat);
    }
}

fn pow10_u128(k: u32) -> (r: u128)
    requires
        k <= 38,
    ensures
        r == pow10(k as nat),
        r == vstd::arithmetic::power::pow(10, k as nat),
{
    proof {
        lemma_pow10_is_power(k as nat);
    }
    let mut r: u128 = 1;
    let mut i: u32 = 0;
    while i < k
        invariant
            i <= k <= 38,
            r == pow10(i as nat),
        decreases k - i,
    {
        proof {
            lemma_pow10_monotonic((i + 1) as nat, 38);
            lemma_pow10_38();
        }
        r = r * 10;
        i = i + 1;
    }
    r
}

/// The value of `collateral_amount` units at the oracle price `price * 10^exponent`:
/// the product `collateral_amount * price` scaled by the power of ten and
/// rounded down.
pub open spec fn scaled_value(collateral_amount: u64, price: i64, exponent: i32) -> int {
    let raw = collateral_amount * price;
    if exponent < 0 {
        raw / (pow10((-exponent) as nat) as int)
    } else {
        raw * pow10(exponent as nat)
    }
}

/// What `calculate_collateral_value` returns.
pub open spec fn collateral_value_result(collateral_amount: u64, price: i64, exponent: i32) -> Result<
    u64,
    ErrorCode,
> {
    if price <= 0 {
        Err(ErrorCode::InvalidPrice)
    } else if scaled_value(collateral_amount, price, exponent) > u64::MAX {
        Err(ErrorCode::MathOverflow)
    } else {
        Ok(scaled_value(collateral_amount, price, exponent) as u64)
    }
}

/// Law: the collateral value is the product of the amount and the price
/// scaled by the power of ten: exact for a non-negative exponent, rounded
/// down for a negative one. A price that is not positive, and only such a
/// price, is refused with `InvalidPrice`, and only a value beyond a `u64` with
/// `MathOverflow`.
pub proof fn lemma_collateral_value(collateral_amount: u64, price: i64, exponent: i32)
    ensures
        (collateral_value_result(collateral_amount, price, exponent) == Err::<u64, ErrorCode>(
            ErrorCode::InvalidPrice,
        )) <==> price <= 0,
        collateral_value_result(collateral_amount, price, exponent) matches Ok(v) ==> price > 0
            && if exponent >= 0 {
            v == collateral_amount * price * vstd::arithmetic::power::pow(10, exponent as nat)
        } else {
            v * vstd::arithmetic::power::pow(10, (-exponent) as nat) <= collateral_amount * price
                < (v + 1) * vstd::arithmetic::power::pow(10, (-exponent) as nat)
        },
        collateral_value_result(collateral_amount, price, exponent) == Err::<u64, ErrorCode>(
            ErrorCode::MathOverflow,
        ) ==> price > 0 && if exponent >= 0 {
            collateral_amount * price * vstd::arithmetic::power::pow(10, exponent as nat)
                > u64::MAX
        } else {
            collateral_amount * price >= (u64::MAX + 1) * vstd::arithmetic::power::pow(
                10,
                (-exponent) as nat,
            )
        },
{
    if exponent >= 0 {
        lemma_pow10_is_power(exponent as nat);
    } else {
        let d = pow10((-exponent) as nat);
        lemma_pow10_is_power((-exponent) as nat);
        lemma_pow10_positive((-exponent) as nat);
        let raw = collateral_amount * price;
        let q = raw / (d as int);
        assert(q * d <= raw < (q + 1) * d) by (nonlinear_arith)
            requires
                d > 0,
                q == raw / (d as int),
        ;
        if q > u64::MAX {
            assert(raw >= (u64::MAX + 1) * d) by (nonlinear_arith)
                requires
                    q >= u64::MAX + 1,
                    q * d <= raw,
                    d > 0,
            ;
        }
    }
}

/// Values `collateral_amount` units of collateral at the price
/// `price * 10^exponent`, rounding down.
///
/// A price that is not positive is refused with `InvalidPrice`, whatever the
/// exponent; a value that does not fit in a `u64` with `MathOverflow`. For a
/// positive price the exponent must lie within 38 either way, where the power
/// of ten fits in a `u128`.
pub fn calculate_collateral_value(collateral_amount: u64, price: i64, exponent: i32) -> (r: Result<
    u64,
    ErrorCode,
>)
    requires
        price <= 0 || -MAX_PRICE_EXPONENT <= exponent <= MAX_PRICE_EXPONENT,
    ensures
        r == collateral_value_result(collateral_amount, price, exponent),
        (r == Err::<u64, ErrorCode>(ErrorCode::InvalidPrice)) <==> price <= 0,
        r matches Ok(v) ==> price > 0 && if exponent >= 0 {
            v == collateral_amount * price * vstd::arithmetic::power::pow(10, exponent as nat)
        } else {
            v * vstd::arithmetic::power::pow(10, (-exponent) as nat) <= collateral_amount * price
                < (v + 1) * vstd::arithmetic::power::pow(10, (-exponent) as nat)
        },
{
    proof {
        lemma_collateral_value(collateral_amount, price, exponent);
    }
    if price <= 0 {
        return Err(ErrorCode::InvalidPrice);
    }
    let price_u64 = price as u64;
    assert((collateral_amount as u128) * (price_u64 as u128) <= u128::MAX) by (nonlinear_arith)
        requires
            price_u64 <= i64::MAX,
    ;
    let raw_value = match (collateral_amount as u128).checked_mul(price_u64 as u128) {
        Some(v) => v,
        None => return Err(ErrorCode::MathOverflow),
    };
    let adjusted_value = if exponent < 0 {
        let divisor = pow10_u128((-exponent) as u32);
        proof {
            lemma_pow10_positive((-exponent) as nat);
        }
        match raw_value.checked_div(divisor) {
            Some(v) => v,
            None => return Err(ErrorCode::MathOverflow),
        }
    } else {
        let multiplier = pow10_u128(exponent as u32);
        match raw_value.checked_mul(multiplier) {
            Some(v) => v,
            None => return Err(ErrorCode::MathOverflow),
        }
    };
    if adjusted_value > u64::MAX as u128 {
        return Err(ErrorCode::MathOverflow);
    }
    Ok(adjusted_value as u64)
}

/// What `calculate_max_borrowable_amount` returns.
pub open spec fn max_borrowable_result(collateral_value_usd: u64, max_ltv_bps: u16) -> Result<
    u64,
    ErrorCode,
> {
    let m = collateral_value_usd * max_ltv_bps / 10000;
    if m > u64::MAX {
        Err(ErrorCode::MathOverflow)
    } else {
        Ok(m as u64)
    }
}

/// The most that may be borrowed against `collateral_value_usd` at the
/// loan-to-value ratio `max_ltv_bps`, rounding down.
pub fn calculate_max_borrowable_amount(collateral_value_usd: u64, max_ltv_bps: u16) -> (r: Result<
    u64,
    ErrorCode,
>)
    ensures
        r == max_borrowable_result(collateral_value_usd, max_ltv_bps),
        r matches Ok(m) ==> m * 10000 <= collateral_value_usd * max_ltv_bps < (m + 1) * 10000,
        r is Err ==> r == Err::<u64, ErrorCode>(ErrorCode::MathOverflow) && collateral_value_usd
            * max_ltv_bps >= (u64::MAX + 1) * 10000,
{
    assert((collateral_value_usd as u128) * (max_ltv_bps as u128) <= u128::MAX) by (nonlinear_arith);
    let product = match (collateral_value_usd as u128).checked_mul(max_ltv_bps as u128) {
        Some(v) => v,
        None => return Err(ErrorCode::MathOverflow),
    };
    let max_borrowable = match product.checked_div(BPS_DENOMINATOR) {
        Some(v) => v,
        None => return Err(ErrorCode::MathOverflow),
    };
    if max_borrowable > u64::MAX as u128 {
        return Err(ErrorCode::MathOverflow);
    }
    assert(max_borrowable * 10000 <= product < (max_borrowable + 1) * 10000);
    Ok(max_borrowable as u64)
}

/// The seconds from `last_update_timestamp` to `current_timestamp`: `None`
/// where the current time lies before the last update, or the difference does
/// not fit an `i64`.
pub open spec fn elapsed_seconds(last_update_timestamp: i64, current_timestamp: i64) -> Option<
    u64,
> {
    let d = current_timestamp - last_update_timestamp;
    if d < 0 || d > i64::MAX {
        None
    } else {
        Some(d as u64)
    }
}

/// The interest on `debt` at `rate_bps` per year over `elapsed` seconds,
/// before the bounds checks: `debt * rate * elapsed / 10000 / SECONDS_PER_YEAR`.
pub open spec fn interest_amount(debt: u64, rate_bps: u16, elapsed: u64) -> int {
    debt * rate_bps * elapsed / 10000 / (SECONDS_PER_YEAR as int)
}

/// What `accrue_interest` returns.
pub open spec fn accrue_interest_result(
    current_debt: u64,
    borrow_rate_bps: u16,
    last_update_timestamp: i64,
    current_timestamp: i64,
) -> Result<u64, ErrorCode> {
    if current_debt == 0 {
        Ok(0)
    } else {
        match elapsed_seconds(last_update_timestamp, current_timestamp) {
            None => Err(ErrorCode::InvalidTimestamp),
            Some(elapsed) => if elapsed == 0 {
                Ok(current_debt)
            } else if current_debt + interest_amount(current_debt, borrow_rate_bps, elapsed)
                > u64::MAX {
                Err(ErrorCode::MathOverflow)
            } else {
                Ok((current_debt + interest_amount(current_debt, borrow_rate_bps, elapsed)) as u64)
            },
        }
    }
}

proof fn lemma_large_interest(p: int)
    requires
        p > u128::MAX,
    ensures
        p / 10000int / (SECONDS_PER_YEAR as int) > u64::MAX,
{
    assert(p / 10000int >= 0x1_0000_0000_0000_0000_0000_0000_0000_0000int / 10000int) by (nonlinear_arith)
        requires
            p >= 0x1_0000_0000_0000_0000_0000_0000_0000_0000int,
    ;
    assert(p / 10000int / 31_557_600int >= (0x1_0000_0000_0000_0000_0000_0000_0000_0000int / 10000int)
        / 31_557_600int) by (nonlinear_arith)
        requires
            p / 10000int >= 0x1_0000_0000_0000_0000_0000_0000_0000_0000int / 10000int,
    ;
}

proof fn lemma_large_quotient(p: int, v: int)
    requires
        p > u128::MAX,
        0 < v <= u64::MAX,
    ensures
        p / v > u64::MAX,
{
    assert(p / v >= 0x1_0000_0000_0000_0000int) by (nonlinear_arith)
        requires
            p >= 0x1_0000_0000_0000_0000_0000_0000_0000_0000int,
            0 < v <= 0xffff_ffff_ffff_ffffint,
    {
        assert(0x1_0000_0000_0000_0000int * v <= 0x1_0000_0000_0000_0000_0000_0000_0000_0000int - v);
        assert(p - v * (p / v) < v);
    }
}

/// Law: interest is simple interest at the yearly rate over the elapsed
/// seconds, rounded down: the interest `i` added to a debt `d` satisfies
/// `i * 10000 * SECONDS_PER_YEAR <= d * rate * elapsed < (i + 1) * 10000 *
/// SECONDS_PER_YEAR`. No debt stays no debt; a clock before the last update is
/// refused with `InvalidTimestamp`; `MathOverflow` only where the debt with
/// interest exceeds a `u64`.
pub proof fn lemma_accrue_interest(
    current_debt: u64,
    borrow_rate_bps: u16,
    last_update_timestamp: i64,
    current_timestamp: i64,
)
    ensures
        current_debt == 0 ==> accrue_interest_result(
            current_debt,
            borrow_rate_bps,
            last_update_timestamp,
            current_timestamp,
        ) == Ok::<u64, ErrorCode>(0),
        current_debt > 0 && current_timestamp < last_update_timestamp ==> accrue_interest_result(
            current_debt,
            borrow_rate_bps,
            last_update_timestamp,
            current_timestamp,
        ) == Err::<u64, ErrorCode>(ErrorCode::InvalidTimestamp),
        accrue_interest_result(
            current_debt,
            borrow_rate_bps,
            last_update_timestamp,
            current_timestamp,
        ) matches Ok(d) ==> d >= current_debt && (current_debt > 0 ==> last_update_timestamp
            <= current_timestamp && (d - current_debt) * 315_576_000_000 <= current_debt
            * borrow_rate_bps * (current_timestamp - last_update_timestamp) < (d - current_debt
            + 1) * 315_576_000_000),
        accrue_interest_result(
            current_debt,
            borrow_rate_bps,
            last_update_timestamp,
            current_timestamp,
        ) == Err::<u64, ErrorCode>(ErrorCode::MathOverflow) ==> current_debt > 0
            && last_update_timestamp <= current_timestamp && current_debt * borrow_rate_bps * (
        current_timestamp - last_update_timestamp) >= (u64::MAX - current_debt + 1)
            * 315_576_000_000,
{
    let e = current_timestamp - last_update_timestamp;
    if current_debt > 0 && 0 <= e <= i64::MAX {
        let x = current_debt * borrow_rate_bps * e;
        assert(x >= 0) by (nonlinear_arith)
            requires
                x == current_debt * borrow_rate_bps * e,
                e >= 0,
                current_debt >= 0,
                borrow_rate_bps >= 0,
        ;
        let q = x / 10000;
        let i = q / 31_557_600;
        assert(q * 10000 <= x < (q + 1) * 10000);
        assert(i * 31_557_600 <= q < (i + 1) * 31_557_600);
        assert(i * 315_576_000_000 <= x < (i + 1) * 315_576_000_000);
        assert(i == interest_amount(current_debt, borrow_rate_bps, e as u64));
    }
}

/// Adds to `current_debt` the simple interest at `borrow_rate_bps` per year
/// for the time from `last_update_timestamp` to `current_timestamp`, rounding
/// the interest down.
///
/// A debt of zero stays zero and no elapsed time adds nothing. A current time
/// before the last update, or a difference of timestamps that does not fit an
/// `i64`, is refused with `InvalidTimestamp`.
pub fn accrue_interest(
    current_debt: u64,
    borrow_rate_bps: u16,
    last_update_timestamp: i64,
    current_timestamp: i64,
) -> (r: Result<u64, ErrorCode>)
    ensures
        r == accrue_interest_result(
            current_debt,
            borrow_rate_bps,
            last_update_timestamp,
            current_timestamp,
        ),
        r matches Ok(d) ==> d >= current_debt,
        current_debt == 0 ==> r == Ok::<u64, ErrorCode>(0),
        current_debt > 0 && current_timestamp < last_update_timestamp ==> r == Err::<
            u64,
            ErrorCode,
        >(ErrorCode::InvalidTimestamp),
        r matches Ok(d) ==> (current_debt > 0 ==> last_update_timestamp <= current_timestamp && (d
            - current_debt) * 315_576_000_000 <= current_debt * borrow_rate_bps * (current_timestamp
            - last_update_timestamp) < (d - current_debt + 1) * 315_576_000_000),
        r == Err::<u64, ErrorCode>(ErrorCode::MathOverflow) ==> current_debt > 0
            && last_update_timestamp <= current_timestamp && current_debt * borrow_rate_bps * (
        current_timestamp - last_update_timestamp) >= (u64::MAX - current_debt + 1)
            * 315_576_000_000,
{
    proof {
        lemma_accrue_interest(
            current_debt,
            borrow_rate_bps,
            last_update_timestamp,
            current_timestamp,
        );
    }
    if current_debt == 0 {
        return Ok(0);
    }
    let difference = match current_timestamp.checked_sub(last_update_timestamp) {
        Some(d) => d,
        None => return Err(ErrorCode::InvalidTimestamp),
    };
    if difference < 0 {
        return Err(ErrorCode::InvalidTimestamp);
    }
    let time_elapsed: u64 = difference as u64;
    if time_elapsed == 0 {
        return Ok(current_debt);
    }
    assert((current_debt as u128) * (borrow_rate_bps as u128) <= u128::MAX) by (nonlinear_arith);
    let debt_times_rate = match (current_debt as u128).checked_mul(borrow_rate_bps as u128) {
        Some(v) => v,
        None => return Err(ErrorCode::MathOverflow),
    };
    let scaled = match debt_times_rate.checked_mul(time_elapsed as u128) {
        Some(v) => v,
        None => {
            // Interest on a product beyond 2^128 exceeds what a u64 holds.
            proof {
                lemma_large_interest(
                    current_debt as int * borrow_rate_bps as int * time_elapsed as int,
                );
            }
            return Err(ErrorCode::MathOverflow);
        },
    };
    let per_bps = match scaled.checked_div(BPS_DENOMINATOR) {
        Some(v) => v,
        None => return Err(ErrorCode::MathOverflow),
    };
    let interest = match per_bps.checked_div(SECONDS_PER_YEAR as u128) {
        Some(v) => v,
        None => return Err(ErrorCode::MathOverflow),
    };
    if interest > u64::MAX as u128 {
        return Err(ErrorCode::MathOverflow);
    }
    let interest_u64 = interest as u64;
    match current_debt.checked_add(interest_u64) {
        Some(v) => Ok(v),
        None => Err(ErrorCode::MathOverflow),
    }
}

/// The health factor, in basis points: the collateral value weighted by the
/// liquidation LTV, divided by the debt, capped at `u16::MAX`; `u16::MAX`
/// where there is no debt.
pub open spec fn health_factor(collateral_value_usd: u64, debt: u64, liquidation_ltv_bps: u16) -> u16 {
    if debt == 0 {
        u16::MAX
    } else {
        let h = collateral_value_usd * liquidation_ltv_bps / (debt as int);
        if h > u16::MAX {
            u16::MAX
        } else {
            h as u16
        }
    }
}

/// Law: the health factor is the collateral value weighted by the
/// liquidation LTV over the debt, rounded down and capped at `u16::MAX`; the
/// loan-to-value ratio is the debt in basis points of the collateral value,
/// rounded down and capped likewise. No debt is perfectly healthy; collateral
/// worth nothing gives the highest ratio.
pub proof fn lemma_ratios(value: u64, debt: u64, bps: u16)
    ensures
        debt == 0 ==> health_factor(value, debt, bps) == u16::MAX,
        debt > 0 && health_factor(value, debt, bps) < u16::MAX ==> health_factor(value, debt, bps)
            * debt <= value * bps < (health_factor(value, debt, bps) + 1) * debt,
        debt > 0 && health_factor(value, debt, bps) == u16::MAX ==> value * bps >= u16::MAX
            * debt,
        value == 0 ==> loan_to_value(debt, value) == u16::MAX,
        value > 0 && loan_to_value(debt, value) < u16::MAX ==> loan_to_value(debt, value) * value
            <= debt * 10000 < (loan_to_value(debt, value) + 1) * value,
        value > 0 && loan_to_value(debt, value) == u16::MAX ==> debt * 10000 >= u16::MAX * value,
{
    if debt > 0 {
        let x = value * bps;
        let q = x / (debt as int);
        assert(q * debt <= x < (q + 1) * debt) by (nonlinear_arith)
            requires
                debt > 0,
                q == x / (debt as int),
        ;
        if q >= u16::MAX {
            assert(x >= u16::MAX * debt) by (nonlinear_arith)
                requires
                    q >= u16::MAX,
                    q * debt <= x,
                    debt > 0,
            ;
        }
    }
    if value > 0 {
        let x = debt * 10000;
        let q = x / (value as int);
        assert(q * value <= x < (q + 1) * value) by (nonlinear_arith)
            requires
                value > 0,
                q == x / (value as int),
        ;
        if q >= u16::MAX {
            assert(x >= u16::MAX * value) by (nonlinear_arith)
                requires
                    q >= u16::MAX,
                    q * value <= x,
                    value > 0,
            ;
        }
    }
}

/// Computes the health factor of a position (see `health_factor`). It never
/// fails.
pub fn calculate_health_factor(collateral_value_usd: u64, debt: u64, liquidation_ltv_bps: u16) -> (r:
    Result<u16, ErrorCode>)
    ensures
        r == Ok::<u16, ErrorCode>(health_factor(collateral_value_usd, debt, liquidation_ltv_bps)),
        debt == 0 ==> r == Ok::<u16, ErrorCode>(u16::MAX),
        r matches Ok(h) ==> (debt > 0 && h < u16::MAX ==> h * debt <= collateral_value_usd
            * liquidation_ltv_bps < (h + 1) * debt) && (debt > 0 && h == u16::MAX
            ==> collateral_value_usd * liquidation_ltv_bps >= u16::MAX * debt),
{
    proof {
        lemma_ratios(collateral_value_usd, debt, liquidation_ltv_bps);
    }
    if debt == 0 {
        return Ok(u16::MAX);
    }
    assert((collateral_value_usd as u128) * (liquidation_ltv_bps as u128) <= u128::MAX)
        by (nonlinear_arith);
    let numerator = match (collateral_value_usd as u128).checked_mul(liquidation_ltv_bps as u128) {
        Some(v) => v,
        None => return Err(ErrorCode::MathOverflow),
    };
    let health = match numerator.checked_div(debt as u128) {
        Some(v) => v,
        None => return Err(ErrorCode::MathOverflow),
    };
    let health_u16: u16 = if health > u16::MAX as u128 {
        u16::MAX
    } else {
        health as u16
    };
    Ok(health_u16)
}

/// The loan-to-value ratio in basis points, `debt * 10000 / value` capped at
/// `u16::MAX`; `u16::MAX` where the collateral is worth nothing.
pub open spec fn loan_to_value(debt: u64, collateral_value_usd: u64) -> u16 {
    if collateral_value_usd == 0 {
        u16::MAX
    } else {
        let l = debt * 10000 / (collateral_value_usd as int);
        if l > u16::MAX {
            u16::MAX
        } else {
            l as u16
        }
    }
}

/// Computes the loan-to-value ratio of a position (see `loan_to_value`). It
/// never fails.
pub fn compute_ltv(debt: u64, collateral_value_usd: u64) -> (r: Result<u16, ErrorCode>)
    ensures
        r == Ok::<u16, ErrorCode>(loan_to_value(debt, collateral_value_usd)),
        collateral_value_usd == 0 ==> r == Ok::<u16, ErrorCode>(u16::MAX),
        r matches Ok(l) ==> (collateral_value_usd > 0 && l < u16::MAX ==> l * collateral_value_usd
            <= debt * 10000 < (l + 1) * collateral_value_usd) && (collateral_value_usd > 0 && l
            == u16::MAX ==> debt * 10000 >= u16::MAX * collateral_value_usd),
{
    proof {
        lemma_ratios(collateral_value_usd, debt, 0);
    }
    if collateral_value_usd == 0 {
        return Ok(u16::MAX);
    }
    let scaled = match (debt as u128).checked_mul(BPS_DENOMINATOR) {
        Some(v) => v,
        None => return Err(ErrorCode::MathOverflow),
    };
    let ltv = match scaled.checked_div(collateral_value_usd as u128) {
        Some(v) => v,
        None => return Err(ErrorCode::MathOverflow),
    };
    let capped = if ltv < u16::MAX as u128 {
        ltv
    } else {
        u16::MAX as u128
    };
    Ok(capped as u16)
}

/// The debt plus the liquidation bonus, rounding down.
pub open spec fn debt_with_bonus(debt: u64, liquidation_bonus_bps: u16) -> int {
    debt * (10000 + liquidation_bonus_bps) / 10000
}

/// What `calculate_liquidation_amounts` returns.
pub open spec fn liquidation_amounts_result(
    debt: u64,
    collateral_amount: u64,
    liquidation_bonus_bps: u16,
    collateral_price: i64,
    price_exponent: i32,
) -> Result<(u64, u64), ErrorCode> {
    match collateral_value_result(collateral_amount, collateral_price, price_exponent) {
        Err(e) => Err(e),
        Ok(value) => {
            let product = debt_with_bonus(debt, liquidation_bonus_bps) * collateral_amount;
            if 10000 + liquidation_bonus_bps > u16::MAX {
                Err(ErrorCode::MathOverflow)
            } else if value == 0 || product / (value as int) > u64::MAX {
                Err(ErrorCode::MathOverflow)
            } else {
                let wanted = product / (value as int);
                let seized: u64 = if wanted < collateral_amount {
                    wanted as u64
                } else {
                    collateral_amount
                };
                Ok((seized, (collateral_amount - seized) as u64))
            }
        },
    }
}

/// Law: the liquidator seizes collateral worth the debt plus the liquidation
/// bonus at the oracle price, rounded down, and at most all the collateral;
/// the rest stays with the owner. The split goes through wherever the
/// collateral has a value and the seized amount fits, and a refused valuation
/// refuses the split with the same error.
pub proof fn lemma_liquidation_split(
    debt: u64,
    collateral_amount: u64,
    liquidation_bonus_bps: u16,
    collateral_price: i64,
    price_exponent: i32,
)
    ensures
        liquidation_amounts_result(
            debt,
            collateral_amount,
            liquidation_bonus_bps,
            collateral_price,
            price_exponent,
        ) matches Ok((s, rest)) ==> s <= collateral_amount && s + rest == collateral_amount,
        collateral_value_result(collateral_amount, collateral_price, price_exponent) matches Err(e)
            ==> liquidation_amounts_result(
            debt,
            collateral_amount,
            liquidation_bonus_bps,
            collateral_price,
            price_exponent,
        ) == Err::<(u64, u64), ErrorCode>(e),
        liquidation_amounts_result(
            debt,
            collateral_amount,
            liquidation_bonus_bps,
            collateral_price,
            price_exponent,
        ) matches Ok((s, rest)) ==> collateral_value_result(
            collateral_amount,
            collateral_price,
            price_exponent,
        ) matches Ok(v) && v > 0 && s == (if (debt * (10000 + liquidation_bonus_bps) / 10000)
            * collateral_amount / (v as int) < collateral_amount {
            (debt * (10000 + liquidation_bonus_bps) / 10000) * collateral_amount / (v as int)
        } else {
            collateral_amount as int
        }) && s * v <= (debt * (10000 + liquidation_bonus_bps) / 10000) * collateral_amount && (s
            < collateral_amount ==> (debt * (10000 + liquidation_bonus_bps) / 10000)
            * collateral_amount < (s + 1) * v),
        collateral_value_result(collateral_amount, collateral_price, price_exponent) matches Ok(v)
            && v > 0 && 10000 + liquidation_bonus_bps <= u16::MAX && (debt * (10000
            + liquidation_bonus_bps) / 10000) * collateral_amount / (v as int) <= u64::MAX
            ==> liquidation_amounts_result(
            debt,
            collateral_amount,
            liquidation_bonus_bps,
            collateral_price,
            price_exponent,
        ) is Ok,
{
    let r = liquidation_amounts_result(
        debt,
        collateral_amount,
        liquidation_bonus_bps,
        collateral_price,
        price_exponent,
    );
    let owed = debt * (10000 + liquidation_bonus_bps) / 10000;
    assert(owed == debt_with_bonus(debt, liquidation_bonus_bps));
    if let Ok(v) = collateral_value_result(collateral_amount, collateral_price, price_exponent) {
        if v > 0 {
            let x = owed * collateral_amount;
            let vi = v as int;
            assert(owed >= 0) by (nonlinear_arith)
                requires
                    owed == debt * (10000 + liquidation_bonus_bps) / 10000,
            ;
            assert(x >= 0) by (nonlinear_arith)
                requires
                    x == owed * collateral_amount,
                    owed >= 0,
            ;
            assert(x / vi * vi <= x && x < (x / vi + 1) * vi) by (nonlinear_arith)
                requires
                    vi > 0,
                    x >= 0,
            ;
            if let Ok((s, rest)) = r {
                assert(s <= x / vi);
                assert(s * vi <= x) by (nonlinear_arith)
                    requires
                        s <= x / vi,
                        x / vi * vi <= x,
                        vi > 0,
                        s >= 0,
                ;
            }
        }
    }
}

/// Splits `collateral_amount` between the liquidator and the borrower: the
/// liquidator seizes collateral worth the debt plus the liquidation bonus (at
/// most all of it), the borrower keeps the rest. Returns `(seized, remaining)`.
pub fn calculate_liquidation_amounts(
    debt: u64,
    collateral_amount: u64,
    liquidation_bonus_bps: u16,
    collateral_price: i64,
    price_exponent: i32,
) -> (r: Result<(u64, u64), ErrorCode>)
    requires
        collateral_price <= 0 || -MAX_PRICE_EXPONENT <= price_exponent <= MAX_PRICE_EXPONENT,
    ensures
        r == liquidation_amounts_result(
            debt,
            collateral_amount,
            liquidation_bonus_bps,
            collateral_price,
            price_exponent,
        ),
        r matches Ok((s, rest)) ==> s <= collateral_amount && s + rest == collateral_amount,
        collateral_value_result(collateral_amount, collateral_price, price_exponent) matches Err(e)
            ==> r == Err::<(u64, u64), ErrorCode>(e),
        // The liquidator seizes collateral worth the debt plus the bonus at the
        // oracle price, rounded down, and at most all of it.
        r matches Ok((s, rest)) ==> collateral_value_result(
            collateral_amount,
            collateral_price,
            price_exponent,
        ) matches Ok(v) && v > 0 && ({
            let owed = debt * (10000 + liquidation_bonus_bps) / 10000;
            &&& s == (if owed * collateral_amount / (v as int) < collateral_amount {
                owed * collateral_amount / (v as int)
            } else {
                collateral_amount as int
            })
            &&& s * v <= owed * collateral_amount
            &&& s < collateral_amount ==> owed * collateral_amount < (s + 1) * v
        }),
        // It goes through wherever the collateral has a value and the seized
        // amount fits.
        collateral_value_result(collateral_amount, collateral_price, price_exponent) matches Ok(v)
            && v > 0 && 10000 + liquidation_bonus_bps <= u16::MAX && (debt * (10000
            + liquidation_bonus_bps) / 10000) * collateral_amount / (v as int) <= u64::MAX
            ==> r is Ok,
{
    proof {
        lemma_liquidation_split(
            debt,
            collateral_amount,
            liquidation_bonus_bps,
            collateral_price,
            price_exponent,
        );
    }
    let collateral_value = match calculate_collateral_value(
        collateral_amount,
        collateral_price,
        price_exponent,
    ) {
        Ok(v) => v,
        Err(e) => return Err(e),
    };
    let bonus_factor = match 10000u16.checked_add(liquidation_bonus_bps) {
        Some(v) => v,
        None => return Err(ErrorCode::MathOverflow),
    };
    assert((debt as u128) * (bonus_factor as u128) <= u128::MAX) by (nonlinear_arith);
    let debt_scaled = match (debt as u128).checked_mul(bonus_factor as u128) {
        Some(v) => v,
        None => return Err(ErrorCode::MathOverflow),
    };
    let debt_plus_bonus = match debt_scaled.checked_div(BPS_DENOMINATOR) {
        Some(v) => v,
        None => return Err(ErrorCode::MathOverflow),
    };
    assert(debt_plus_bonus == debt_with_bonus(debt, liquidation_bonus_bps));
    let product = match debt_plus_bonus.checked_mul(collateral_amount as u128) {
        Some(v) => v,
        None => {
            // A product beyond 2^128 over a value below 2^64 exceeds 2^64.
            proof {
                if collateral_value > 0 {
                    lemma_large_quotient(
                        debt_plus_bonus as int * collateral_amount as int,
                        collateral_value as int,
                    );
                }
            }
            return Err(ErrorCode::MathOverflow);
        },
    };
    let collateral_to_seize = match product.checked_div(collateral_value as u128) {
        Some(v) => v,
        None => return Err(ErrorCode::MathOverflow),
    };
    if collateral_to_seize > u64::MAX as u128 {
        return Err(ErrorCode::MathOverflow);
    }
    let collateral_to_seize_u64 = collateral_to_seize as u64;
    let collateral_to_seize_final = if collateral_to_seize_u64 < collateral_amount {
        collateral_to_seize_u64
    } else {
        collateral_amount
    };
    let remaining_collateral = match collateral_amount.checked_sub(collateral_to_seize_final) {
        Some(v) => v,
        None => return Err(ErrorCode::MathOverflow),
    };
    Ok((collateral_to_seize_final, remaining_collateral))
}

} // verus!

//! Properties that hold across the instructions.
use vstd::prelude::*;

use crate::error::ErrorCode;
use crate::instructions::deposit_collateral::{
    deposit_outcome, DepositCollateral, DepositRequest,
};
use crate::instructions::liquidate::{Liquidate, LiquidateAction, LiquidateStage};
use crate::instructions::redeem_collateral::{
    RedeemAction, RedeemCollateral, RedeemRequest, RedeemStage, RedeemStep,
};
use crate::state::Position;
use crate::instructions::update_config::updated_config;
use crate::state::Config;
use crate::utils::{
    accrue_interest_result, collateral_value_result, elapsed_seconds, health_factor,
    interest_amount, lemma_liquidation_split, lemma_ratios, loan_to_value,
};

verus! {

/// Law: an update by the authority keeps a well-formed configuration
/// well-formed: every refused field leaves the whole configuration as it was,
/// and every accepted field keeps the maximum LTV below the liquidation LTV.
pub proof fn lemma_update_keeps_well_formed(
    c: Config,
    max_ltv_bps: Option<u16>,
    liquidation_ltv_bps: Option<u16>,
    liquidation_bonus_bps: Option<u16>,
    min_health_factor_bps: Option<u16>,
    borrow_rate_bps: Option<u16>,
    supply_cap: Option<u64>,
    paused: Option<bool>,
)
    requires
        c.well_formed(),
    ensures
        updated_config(
            c,
            max_ltv_bps,
            liquidation_ltv_bps,
            liquidation_bonus_bps,
            min_health_factor_bps,
            borrow_rate_bps,
            supply_cap,
            paused,
        ) matches Ok(c2) ==> c2.well_formed(),
{
}

/// Law: on a clock that runs forward, a debt only grows with time: where the
/// interest up to a later time can be computed, so can the interest up to an
/// earlier one, and it is no larger.
pub proof fn lemma_interest_grows_with_time(
    debt: u64,
    borrow_rate_bps: u16,
    last_update_timestamp: i64,
    earlier: i64,
    later: i64,
)
    requires
        last_update_timestamp <= earlier <= later,
    ensures
        accrue_interest_result(debt, borrow_rate_bps, last_update_timestamp, later) matches Ok(d2)
            ==> accrue_interest_result(
            debt,
            borrow_rate_bps,
            last_update_timestamp,
            earlier,
        ) matches Ok(d1) && d1 <= d2,
{
    if debt > 0 && later - last_update_timestamp <= i64::MAX {
        let e1 = elapsed_seconds(last_update_timestamp, earlier)->Some_0;
        let e2 = elapsed_seconds(last_update_timestamp, later)->Some_0;
        assert(e1 <= e2);
        if e1 > 0 {
            let p1 = debt * borrow_rate_bps * e1;
            let p2 = debt * borrow_rate_bps * e2;
            assert(p1 <= p2) by (nonlinear_arith)
                requires
                    e1 <= e2,
                    p1 == debt * borrow_rate_bps * e1,
                    p2 == debt * borrow_rate_bps * e2,
                    debt >= 0,
                    borrow_rate_bps >= 0,
            ;
            assert(p1 / 10000 <= p2 / 10000) by (nonlinear_arith)
                requires
                    p1 <= p2,
            ;
            assert(p1 / 10000 / 31_557_600 <= p2 / 10000 / 31_557_600) by (nonlinear_arith)
                requires
                    p1 / 10000 <= p2 / 10000,
            ;
            assert(interest_amount(debt, borrow_rate_bps, e1) <= interest_amount(
                debt,
                borrow_rate_bps,
                e2,
            ));
        }
    }
}

/// Law: a deposit that goes through leaves the position within every limit
/// that the deposit checks: its debt within the maximum LTV of its collateral
/// at the price read, the stablecoin supply within the cap, and its health
/// factor at least the configured minimum.
pub proof fn lemma_deposit_respects_limits(
    accounts: DepositCollateral,
    request: DepositRequest,
    price: i64,
    exponent: i32,
    now: i64,
)
    ensures
        deposit_outcome(accounts, request, price, exponent, now) matches Ok(p) ==> {
            &&& p.deposited_collateral == accounts.position.deposited_collateral
                + request.collateral_amount
            &&& p.active
            &&& p.owner == accounts.owner
            &&& p.last_update_timestamp == now
            &&& accounts.mint_supply + request.stablecoin_to_mint <= accounts.config.supply_cap
            &&& collateral_value_result(p.deposited_collateral, price, exponent) matches Ok(value)
                && p.debt_shares * 10000 <= value * accounts.config.max_ltv_bps
                && health_factor(value, p.debt_shares, accounts.config.liquidation_ltv_bps)
                >= accounts.config.min_health_factor_bps
        },
{
}

/// Law: when a deposit goes through. Exactly when the system is not paused,
/// some collateral is deposited, the position's debt with interest up to the
/// time of the deposit (its plain debt where inactive) can be computed as `d`,
/// the collateral after the deposit fits and has a value `v` at the oracle
/// price, the maximum borrowable amount fits a `u64`, the debt after the mint
/// is within the maximum LTV of that value (`(d + mint) * 10000 <= v *
/// max_ltv`), the supply after the mint is within the cap, and the health
/// factor after the mint reaches the minimum.
pub proof fn lemma_deposit_accepted(
    accounts: DepositCollateral,
    request: DepositRequest,
    price: i64,
    exponent: i32,
    now: i64,
)
    ensures
        deposit_outcome(accounts, request, price, exponent, now) is Ok <==> ({
            let c = accounts.config;
            let p = accounts.position;
            let accrued = accrue_interest_result(
                p.debt_shares,
                c.borrow_rate_bps,
                p.last_update_timestamp,
                now,
            );
            let d: int = if p.active {
                accrued->Ok_0 as int
            } else {
                p.debt_shares as int
            };
            let new_debt = d + request.stablecoin_to_mint;
            &&& !c.paused
            &&& request.collateral_amount > 0
            &&& p.active ==> accrued is Ok
            &&& p.deposited_collateral + request.collateral_amount <= u64::MAX
            &&& collateral_value_result(
                (p.deposited_collateral + request.collateral_amount) as u64,
                price,
                exponent,
            ) matches Ok(v) && v * c.max_ltv_bps < (u64::MAX + 1) * 10000 && new_debt * 10000
                <= v * c.max_ltv_bps && accounts.mint_supply + request.stablecoin_to_mint
                <= c.supply_cap && health_factor(v, new_debt as u64, c.liquidation_ltv_bps)
                >= c.min_health_factor_bps
        }),
{
    let c = accounts.config;
    let p = accounts.position;
    if p.deposited_collateral + request.collateral_amount <= u64::MAX {
        if let Ok(v) = collateral_value_result(
            (p.deposited_collateral + request.collateral_amount) as u64,
            price,
            exponent,
        ) {
            let x = v * c.max_ltv_bps;
            let m = x / 10000;
            assert(m * 10000 <= x < (m + 1) * 10000);
        }
    }
}

/// Law: why a deposit is refused. `SystemPaused` while paused; then
/// `InvalidAmount` for no collateral; `ExceedsMaxLtv` only where the debt with
/// interest after the mint exceeds the maximum LTV of the collateral's value;
/// `SupplyCapExceeded` only where the supply after the mint exceeds the cap;
/// `HealthFactorTooLow` only where the health factor after the mint falls
/// below the minimum.
pub proof fn lemma_deposit_refusals(
    accounts: DepositCollateral,
    request: DepositRequest,
    price: i64,
    exponent: i32,
    now: i64,
)
    ensures
        accounts.config.paused ==> deposit_outcome(accounts, request, price, exponent, now)
            == Err::<Position, ErrorCode>(ErrorCode::SystemPaused),
        !accounts.config.paused && request.collateral_amount == 0 ==> deposit_outcome(
            accounts,
            request,
            price,
            exponent,
            now,
        ) == Err::<Position, ErrorCode>(ErrorCode::InvalidAmount),
        ({
            let c = accounts.config;
            let p = accounts.position;
            let accrued = accrue_interest_result(
                p.debt_shares,
                c.borrow_rate_bps,
                p.last_update_timestamp,
                now,
            );
            let d: int = if p.active {
                accrued->Ok_0 as int
            } else {
                p.debt_shares as int
            };
            let new_debt = d + request.stablecoin_to_mint;
            let value = collateral_value_result(
                (p.deposited_collateral + request.collateral_amount) as u64,
                price,
                exponent,
            );
            let r = deposit_outcome(accounts, request, price, exponent, now);
            &&& r == Err::<Position, ErrorCode>(ErrorCode::ExceedsMaxLtv) ==> (value matches Ok(v)
                && new_debt * 10000 > v * c.max_ltv_bps)
            &&& r == Err::<Position, ErrorCode>(ErrorCode::SupplyCapExceeded)
                ==> accounts.mint_supply + request.stablecoin_to_mint > c.supply_cap
            &&& r == Err::<Position, ErrorCode>(ErrorCode::HealthFactorTooLow) ==> (value matches Ok(
                v,
            ) && health_factor(v, new_debt as u64, c.liquidation_ltv_bps)
                < c.min_health_factor_bps)
        }),
{
    let c = accounts.config;
    let p = accounts.position;
    if p.deposited_collateral + request.collateral_amount <= u64::MAX {
        if let Ok(v) = collateral_value_result(
            (p.deposited_collateral + request.collateral_amount) as u64,
            price,
            exponent,
        ) {
            let x = v * c.max_ltv_bps;
            let m = x / 10000;
            assert(m * 10000 <= x < (m + 1) * 10000);
        }
    }
}

/// Law: a deposit records the position's debt with interest up to the time
/// of the deposit (none for an inactive position) plus the stablecoin it
/// mints, whatever that amount, zero included; it stamps the position with
/// that time and adds the deposited collateral.
pub proof fn lemma_deposit_records_accrued_debt(
    accounts: DepositCollateral,
    request: DepositRequest,
    price: i64,
    exponent: i32,
    now: i64,
)
    ensures
        deposit_outcome(accounts, request, price, exponent, now) matches Ok(p) ==> {
            &&& p.last_update_timestamp == now
            &&& p.deposited_collateral == accounts.position.deposited_collateral
                + request.collateral_amount
            &&& accounts.position.active ==> (accrue_interest_result(
                accounts.position.debt_shares,
                accounts.config.borrow_rate_bps,
                accounts.position.last_update_timestamp,
                now,
            ) matches Ok(d) && p.debt_shares == d + request.stablecoin_to_mint)
            &&& !accounts.position.active ==> p.debt_shares == accounts.position.debt_shares
                + request.stablecoin_to_mint
            &&& p.active
            &&& p.owner == accounts.owner
            &&& p.collateral_vault == accounts.collateral_vault
            &&& accounts.position.bump == 0 ==> p.bump == request.bumps.position && p.vault_bump
                == request.bumps.collateral_vault
            &&& accounts.position.bump != 0 ==> p.bump == accounts.position.bump && p.vault_bump
                == accounts.position.vault_bump
        },
{
}

/// Law: a position that a deposit has just left is not liquidatable at the
/// same price and time, because the maximum LTV lies below the liquidation
/// LTV: the liquidation is refused with `PositionNotLiquidatable`, or, where
/// the collateral is worth nothing at that price (and so the debt is zero),
/// with `MathOverflow`.
pub proof fn lemma_fresh_position_not_liquidatable(
    accounts: DepositCollateral,
    request: DepositRequest,
    price: i64,
    exponent: i32,
    now: i64,
    liquidation: Liquidate,
)
    requires
        accounts.config.well_formed(),
        deposit_outcome(accounts, request, price, exponent, now) matches Ok(p)
            && liquidation.position == p,
        liquidation.config == accounts.config,
        liquidation.now == now,
    ensures
        liquidation.priced_step(price, exponent).0 is Err,
        collateral_value_result(liquidation.position.deposited_collateral, price, exponent) matches Ok(
            value,
        ) && value > 0 ==> liquidation.priced_step(price, exponent).0 == Err::<
            LiquidateAction,
            ErrorCode,
        >(ErrorCode::PositionNotLiquidatable),
{
    let p = liquidation.position;
    let max = accounts.config.max_ltv_bps;
    lemma_deposit_respects_limits(accounts, request, price, exponent, now);
    let value = collateral_value_result(p.deposited_collateral, price, exponent)->Ok_0;
    let debt = p.debt_shares;
    assert(debt * 10000 <= value * max);
    if value > 0 {
        assert(debt * 10000 / (value as int) <= max) by (nonlinear_arith)
            requires
                debt * 10000 <= value * max,
                value > 0,
                debt >= 0,
        ;
        assert(loan_to_value(debt, value) <= max);
    } else {
        assert(debt * 10000 <= 0) by (nonlinear_arith)
            requires
                debt * 10000 <= value * max,
                value == 0,
        ;
    }
}

/// The position that a redemption should leave behind: its debt with
/// interest up to the time of the request, less the stablecoin burnt; its
/// collateral less what is withdrawn; stamped with the time of the request;
/// closed once both are zero; otherwise as it was.
pub open spec fn redeemed_as_requested(m: RedeemCollateral, after: Position) -> bool {
    &&& accrue_interest_result(
        m.position.debt_shares,
        m.config.borrow_rate_bps,
        m.position.last_update_timestamp,
        m.request.now,
    ) matches Ok(accrued) && after.debt_shares + m.request.stablecoin_to_burn == accrued
    &&& after.deposited_collateral + m.request.collateral_to_withdraw
        == m.position.deposited_collateral
    &&& after.last_update_timestamp == m.request.now
    &&& after.active == (if after.debt_shares == 0 && after.deposited_collateral == 0 {
        false
    } else {
        m.position.active
    })
    &&& after.owner == m.position.owner
    &&& after.collateral_vault == m.position.collateral_vault
    &&& after.bump == m.position.bump
    &&& after.vault_bump == m.position.vault_bump
}

/// What a redemption under way carries between its steps: the debt with
/// interest up to the time of the request, less any stablecoin already
/// burnt, and the collateral less any already withdrawn.
pub open spec fn redemption_under_way(m: RedeemCollateral) -> bool {
    accrue_interest_result(
        m.position.debt_shares,
        m.config.borrow_rate_bps,
        m.position.last_update_timestamp,
        m.request.now,
    ) matches Ok(accrued) && match m.stage {
        RedeemStage::AwaitingBurn { debt } => debt == accrued && m.request.stablecoin_to_burn > 0,
        RedeemStage::AwaitingWithdrawal { debt } => debt + m.request.stablecoin_to_burn == accrued
            && m.request.collateral_to_withdraw > 0,
        RedeemStage::AwaitingPrice { debt, deposited } => debt + m.request.stablecoin_to_burn
            == accrued && deposited + m.request.collateral_to_withdraw
            == m.position.deposited_collateral,
        _ => false,
    }
}

/// A step of a redemption that starts from `before` either completes with the
/// position `redeemed_as_requested`, or leaves the position, configuration and
/// request alone with the redemption under way.
pub open spec fn redemption_step_keeps_account(before: RedeemCollateral, step: RedeemStep) -> bool {
    step.0 is Ok ==> if step.0 == Ok::<RedeemAction, ErrorCode>(RedeemAction::Complete) {
        redeemed_as_requested(before, step.1.position)
    } else {
        &&& step.1.position == before.position
        &&& step.1.config == before.config
        &&& step.1.request == before.request
        &&& redemption_under_way(step.1)
    }
}

/// Law: every redemption accounts for the interest on the debt, whether it
/// burns stablecoin or not: each step either completes with the debt with
/// interest up to the time of the request less the stablecoin burnt and the
/// collateral less what is withdrawn, or passes that debt and collateral on
/// to the next step.
pub proof fn lemma_redemption_accrues_interest(
    m: RedeemCollateral,
    stablecoin_to_burn: u64,
    collateral_to_withdraw: u64,
    now: i64,
    price: i64,
    exponent: i32,
)
    ensures
        redemption_step_keeps_account(
            RedeemCollateral {
                request: RedeemRequest { stablecoin_to_burn, collateral_to_withdraw, now },
                ..m
            },
            m.start_step(stablecoin_to_burn, collateral_to_withdraw, now),
        ),
        redemption_under_way(m) && m.stage is AwaitingBurn ==> redemption_step_keeps_account(
            m,
            m.burned_step(),
        ),
        redemption_under_way(m) && m.stage is AwaitingWithdrawal ==> redemption_step_keeps_account(
            m,
            m.withdrawn_step(),
        ),
        redemption_under_way(m) && m.stage is AwaitingPrice ==> redemption_step_keeps_account(
            m,
            m.priced_step(price, exponent),
        ),
{
}

/// Law: the work a redemption asks for. A requested burn comes first, for
/// exactly the amount requested, and only where the owner's balance covers
/// it; a requested withdrawal comes next, for exactly the amount requested,
/// and only where both the position and the vault hold that much; no step
/// skips either; after the withdrawal only the price check or completion
/// remains.
pub proof fn lemma_redemption_actions(
    m: RedeemCollateral,
    stablecoin_to_burn: u64,
    collateral_to_withdraw: u64,
    now: i64,
)
    ensures
        m.start_step(stablecoin_to_burn, collateral_to_withdraw, now).0 matches Ok(a) ==> {
            &&& stablecoin_to_burn > 0 ==> a == RedeemAction::BurnStablecoin {
                amount: stablecoin_to_burn,
            } && m.user_stablecoin_balance >= stablecoin_to_burn
            &&& stablecoin_to_burn == 0 && collateral_to_withdraw > 0 ==> a
                == RedeemAction::WithdrawCollateral { amount: collateral_to_withdraw }
                && m.position.deposited_collateral >= collateral_to_withdraw && m.vault_lamports
                >= collateral_to_withdraw
        },
        m.stage is AwaitingBurn ==> (m.burned_step().0 matches Ok(a) ==> {
            &&& m.request.collateral_to_withdraw > 0 ==> a == RedeemAction::WithdrawCollateral {
                amount: m.request.collateral_to_withdraw,
            } && m.position.deposited_collateral >= m.request.collateral_to_withdraw
                && m.vault_lamports >= m.request.collateral_to_withdraw
            &&& m.request.collateral_to_withdraw == 0 ==> a == RedeemAction::FetchPrice || a
                == RedeemAction::Complete
        }),
        m.stage is AwaitingWithdrawal ==> (m.withdrawn_step().0 matches Ok(a) ==> a
            == RedeemAction::FetchPrice || a == RedeemAction::Complete),
{
}

/// Law: a redemption that completes leaves either no debt, or a position
/// whose health factor, at the price read for the check, is at least the
/// configured minimum. Without a price step it completes only without debt.
pub proof fn lemma_redemption_leaves_healthy_position(
    m: RedeemCollateral,
    stablecoin_to_burn: u64,
    collateral_to_withdraw: u64,
    now: i64,
    price: i64,
    exponent: i32,
)
    ensures
        m.start_step(stablecoin_to_burn, collateral_to_withdraw, now).0 == Ok::<
            RedeemAction,
            ErrorCode,
        >(RedeemAction::Complete) ==> m.start_step(
            stablecoin_to_burn,
            collateral_to_withdraw,
            now,
        ).1.position.debt_shares == 0,
        m.stage is AwaitingBurn && m.burned_step().0 == Ok::<RedeemAction, ErrorCode>(
            RedeemAction::Complete,
        ) ==> m.burned_step().1.position.debt_shares == 0,
        m.stage is AwaitingWithdrawal && m.withdrawn_step().0 == Ok::<RedeemAction, ErrorCode>(
            RedeemAction::Complete,
        ) ==> m.withdrawn_step().1.position.debt_shares == 0,
        m.stage is AwaitingPrice && m.priced_step(price, exponent).0 is Ok ==> {
            let p = m.priced_step(price, exponent).1.position;
            collateral_value_result(p.deposited_collateral, price, exponent) matches Ok(value)
                && health_factor(value, p.debt_shares, m.config.liquidation_ltv_bps)
                >= m.config.min_health_factor_bps
        },
{
}

/// Law: a liquidation goes past the price step only for a position whose
/// loan-to-value ratio, with interest, has reached the liquidation LTV, and
/// then burns exactly that debt.
pub proof fn lemma_liquidation_needs_threshold(m: Liquidate, price: i64, exponent: i32)
    ensures
        m.priced_step(price, exponent).0 is Ok ==> {
            let stage = m.priced_step(price, exponent).1.stage;
            &&& stage is AwaitingBurn
            &&& collateral_value_result(m.position.deposited_collateral, price, exponent) matches Ok(
                value,
            ) && loan_to_value(stage->debt, value) >= m.config.liquidation_ltv_bps
            &&& m.priced_step(price, exponent).0 == Ok::<LiquidateAction, ErrorCode>(
                LiquidateAction::BurnStablecoin { amount: stage->debt },
            )
            &&& stage->seized + stage->remaining == m.position.deposited_collateral
        },
{
}

/// Law: the terms of a liquidation. It starts only for an active position,
/// with its recorded owner to receive the rest, and not while paused; and it
/// always starts then. Past the price step, the debt to burn is the
/// position's debt with interest up to the time of the liquidation, which the
/// liquidator holds; the position is at or beyond the liquidation LTV (its
/// debt in basis points of the collateral's value at the price reaches the
/// threshold); and the liquidator is to seize collateral worth the debt plus
/// the bonus at that price, rounded down, and at most all of it. A position
/// below the threshold is refused with `PositionNotLiquidatable`.
pub proof fn lemma_liquidation_terms(m: Liquidate, now: i64, price: i64, exponent: i32)
    ensures
        m.start_step(now).0 is Ok <==> m.position.active && m.position_owner == m.position.owner
            && !m.config.paused,
        m.start_step(now).0 is Ok ==> m.start_step(now).0 == Ok::<LiquidateAction, ErrorCode>(
            LiquidateAction::FetchPrice,
        ) && m.start_step(now).1.now == now && m.start_step(now).1.position == m.position,
        m.priced_step(price, exponent).0 matches Ok(action) ==> ({
            let stage = m.priced_step(price, exponent).1.stage;
            &&& accrue_interest_result(
                m.position.debt_shares,
                m.config.borrow_rate_bps,
                m.position.last_update_timestamp,
                m.now,
            ) == Ok::<u64, ErrorCode>(stage->debt)
            &&& action == LiquidateAction::BurnStablecoin { amount: stage->debt }
            &&& m.liquidator_stablecoin_balance >= stage->debt
            &&& collateral_value_result(m.position.deposited_collateral, price, exponent) matches Ok(
                v,
            ) && v > 0 && stage->debt * 10000 >= m.config.liquidation_ltv_bps * v
                && stage->seized == (if (stage->debt * (10000 + m.config.liquidation_bonus_bps)
                / 10000) * m.position.deposited_collateral / (v as int)
                < m.position.deposited_collateral {
                (stage->debt * (10000 + m.config.liquidation_bonus_bps) / 10000)
                    * m.position.deposited_collateral / (v as int)
            } else {
                m.position.deposited_collateral as int
            })
            &&& stage->seized + stage->remaining == m.position.deposited_collateral
            &&& m.priced_step(price, exponent).1.position == m.position
        }),
        accrue_interest_result(
            m.position.debt_shares,
            m.config.borrow_rate_bps,
            m.position.last_update_timestamp,
            m.now,
        ) matches Ok(d) && collateral_value_result(
            m.position.deposited_collateral,
            price,
            exponent,
        ) matches Ok(v) && v > 0 && d * 10000 < m.config.liquidation_ltv_bps * v
            ==> m.priced_step(price, exponent).0 == Err::<LiquidateAction, ErrorCode>(
            ErrorCode::PositionNotLiquidatable,
        ),
{
    if let Ok(d) = accrue_interest_result(
        m.position.debt_shares,
        m.config.borrow_rate_bps,
        m.position.last_update_timestamp,
        m.now,
    ) {
        if let Ok(v) = collateral_value_result(m.position.deposited_collateral, price, exponent) {
            lemma_ratios(v, d, m.config.liquidation_ltv_bps);
            lemma_liquidation_split(
                d,
                m.position.deposited_collateral,
                m.config.liquidation_bonus_bps,
                price,
                exponent,
            );
            if v > 0 {
                let l = loan_to_value(d, v);
                if l < u16::MAX {
                    if l >= m.config.liquidation_ltv_bps {
                        assert(d * 10000 >= m.config.liquidation_ltv_bps * v) by (nonlinear_arith)
                            requires
                                l * v <= d * 10000,
                                l >= m.config.liquidation_ltv_bps,
                                v > 0,
                        ;
                    } else {
                        assert(d * 10000 < m.config.liquidation_ltv_bps * v) by (nonlinear_arith)
                            requires
                                d * 10000 < (l + 1) * v,
                                l + 1 <= m.config.liquidation_ltv_bps,
                                v > 0,
                        ;
                    }
                } else {
                    assert(d * 10000 >= m.config.liquidation_ltv_bps * v) by (nonlinear_arith)
                        requires
                            d * 10000 >= u16::MAX * v,
                            m.config.liquidation_ltv_bps <= u16::MAX,
                            v > 0,
                    ;
                }
            }
        }
    }
}

/// Law: where the liquidator and the owner are different accounts, a
/// completed liquidation gives the liquidator exactly the seized collateral
/// and the owner exactly the rest, as far as the vault still holds it, and
/// the vault loses exactly those two amounts.
pub proof fn lemma_liquidation_payouts(m: Liquidate)
    requires
        m.stage is AwaitingBurn,
        m.liquidator != m.position_owner,
    ensures
        m.burned_step().0 is Ok ==> ({
            let m2 = m.burned_step().1;
            let seized = m.stage->seized;
            let returned = if m.stage->remaining < m.vault_lamports - seized {
                m.stage->remaining as int
            } else {
                m.vault_lamports - seized
            };
            &&& m.vault_lamports >= seized
            &&& m2.liquidator_lamports == m.liquidator_lamports + seized
            &&& m2.owner_lamports == m.owner_lamports + returned
            &&& m2.vault_lamports == m.vault_lamports - seized - returned
        }),
{
}

/// Law: when a redemption goes through, and why it is refused. It is refused
/// with `SystemPaused` while paused and with `InvalidAmount` where it asks for
/// nothing; otherwise each step goes on wherever the debt with interest can be
/// computed, the owner's balance covers the burn, the burn does not exceed the
/// debt, the position and the vault hold the withdrawal, and the health factor
/// of what remains, at the price read, reaches the minimum. A refusal with
/// `HealthFactorTooLow` means that health factor falls short.
pub proof fn lemma_redemption_goes_through(
    m: RedeemCollateral,
    stablecoin_to_burn: u64,
    collateral_to_withdraw: u64,
    now: i64,
    price: i64,
    exponent: i32,
)
    ensures
        m.config.paused ==> m.start_step(stablecoin_to_burn, collateral_to_withdraw, now).0
            == Err::<RedeemAction, ErrorCode>(ErrorCode::SystemPaused),
        !m.config.paused && stablecoin_to_burn == 0 && collateral_to_withdraw == 0
            ==> m.start_step(stablecoin_to_burn, collateral_to_withdraw, now).0 == Err::<
            RedeemAction,
            ErrorCode,
        >(ErrorCode::InvalidAmount),
        !m.config.paused && (stablecoin_to_burn > 0 || collateral_to_withdraw > 0)
            && accrue_interest_result(
            m.position.debt_shares,
            m.config.borrow_rate_bps,
            m.position.last_update_timestamp,
            now,
        ) is Ok && (stablecoin_to_burn > 0 ==> m.user_stablecoin_balance >= stablecoin_to_burn)
            && (stablecoin_to_burn == 0 ==> m.position.deposited_collateral
            >= collateral_to_withdraw && m.vault_lamports >= collateral_to_withdraw)
            ==> m.start_step(stablecoin_to_burn, collateral_to_withdraw, now).0 is Ok,
        m.stage matches RedeemStage::AwaitingBurn { debt } ==> (debt >= m.request.stablecoin_to_burn
            && (m.request.collateral_to_withdraw > 0 ==> m.position.deposited_collateral
            >= m.request.collateral_to_withdraw && m.vault_lamports
            >= m.request.collateral_to_withdraw) ==> m.burned_step().0 is Ok),
        m.stage is AwaitingWithdrawal && m.position.deposited_collateral
            >= m.request.collateral_to_withdraw ==> m.withdrawn_step().0 is Ok,
        m.stage matches RedeemStage::AwaitingPrice { debt, deposited } ==> (
        collateral_value_result(deposited, price, exponent) matches Ok(v) ==> (health_factor(
            v,
            debt,
            m.config.liquidation_ltv_bps,
        ) >= m.config.min_health_factor_bps <==> m.priced_step(price, exponent).0 is Ok)),
{
}

/// Law: when a liquidation goes through. Past its start, the price step goes
/// on wherever the debt with interest `d` and the collateral's value `v > 0`
/// can be computed, `d` in basis points of `v` reaches the liquidation LTV,
/// the split can be computed and the liquidator holds `d` in stablecoin; the
/// burn step then completes wherever the vault holds the seized collateral
/// and the balances fit a `u64`.
pub proof fn lemma_liquidation_goes_through(m: Liquidate, price: i64, exponent: i32)
    ensures
        accrue_interest_result(
            m.position.debt_shares,
            m.config.borrow_rate_bps,
            m.position.last_update_timestamp,
            m.now,
        ) matches Ok(d) ==> (collateral_value_result(
            m.position.deposited_collateral,
            price,
            exponent,
        ) matches Ok(v) ==> (v > 0 && d * 10000 >= m.config.liquidation_ltv_bps * v
            && m.config.liquidation_bonus_bps <= 2000 && m.liquidator_stablecoin_balance >= d && (d
            * (10000 + m.config.liquidation_bonus_bps) / 10000) * m.position.deposited_collateral
            / (v as int) <= u64::MAX ==> m.priced_step(price, exponent).0 is Ok)),
        m.stage matches LiquidateStage::AwaitingBurn { debt, seized, remaining } ==> (
        m.vault_lamports >= seized && m.liquidator_lamports + seized <= u64::MAX
            && m.owner_lamports + m.vault_lamports <= u64::MAX && m.liquidator_lamports
            + m.vault_lamports <= u64::MAX ==> m.burned_step().0 is Ok),
{
    if let Ok(d) = accrue_interest_result(
        m.position.debt_shares,
        m.config.borrow_rate_bps,
        m.position.last_update_timestamp,
        m.now,
    ) {
        if let Ok(v) = collateral_value_result(m.position.deposited_collateral, price, exponent) {
            lemma_ratios(v, d, m.config.liquidation_ltv_bps);
            lemma_liquidation_split(
                d,
                m.position.deposited_collateral,
                m.config.liquidation_bonus_bps,
                price,
                exponent,
            );
            if v > 0 && d * 10000 >= m.config.liquidation_ltv_bps * v {
                let l = loan_to_value(d, v);
                if l < u16::MAX {
                    assert(l >= m.config.liquidation_ltv_bps) by (nonlinear_arith)
                        requires
                            d * 10000 < (l + 1) * v,
                            d * 10000 >= m.config.liquidation_ltv_bps * v,
                            v > 0,
                    ;
                }
            }
        }
    }
}

/// Law: a completed liquidation clears the position and moves lamports only
/// among the vault, the liquidator and the owner: their total is unchanged,
/// the liquidator gains the seized collateral, and the vault loses it and
/// what it returns to the owner.
pub proof fn lemma_liquidation_conserves_lamports(m: Liquidate)
    requires
        m.stage is AwaitingBurn,
    ensures
        m.burned_step().0 is Ok ==> {
            let m2 = m.burned_step().1;
            &&& m2.total_lamports() == m.total_lamports()
            &&& m2.position.debt_shares == 0
            &&& m2.position.deposited_collateral == 0
            &&& !m2.position.active
            &&& !m.owner_is_liquidator() ==> m2.liquidator_lamports == m.liquidator_lamports
                + m.stage->seized
            &&& m2.vault_lamports <= m.vault_lamports - m.stage->seized
            &&& m2.position.last_update_timestamp == m.now
            &&& m2.position.owner == m.position.owner
            &&& m2.position.collateral_vault == m.position.collateral_vault
            &&& m2.position.bump == m.position.bump
            &&& m2.position.vault_bump == m.position.vault_bump
        },
{
}

/// Law: a refused step of any instruction changes no account: the machine
/// only goes back to its idle stage.
pub proof fn lemma_refusal_changes_nothing(
    r: RedeemCollateral,
    l: Liquidate,
    stablecoin_to_burn: u64,
    collateral_to_withdraw: u64,
    now: i64,
    price: i64,
    exponent: i32,
)
    ensures
        r.start_step(stablecoin_to_burn, collateral_to_withdraw, now).0 is Err ==> r.start_step(
            stablecoin_to_burn,
            collateral_to_withdraw,
            now,
        ).1.position == r.position,
        r.stage is AwaitingBurn && r.burned_step().0 is Err ==> r.burned_step().1.position
            == r.position,
        r.stage is AwaitingWithdrawal && r.withdrawn_step().0 is Err
            ==> r.withdrawn_step().1.position == r.position,
        r.stage is AwaitingPrice && r.priced_step(price, exponent).0 is Err ==> r.priced_step(
            price,
            exponent,
        ).1.position == r.position,
        l.start_step(now).0 is Err ==> l.start_step(now).1.position == l.position,
        l.priced_step(price, exponent).0 is Err ==> l.priced_step(price, exponent).1 == (Liquidate {
            stage: LiquidateStage::Idle,
            ..l
        }),
        l.stage is AwaitingBurn && l.burned_step().0 is Err ==> l.burned_step().1 == (Liquidate {
            stage: LiquidateStage::Idle,
            ..l
        }),
{
}


/// Law: a liquidation that goes through all its steps pays the rest of the
/// collateral only to the position's recorded owner, keeps the lamports of
/// the vault, the liquidator and the owner together unchanged, takes from the
/// vault no more than the collateral recorded in the position, and leaves the
/// position empty and inactive.
pub proof fn lemma_whole_liquidation(m: Liquidate, now: i64, price: i64, exponent: i32)
    ensures
        ({
            let s1 = m.start_step(now);
            let s2 = s1.1.priced_step(price, exponent);
            let s3 = s2.1.burned_step();
            s1.0 is Ok && s2.0 is Ok && s3.0 is Ok ==> {
                &&& m.position_owner == m.position.owner
                &&& s3.1.total_lamports() == m.total_lamports()
                &&& s3.1.vault_lamports >= m.vault_lamports - m.position.deposited_collateral
                &&& s3.1.position.debt_shares == 0
                &&& s3.1.position.deposited_collateral == 0
                &&& !s3.1.position.active
            }
        }),
{
    let s1 = m.start_step(now);
    let s2 = s1.1.priced_step(price, exponent);
    if s1.0 is Ok && s2.0 is Ok {
        lemma_liquidation_needs_threshold(s1.1, price, exponent);
        lemma_liquidation_conserves_lamports(s2.1);
    }
}

/// Law: withdrawing what a deposit without a mint has just added gives the
/// position back its collateral. Where a position without debt takes a
/// deposit of `a` lamports that mints nothing, a redemption that burns
/// nothing and withdraws `a`, from a vault holding at least `a`, asks for a
/// withdrawal of exactly `a` (the amount the deposit transferred in) and
/// completes, leaving the collateral as it was before the deposit and no
/// debt.
pub proof fn lemma_withdrawing_a_deposit_restores_the_position(
    accounts: DepositCollateral,
    request: DepositRequest,
    price: i64,
    exponent: i32,
    now: i64,
    m: RedeemCollateral,
    later: i64,
)
    requires
        accounts.position.debt_shares == 0,
        request.stablecoin_to_mint == 0,
        deposit_outcome(accounts, request, price, exponent, now) matches Ok(p) && m.position == p,
        m.config == accounts.config,
        m.vault_lamports >= request.collateral_amount,
    ensures
        ({
            let s1 = m.start_step(0, request.collateral_amount, later);
            let s2 = s1.1.withdrawn_step();
            &&& s1.0 == Ok::<RedeemAction, ErrorCode>(
                RedeemAction::WithdrawCollateral { amount: request.collateral_amount },
            )
            &&& s2.0 == Ok::<RedeemAction, ErrorCode>(RedeemAction::Complete)
            &&& s2.1.position.deposited_collateral == accounts.position.deposited_collateral
            &&& s2.1.position.debt_shares == 0
        }),
{
}

} // verus!

use stablecoin::error::ErrorCode;
use stablecoin::instructions::deposit_collateral::{
    DepositAction, DepositCollateral, DepositCollateralBumps, DepositRequest, DepositStage,
};
use stablecoin::instructions::liquidate::{Liquidate, LiquidateAction, LiquidateStage};
use stablecoin::instructions::redeem_collateral::{
    RedeemAction, RedeemCollateral, RedeemRequest, RedeemStage,
};
use stablecoin::state::{Config, Key, Position};

const YEAR: i64 = 31_557_600;

fn key(b: u8) -> Key {
    Key { bytes: [b; 32] }
}

fn config() -> Config {
    Config {
        authority: key(1),
        stablecoin_mint: key(2),
        max_ltv_bps: 5000,
        liquidation_ltv_bps: 8000,
        liquidation_bonus_bps: 1000,
        min_health_factor_bps: 10000,
        borrow_rate_bps: 1000,
        supply_cap: 1_000_000,
        treasury: key(3),
        paused: false,
        bump: 255,
        mint_authority_bump: 254,
    }
}

fn empty_position() -> Position {
    Position {
        owner: key(0),
        collateral_vault: key(0),
        deposited_collateral: 0,
        debt_shares: 0,
        last_update_timestamp: 0,
        active: false,
        bump: 0,
        vault_bump: 0,
    }
}

fn position(deposited: u64, debt: u64, at: i64) -> Position {
    Position {
        owner: key(7),
        collateral_vault: key(8),
        deposited_collateral: deposited,
        debt_shares: debt,
        last_update_timestamp: at,
        active: true,
        bump: 250,
        vault_bump: 249,
    }
}

const BUMPS: DepositCollateralBumps = DepositCollateralBumps { position: 250, collateral_vault: 249 };

fn depositor(config: Config, position: Position, mint_supply: u64) -> DepositCollateral {
    DepositCollateral {
        owner: key(7),
        config,
        position,
        collateral_vault: key(8),
        mint_supply,
        request: DepositRequest { collateral_amount: 0, stablecoin_to_mint: 0, bumps: BUMPS },
        stage: DepositStage::Idle,
    }
}

/// Runs a deposit through its steps at price `price * 10^exponent` and time `now`.
fn deposit(
    m: &mut DepositCollateral,
    amount: u64,
    mint: u64,
    price: i64,
    exponent: i32,
    now: i64,
) -> Result<(), ErrorCode> {
    assert_eq!(
        m.deposit_collateral_and_mint_tokens(amount, mint, BUMPS)?,
        DepositAction::TransferCollateral { amount }
    );
    assert_eq!(m.collateral_transferred(), DepositAction::FetchPrice);
    assert_eq!(m.price_fetched(price, exponent, now)?, DepositAction::MintStablecoin { amount: mint });
    assert_eq!(m.stablecoin_minted()?, DepositAction::Complete);
    Ok(())
}

#[test]
fn first_deposit_opens_the_position() {
    let mut m = depositor(config(), empty_position(), 0);
    assert_eq!(deposit(&mut m, 1000, 400, 1, 0, 100), Ok(()));
    assert_eq!(m.stage, DepositStage::Complete);
    let p = m.position;
    assert!(p.owner.same_as(&key(7)));
    assert!(p.collateral_vault.same_as(&key(8)));
    assert_eq!(p.deposited_collateral, 1000);
    assert_eq!(p.debt_shares, 400);
    assert_eq!(p.last_update_timestamp, 100);
    assert!(p.active);
    assert_eq!(p.bump, 250);
    assert_eq!(p.vault_bump, 249);
}

#[test]
fn second_deposit_accrues_interest_first() {
    // A debt of 100_000 at 10% for a year becomes 110_000 before the new mint.
    let mut m = depositor(config(), position(1_000_000, 100_000, 0), 100_000);
    assert_eq!(deposit(&mut m, 1000, 5000, 1, 0, YEAR), Ok(()));
    assert_eq!(m.position.debt_shares, 115_000);
    assert_eq!(m.position.deposited_collateral, 1_001_000);
    assert_eq!(m.position.last_update_timestamp, YEAR);
}

#[test]
fn deposit_refused_while_paused_or_empty() {
    let mut paused = config();
    paused.paused = true;
    let mut m = depositor(paused, empty_position(), 0);
    assert_eq!(m.deposit_collateral_and_mint_tokens(1000, 1, BUMPS), Err(ErrorCode::SystemPaused));
    assert_eq!(m.stage, DepositStage::Idle);
    let mut m = depositor(config(), empty_position(), 0);
    assert_eq!(m.deposit_collateral_and_mint_tokens(0, 1, BUMPS), Err(ErrorCode::InvalidAmount));
}

#[test]
fn deposit_refused_beyond_max_ltv() {
    let mut m = depositor(config(), empty_position(), 0);
    assert_eq!(deposit(&mut m, 1000, 501, 1, 0, 100), Err(ErrorCode::ExceedsMaxLtv));
    assert_eq!(m.stage, DepositStage::Idle);
    assert_eq!(m.position.deposited_collateral, 0);
    assert!(!m.position.active);
}

#[test]
fn deposit_refused_beyond_supply_cap() {
    let mut m = depositor(config(), empty_position(), 999_900);
    assert_eq!(deposit(&mut m, 1000, 101, 1, 0, 100), Err(ErrorCode::SupplyCapExceeded));
    let mut m = depositor(config(), empty_position(), 999_900);
    assert_eq!(deposit(&mut m, 1000, 100, 1, 0, 100), Ok(()));
}

#[test]
fn deposit_refused_below_min_health_factor() {
    // At a maximum LTV above the liquidation LTV (a configuration the checks
    // would refuse), the health factor catches the deposit.
    let mut c = config();
    c.max_ltv_bps = 9000;
    c.liquidation_ltv_bps = 8000;
    let mut m = depositor(c, empty_position(), 0);
    assert_eq!(deposit(&mut m, 1000, 900, 1, 0, 100), Err(ErrorCode::HealthFactorTooLow));
    assert_eq!(m.position.debt_shares, 0);
}

#[test]
fn deposit_refused_on_bad_price_or_overflow() {
    let mut m = depositor(config(), empty_position(), 0);
    assert_eq!(deposit(&mut m, 1000, 1, 0, 0, 100), Err(ErrorCode::InvalidPrice));
    let mut m = depositor(config(), position(u64::MAX, 0, 0), 0);
    assert_eq!(deposit(&mut m, 1, 0, 1, 0, 100), Err(ErrorCode::MathOverflow));
    let mut m = depositor(config(), position(1000, 10, 200), 0);
    assert_eq!(deposit(&mut m, 1, 0, 1, 0, i64::MIN), Err(ErrorCode::InvalidTimestamp));
}

fn redeemer(position: Position, balance: u64, vault: u64) -> RedeemCollateral {
    RedeemCollateral {
        config: config(),
        position,
        user_stablecoin_balance: balance,
        vault_lamports: vault,
        request: RedeemRequest { stablecoin_to_burn: 0, collateral_to_withdraw: 0, now: 0 },
        stage: RedeemStage::Idle,
    }
}

#[test]
fn full_repayment_closes_the_position() {
    let mut m = redeemer(position(1000, 400, 100), 400, 1000);
    assert_eq!(
        m.redeem_collateral_and_burn_tokens(400, 1000, 100),
        Ok(RedeemAction::BurnStablecoin { amount: 400 })
    );
    assert_eq!(m.stablecoin_burned(), Ok(RedeemAction::WithdrawCollateral { amount: 1000 }));
    assert_eq!(m.collateral_withdrawn(), Ok(RedeemAction::Complete));
    assert_eq!(m.position.debt_shares, 0);
    assert_eq!(m.position.deposited_collateral, 0);
    assert!(!m.position.active);
}

#[test]
fn partial_withdrawal_checks_health_at_the_price() {
    let mut m = redeemer(position(1000, 400, 100), 0, 1000);
    assert_eq!(
        m.redeem_collateral_and_burn_tokens(0, 400, 100),
        Ok(RedeemAction::WithdrawCollateral { amount: 400 })
    );
    assert_eq!(m.collateral_withdrawn(), Ok(RedeemAction::FetchPrice));
    // 600 collateral at 8000 bps against 400 debt: health 12000.
    assert_eq!(m.price_fetched(1, 0), Ok(RedeemAction::Complete));
    assert_eq!(m.position.deposited_collateral, 600);
    assert_eq!(m.position.debt_shares, 400);
    assert!(m.position.active);

    let mut m = redeemer(position(1000, 400, 100), 0, 1000);
    m.redeem_collateral_and_burn_tokens(0, 600, 100).unwrap();
    m.collateral_withdrawn().unwrap();
    // 400 collateral against 400 debt: health 8000, below 10000.
    assert_eq!(m.price_fetched(1, 0), Err(ErrorCode::HealthFactorTooLow));
    assert_eq!(m.position.deposited_collateral, 1000);
    assert_eq!(m.stage, RedeemStage::Idle);
}

#[test]
fn repaying_part_of_the_debt_with_interest() {
    // 100_000 owed for a year at 10% is 110_000; burning 10_000 leaves 100_000.
    let mut m = redeemer(position(1_000_000, 100_000, 0), 50_000, 1_000_000);
    assert_eq!(
        m.redeem_collateral_and_burn_tokens(10_000, 0, YEAR),
        Ok(RedeemAction::BurnStablecoin { amount: 10_000 })
    );
    assert_eq!(m.stablecoin_burned(), Ok(RedeemAction::FetchPrice));
    assert_eq!(m.price_fetched(1, 0), Ok(RedeemAction::Complete));
    assert_eq!(m.position.debt_shares, 100_000);
    assert_eq!(m.position.last_update_timestamp, YEAR);
}

#[test]
fn redemption_errors() {
    let mut m = redeemer(position(1000, 400, 100), 400, 1000);
    assert_eq!(m.redeem_collateral_and_burn_tokens(0, 0, 100), Err(ErrorCode::InvalidAmount));
    let mut m = redeemer(position(1000, 400, 100), 399, 1000);
    assert_eq!(m.redeem_collateral_and_burn_tokens(400, 0, 100), Err(ErrorCode::InsufficientBalance));
    let mut m = redeemer(position(1000, 400, 100), 500, 1000);
    m.redeem_collateral_and_burn_tokens(500, 0, 100).unwrap();
    // Burning more than the debt.
    assert_eq!(m.stablecoin_burned(), Err(ErrorCode::MathOverflow));
    let mut m = redeemer(position(1000, 0, 100), 0, 1000);
    assert_eq!(m.redeem_collateral_and_burn_tokens(0, 1001, 100), Err(ErrorCode::InsufficientCollateral));
    let mut m = redeemer(position(1000, 0, 100), 0, 999);
    assert_eq!(m.redeem_collateral_and_burn_tokens(0, 1000, 100), Err(ErrorCode::InsufficientCollateral));
    let mut m = redeemer(position(1000, 0, 100), 0, 1000);
    m.config.paused = true;
    assert_eq!(m.redeem_collateral_and_burn_tokens(0, 10, 100), Err(ErrorCode::SystemPaused));
    let mut m = redeemer(position(1000, 10, 100), 0, 1000);
    assert_eq!(m.redeem_collateral_and_burn_tokens(0, 10, i64::MIN), Err(ErrorCode::InvalidTimestamp));
    let mut m = redeemer(position(1000, 10, 100), 0, 1000);
    assert_eq!(m.redeem_collateral_and_burn_tokens(0, 10, 99), Err(ErrorCode::InvalidTimestamp));
    let mut m = redeemer(position(1000, 10, 100), 0, 1000);
    m.redeem_collateral_and_burn_tokens(0, 10, 100).unwrap();
    m.collateral_withdrawn().unwrap();
    assert_eq!(m.price_fetched(-1, 0), Err(ErrorCode::InvalidPrice));
    assert_eq!(m.position.deposited_collateral, 1000);
}

fn liquidation(position: Position, balance: u64, vault: u64, liquidator: Key) -> Liquidate {
    Liquidate {
        liquidator,
        config: config(),
        position,
        position_owner: key(7),
        liquidator_stablecoin_balance: balance,
        vault_lamports: vault,
        liquidator_lamports: 5_000,
        owner_lamports: 7_000,
        now: 0,
        stage: LiquidateStage::Idle,
    }
}

#[test]
fn liquidation_pays_the_liquidator_and_returns_the_rest() {
    // Debt 850 on collateral worth 1000: LTV 8500 reaches 8000.
    let mut m = liquidation(position(1000, 850, 100), 850, 1000, key(9));
    let total = m.vault_lamports + m.liquidator_lamports + m.owner_lamports;
    assert_eq!(m.liquidate(100), Ok(LiquidateAction::FetchPrice));
    assert_eq!(m.price_fetched(1, 0), Ok(LiquidateAction::BurnStablecoin { amount: 850 }));
    // 850 plus 10% is 935 seized; 65 returned.
    assert_eq!(m.stage, LiquidateStage::AwaitingBurn { debt: 850, seized: 935, remaining: 65 });
    assert_eq!(m.stablecoin_burned(), Ok(LiquidateAction::Complete));
    assert_eq!(m.vault_lamports, 0);
    assert_eq!(m.liquidator_lamports, 5_935);
    assert_eq!(m.owner_lamports, 7_065);
    assert_eq!(m.vault_lamports + m.liquidator_lamports + m.owner_lamports, total);
    assert_eq!(m.position.debt_shares, 0);
    assert_eq!(m.position.deposited_collateral, 0);
    assert!(!m.position.active);
    assert_eq!(m.position.last_update_timestamp, 100);
}

#[test]
fn liquidation_of_the_owner_by_the_owner() {
    let mut m = liquidation(position(1000, 850, 100), 850, 1000, key(7));
    m.owner_lamports = m.liquidator_lamports;
    let total = m.vault_lamports + m.liquidator_lamports;
    m.liquidate(100).unwrap();
    m.price_fetched(1, 0).unwrap();
    assert_eq!(m.stablecoin_burned(), Ok(LiquidateAction::Complete));
    assert_eq!(m.liquidator_lamports, 6_000);
    assert_eq!(m.owner_lamports, 6_000);
    assert_eq!(m.vault_lamports + m.liquidator_lamports, total);
}

#[test]
fn liquidation_returns_only_what_the_vault_holds() {
    let mut m = liquidation(position(1000, 850, 100), 850, 950, key(9));
    m.liquidate(100).unwrap();
    m.price_fetched(1, 0).unwrap();
    assert_eq!(m.stablecoin_burned(), Ok(LiquidateAction::Complete));
    assert_eq!(m.vault_lamports, 0);
    assert_eq!(m.liquidator_lamports, 5_935);
    assert_eq!(m.owner_lamports, 7_015);
}

#[test]
fn healthy_position_is_not_liquidatable() {
    let mut m = liquidation(position(1000, 799, 100), 10_000, 1000, key(9));
    m.liquidate(100).unwrap();
    assert_eq!(m.price_fetched(1, 0), Err(ErrorCode::PositionNotLiquidatable));
    assert_eq!(m.stage, LiquidateStage::Idle);
    assert_eq!(m.position.debt_shares, 799);
    // A year of interest at 10% takes the same debt past the threshold.
    let mut m = liquidation(position(1000, 799, 0), 10_000, 1000, key(9));
    m.liquidate(YEAR).unwrap();
    assert_eq!(m.price_fetched(1, 0), Ok(LiquidateAction::BurnStablecoin { amount: 878 }));
}

#[test]
fn fresh_deposit_cannot_be_liquidated_at_its_price() {
    let mut d = depositor(config(), empty_position(), 0);
    deposit(&mut d, 1000, 500, 1, 0, 100).unwrap();
    let mut m = liquidation(d.position, 10_000, 1000, key(9));
    m.liquidate(100).unwrap();
    assert_eq!(m.price_fetched(1, 0), Err(ErrorCode::PositionNotLiquidatable));
}

#[test]
fn liquidation_errors() {
    let mut inactive = position(1000, 850, 100);
    inactive.active = false;
    let mut m = liquidation(inactive, 850, 1000, key(9));
    assert_eq!(m.liquidate(100), Err(ErrorCode::PositionNotActive));
    let mut m = liquidation(position(1000, 850, 100), 850, 1000, key(9));
    m.config.paused = true;
    assert_eq!(m.liquidate(100), Err(ErrorCode::SystemPaused));
    let mut m = liquidation(position(1000, 850, 100), 849, 1000, key(9));
    m.liquidate(100).unwrap();
    assert_eq!(m.price_fetched(1, 0), Err(ErrorCode::InsufficientBalance));
    let mut m = liquidation(position(1000, 850, 100), 850, 900, key(9));
    m.liquidate(100).unwrap();
    m.price_fetched(1, 0).unwrap();
    assert_eq!(m.stablecoin_burned(), Err(ErrorCode::InsufficientCollateral));
    assert_eq!(m.vault_lamports, 900);
    assert_eq!(m.position.debt_shares, 850);
    let mut m = liquidation(position(1000, 850, 100), 850, 1000, key(9));
    m.liquidator_lamports = u64::MAX;
    m.liquidate(100).unwrap();
    m.price_fetched(1, 0).unwrap();
    assert_eq!(m.stablecoin_burned(), Err(ErrorCode::MathOverflow));
    let mut m = liquidation(position(1000, 850, 100), 850, 1000, key(9));
    m.owner_lamports = u64::MAX;
    m.liquidate(100).unwrap();
    m.price_fetched(1, 0).unwrap();
    assert_eq!(m.stablecoin_burned(), Err(ErrorCode::MathOverflow));
    let mut m = liquidation(position(1000, 850, 100), 850, 1000, key(9));
    m.liquidate(100).unwrap();
    assert_eq!(m.price_fetched(0, 0), Err(ErrorCode::InvalidPrice));
    let mut m = liquidation(position(1000, 850, 100), 850, 1000, key(9));
    m.liquidate(100).unwrap();
    assert_eq!(m.price_fetched(-3, 60), Err(ErrorCode::InvalidPrice));
}

#[test]
fn liquidation_refuses_another_owner_account() {
    // The rest of the collateral may only go to the position's recorded owner.
    let mut m = liquidation(position(1000, 850, 100), 850, 1000, key(9));
    m.position_owner = key(9);
    assert_eq!(m.liquidate(100), Err(ErrorCode::Unauthorized));
    assert_eq!(m.stage, LiquidateStage::Idle);
    let mut m = liquidation(position(1000, 850, 100), 850, 1000, key(9));
    m.position_owner = key(6);
    assert_eq!(m.liquidate(100), Err(ErrorCode::Unauthorized));
}

#[test]
fn withdrawing_a_deposit_restores_the_position() {
    let before = position(300, 0, 0);
    let mut d = depositor(config(), before, 0);
    deposit(&mut d, 1000, 0, 1, 0, 100).unwrap();
    assert_eq!(d.position.deposited_collateral, 1300);
    let mut m = redeemer(d.position, 0, 1300);
    assert_eq!(
        m.redeem_collateral_and_burn_tokens(0, 1000, 5_000),
        Ok(RedeemAction::WithdrawCollateral { amount: 1000 })
    );
    assert_eq!(m.collateral_withdrawn(), Ok(RedeemAction::Complete));
    assert_eq!(m.position.deposited_collateral, before.deposited_collateral);
    assert_eq!(m.position.debt_shares, 0);
}

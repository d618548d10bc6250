use stablecoin::error::ErrorCode;
use stablecoin::instructions::initialize_config::{InitializeConfig, InitializeConfigBumps};
use stablecoin::instructions::update_config::UpdateConfig;
use stablecoin::state::{Config, Key};

fn key(b: u8) -> Key {
    Key { bytes: [b; 32] }
}

fn empty_config() -> Config {
    Config {
        authority: key(0),
        stablecoin_mint: key(0),
        max_ltv_bps: 0,
        liquidation_ltv_bps: 0,
        liquidation_bonus_bps: 0,
        min_health_factor_bps: 0,
        borrow_rate_bps: 0,
        supply_cap: 0,
        treasury: key(0),
        paused: false,
        bump: 0,
        mint_authority_bump: 0,
    }
}

fn accounts() -> InitializeConfig {
    InitializeConfig {
        authority: key(1),
        mint_account: key(2),
        treasury: key(3),
        config: empty_config(),
    }
}

const BUMPS: InitializeConfigBumps = InitializeConfigBumps { config: 254, mint_authority: 253 };

fn init(max: u16, liq: u16, bonus: u16, health: u16, rate: u16, cap: u64) -> Result<(), ErrorCode> {
    let mut a = accounts();
    let r = a.initialize_config(max, liq, bonus, health, rate, cap, BUMPS);
    if r.is_err() {
        assert_eq!(a.config.supply_cap, 0);
        assert_eq!(a.config.max_ltv_bps, 0);
    }
    r
}

fn valid_config() -> Config {
    let mut a = accounts();
    a.initialize_config(5000, 8000, 500, 12000, 1000, 1_000_000, BUMPS).unwrap();
    a.config
}

#[test]
fn initialize_writes_the_configuration() {
    let c = valid_config();
    assert!(c.authority.same_as(&key(1)));
    assert!(c.stablecoin_mint.same_as(&key(2)));
    assert!(c.treasury.same_as(&key(3)));
    assert_eq!(c.max_ltv_bps, 5000);
    assert_eq!(c.liquidation_ltv_bps, 8000);
    assert_eq!(c.liquidation_bonus_bps, 500);
    assert_eq!(c.min_health_factor_bps, 12000);
    assert_eq!(c.borrow_rate_bps, 1000);
    assert_eq!(c.supply_cap, 1_000_000);
    assert!(!c.paused);
    assert_eq!(c.bump, 254);
    assert_eq!(c.mint_authority_bump, 253);
}

#[test]
fn initialize_accepts_the_limits() {
    assert_eq!(init(9999, 10000, 2000, 10000, 5000, 1), Ok(()));
    assert_eq!(init(1, 2, 0, 20000, 0, u64::MAX), Ok(()));
}

#[test]
fn initialize_refuses_each_bad_parameter() {
    assert_eq!(init(0, 8000, 500, 12000, 1000, 1), Err(ErrorCode::InvalidBps));
    assert_eq!(init(10001, 8000, 500, 12000, 1000, 1), Err(ErrorCode::InvalidBps));
    assert_eq!(init(5000, 0, 500, 12000, 1000, 1), Err(ErrorCode::InvalidBps));
    assert_eq!(init(5000, 10001, 500, 12000, 1000, 1), Err(ErrorCode::InvalidBps));
    assert_eq!(
        init(8000, 8000, 500, 12000, 1000, 1),
        Err(ErrorCode::LiquidationLtvMustBeGreaterThanMaxLtv)
    );
    assert_eq!(init(5000, 8000, 2001, 12000, 1000, 1), Err(ErrorCode::LiquidationBonusTooHigh));
    assert_eq!(init(5000, 8000, 500, 9999, 1000, 1), Err(ErrorCode::MinHealthFactorTooLow));
    assert_eq!(init(5000, 8000, 500, 20001, 1000, 1), Err(ErrorCode::MinHealthFactorTooHigh));
    assert_eq!(init(5000, 8000, 500, 12000, 5001, 1), Err(ErrorCode::BorrowRateTooHigh));
    assert_eq!(init(5000, 8000, 500, 12000, 1000, 0), Err(ErrorCode::InvalidSupplyCap));
}

#[test]
fn initialize_reports_the_first_failed_check() {
    assert_eq!(init(0, 0, 9999, 0, 9999, 0), Err(ErrorCode::InvalidBps));
    assert_eq!(init(5000, 4000, 9999, 0, 9999, 0), Err(ErrorCode::LiquidationLtvMustBeGreaterThanMaxLtv));
    assert_eq!(init(5000, 8000, 500, 0, 9999, 0), Err(ErrorCode::MinHealthFactorTooLow));
}

fn update(
    signer: Key,
    config: Config,
    max: Option<u16>,
    liq: Option<u16>,
    bonus: Option<u16>,
    health: Option<u16>,
    rate: Option<u16>,
    cap: Option<u64>,
    paused: Option<bool>,
) -> (Result<(), ErrorCode>, Config) {
    let mut a = UpdateConfig { authority: signer, config };
    let r = a.update_config(max, liq, bonus, health, rate, cap, paused);
    (r, a.config)
}

fn same(a: &Config, b: &Config) -> bool {
    a.max_ltv_bps == b.max_ltv_bps
        && a.liquidation_ltv_bps == b.liquidation_ltv_bps
        && a.liquidation_bonus_bps == b.liquidation_bonus_bps
        && a.min_health_factor_bps == b.min_health_factor_bps
        && a.borrow_rate_bps == b.borrow_rate_bps
        && a.supply_cap == b.supply_cap
        && a.paused == b.paused
}

#[test]
fn update_refuses_anyone_but_the_authority() {
    let c = valid_config();
    let (r, after) = update(key(9), c, Some(6000), None, None, None, None, None, Some(true));
    assert_eq!(r, Err(ErrorCode::Unauthorized));
    assert!(same(&after, &c));
}

#[test]
fn update_sets_every_given_field() {
    let c = valid_config();
    let (r, after) = update(
        key(1),
        c,
        Some(6000),
        Some(9000),
        Some(1000),
        Some(15000),
        Some(2500),
        Some(0),
        Some(true),
    );
    assert_eq!(r, Ok(()));
    assert_eq!(after.max_ltv_bps, 6000);
    assert_eq!(after.liquidation_ltv_bps, 9000);
    assert_eq!(after.liquidation_bonus_bps, 1000);
    assert_eq!(after.min_health_factor_bps, 15000);
    assert_eq!(after.borrow_rate_bps, 2500);
    assert_eq!(after.supply_cap, 0);
    assert!(after.paused);
}

#[test]
fn update_with_nothing_changes_nothing() {
    let c = valid_config();
    let (r, after) = update(key(1), c, None, None, None, None, None, None, None);
    assert_eq!(r, Ok(()));
    assert!(same(&after, &c));
}

#[test]
fn update_checks_max_ltv_against_the_old_liquidation_ltv() {
    // The maximum is checked before the new liquidation LTV is set.
    let c = valid_config();
    let (r, after) = update(key(1), c, Some(8500), Some(9000), None, None, None, None, None);
    assert_eq!(r, Err(ErrorCode::MaxLtvMustBeLessThanLiquidationLtv));
    assert!(same(&after, &c));
}

#[test]
fn update_checks_liquidation_ltv_against_the_new_max_ltv() {
    let c = valid_config();
    let (r, after) = update(key(1), c, Some(7000), Some(6000), None, None, None, None, None);
    assert_eq!(r, Err(ErrorCode::LiquidationLtvMustBeGreaterThanMaxLtv));
    assert!(same(&after, &c));
    let (r, after) = update(key(1), c, Some(7000), Some(7500), None, None, None, None, None);
    assert_eq!(r, Ok(()));
    assert_eq!(after.max_ltv_bps, 7000);
    assert_eq!(after.liquidation_ltv_bps, 7500);
}

#[test]
fn update_refuses_each_bad_field_and_changes_nothing() {
    let c = valid_config();
    let cases: [(Option<u16>, Option<u16>, Option<u16>, Option<u16>, Option<u16>, ErrorCode); 9] = [
        (Some(0), None, None, None, None, ErrorCode::InvalidBps),
        (Some(10001), None, None, None, None, ErrorCode::InvalidBps),
        (None, Some(0), None, None, None, ErrorCode::InvalidBps),
        (None, Some(10001), None, None, None, ErrorCode::InvalidBps),
        (None, Some(5000), None, None, None, ErrorCode::LiquidationLtvMustBeGreaterThanMaxLtv),
        (None, None, Some(2001), None, None, ErrorCode::LiquidationBonusTooHigh),
        (None, None, None, Some(9999), None, ErrorCode::MinHealthFactorTooLow),
        (None, None, None, Some(20001), None, ErrorCode::MinHealthFactorTooHigh),
        (None, None, None, None, Some(5001), ErrorCode::BorrowRateTooHigh),
    ];
    for (max, liq, bonus, health, rate, e) in cases {
        let (r, after) = update(key(1), c, max, liq, bonus, health, rate, Some(5), Some(true));
        assert_eq!(r, Err(e));
        assert!(same(&after, &c));
    }
    let (r, _) = update(key(1), c, Some(8000), None, None, None, None, None, None);
    assert_eq!(r, Err(ErrorCode::MaxLtvMustBeLessThanLiquidationLtv));
}

#[test]
fn accepted_updates_keep_max_ltv_below_liquidation_ltv() {
    let mut c = valid_config();
    let steps: [(Option<u16>, Option<u16>); 6] = [
        (Some(7999), None),
        (None, Some(9000)),
        (Some(8999), Some(10000)),
        (Some(1), Some(2)),
        (None, Some(1)),
        (Some(3), None),
    ];
    for (max, liq) in steps {
        let (_, after) = update(key(1), c, max, liq, None, None, None, None, None);
        assert!(after.max_ltv_bps > 0);
        assert!(after.max_ltv_bps < after.liquidation_ltv_bps);
        assert!(after.liquidation_ltv_bps <= 10000);
        c = after;
    }
}

#[test]
fn same_as_compares_every_byte() {
    let mut a = key(4);
    assert!(a.same_as(&key(4)));
    a.bytes[31] = 5;
    assert!(!a.same_as(&key(4)));
    a.bytes[31] = 4;
    a.bytes[0] = 0;
    assert!(!a.same_as(&key(4)));
}

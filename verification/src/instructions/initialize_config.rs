//! Creating the configuration.
use vstd::prelude::*;

use crate::error::ErrorCode;
use crate::state::{Config, Key};

verus! {

/// The bump seeds of the configuration account and of the mint authority.
#[derive(Debug, Clone, Copy)]
pub struct InitializeConfigBumps {
    pub config: u8,
    pub mint_authority: u8,
}

/// The accounts of the instruction that creates the configuration: the
/// signing authority, the stablecoin mint, the treasury, and the new (still
/// empty) configuration account.
#[derive(Debug, Clone, Copy)]
pub struct InitializeConfig {
    pub authority: Key,
    pub mint_account: Key,
    pub treasury: Key,
    pub config: Config,
}

/// The checks on the risk parameters of a new configuration, in the order in
/// which the instruction makes them.
pub open spec fn initialize_check(
    max_ltv_bps: u16,
    liquidation_ltv_bps: u16,
    liquidation_bonus_bps: u16,
    min_health_factor_bps: u16,
    borrow_rate_bps: u16,
    supply_cap: u64,
) -> Result<(), ErrorCode> {
    if !(0 < max_ltv_bps <= 10000) {
        Err(ErrorCode::InvalidBps)
    } else if !(0 < liquidation_ltv_bps <= 10000) {
        Err(ErrorCode::InvalidBps)
    } else if liquidation_ltv_bps <= max_ltv_bps {
        Err(ErrorCode::LiquidationLtvMustBeGreaterThanMaxLtv)
    } else if liquidation_bonus_bps > 2000 {
        Err(ErrorCode::LiquidationBonusTooHigh)
    } else if min_health_factor_bps < 10000 {
        Err(ErrorCode::MinHealthFactorTooLow)
    } else if min_health_factor_bps > 20000 {
        Err(ErrorCode::MinHealthFactorTooHigh)
    } else if borrow_rate_bps > 5000 {
        Err(ErrorCode::BorrowRateTooHigh)
    } else if supply_cap == 0 {
        Err(ErrorCode::InvalidSupplyCap)
    } else {
        Ok(())
    }
}

impl InitializeConfig {
    /// The configuration that the instruction writes: the given parameters,
    /// the three accounts' addresses, not paused.
    pub open spec fn new_config(
        self,
        max_ltv_bps: u16,
        liquidation_ltv_bps: u16,
        liquidation_bonus_bps: u16,
        min_health_factor_bps: u16,
        borrow_rate_bps: u16,
        supply_cap: u64,
        bumps: InitializeConfigBumps,
    ) -> Config {
        Config {
            authority: self.authority,
            stablecoin_mint: self.mint_account,
            max_ltv_bps,
            liquidation_ltv_bps,
            liquidation_bonus_bps,
            min_health_factor_bps,
            borrow_rate_bps,
            supply_cap,
            treasury: self.treasury,
            paused: false,
            bump: bumps.config,
            mint_authority_bump: bumps.mint_authority,
        }
    }

    /// Checks the risk parameters and, where they pass, fills the
    /// configuration account. A refused request changes nothing.
    pub fn initialize_config(
        &mut self,
        max_ltv_bps: u16,
        liquidation_ltv_bps: u16,
        liquidation_bonus_bps: u16,
        min_health_factor_bps: u16,
        borrow_rate_bps: u16,
        supply_cap: u64,
        bumps: InitializeConfigBumps,
    ) -> (r: Result<(), ErrorCode>)
        ensures
            r == initialize_check(
                max_ltv_bps,
                liquidation_ltv_bps,
                liquidation_bonus_bps,
                min_health_factor_bps,
                borrow_rate_bps,
                supply_cap,
            ),
            r is Ok ==> final(self).config == old(self).new_config(
                max_ltv_bps,
                liquidation_ltv_bps,
                liquidation_bonus_bps,
                min_health_factor_bps,
                borrow_rate_bps,
                supply_cap,
                bumps,
            ),
            r is Ok ==> final(self).config.well_formed() && final(self).config.supply_cap > 0,
            r is Err ==> final(self).config == old(self).config,
            r is Ok <==> {
                &&& 0 < max_ltv_bps < liquidation_ltv_bps <= 10000
                &&& liquidation_bonus_bps <= 2000
                &&& 10000 <= min_health_factor_bps <= 20000
                &&& borrow_rate_bps <= 5000
                &&& supply_cap > 0
            },
            r is Ok ==> {
                let c = final(self).config;
                &&& c.authority == old(self).authority
                &&& c.stablecoin_mint == old(self).mint_account
                &&& c.treasury == old(self).treasury
                &&& c.max_ltv_bps == max_ltv_bps
                &&& c.liquidation_ltv_bps == liquidation_ltv_bps
                &&& c.liquidation_bonus_bps == liquidation_bonus_bps
                &&& c.min_health_factor_bps == min_health_factor_bps
                &&& c.borrow_rate_bps == borrow_rate_bps
                &&& c.supply_cap == supply_cap
                &&& !c.paused
                &&& c.bump == bumps.config
                &&& c.mint_authority_bump == bumps.mint_authority
            },
            final(self).authority == old(self).authority,
            final(self).mint_account == old(self).mint_account,
            final(self).treasury == old(self).treasury,
    {
        if !(max_ltv_bps > 0 && max_ltv_bps <= 10000) {
            return Err(ErrorCode::InvalidBps);
        }
        if !(liquidation_ltv_bps > 0 && liquidation_ltv_bps <= 10000) {
            return Err(ErrorCode::InvalidBps);
        }
        if !(liquidation_ltv_bps > max_ltv_bps) {
            return Err(ErrorCode::LiquidationLtvMustBeGreaterThanMaxLtv);
        }
        if !(liquidation_bonus_bps <= 2000) {
            return Err(ErrorCode::LiquidationBonusTooHigh);
        }
        if !(min_health_factor_bps >= 10000) {
            return Err(ErrorCode::MinHealthFactorTooLow);
        }
        if !(min_health_factor_bps <= 20000) {
            return Err(ErrorCode::MinHealthFactorTooHigh);
        }
        if !(borrow_rate_bps <= 5000) {
            return Err(ErrorCode::BorrowRateTooHigh);
        }
        if !(supply_cap > 0) {
            return Err(ErrorCode::InvalidSupplyCap);
        }
        self.config = Config {
            authority: self.authority,
            stablecoin_mint: self.mint_account,
            max_ltv_bps,
            liquidation_ltv_bps,
            liquidation_bonus_bps,
            min_health_factor_bps,
            borrow_rate_bps,
            supply_cap,
            treasury: self.treasury,
            paused: false,
            bump: bumps.config,
            mint_authority_bump: bumps.mint_authority,
        };
        Ok(())
    }
}

} // verus!

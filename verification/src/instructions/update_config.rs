//! Changing the configuration.
use vstd::prelude::*;

use crate::error::ErrorCode;
use crate::state::{Config, Key};

verus! {

/// The accounts of the instruction that changes the configuration: the
/// signer and the configuration account.
#[derive(Debug, Clone, Copy)]
pub struct UpdateConfig {
    pub authority: Key,
    pub config: Config,
}

/// Whether `after` is what an optional new value makes of `before`: the new
/// value where one is given, else `before`.
pub open spec fn takes<T>(given: Option<T>, before: T, after: T) -> bool {
    match given {
        Some(x) => after == x,
        None => after == before,
    }
}

/// Whether an update by the configuration's authority is to be accepted:
/// every given field within its bounds, a new maximum LTV below the
/// liquidation LTV held before the update, and a new liquidation LTV above
/// the maximum LTV in force after it. Supply cap and pause flag take any
/// value.
pub open spec fn update_is_valid(
    c: Config,
    max_ltv_bps: Option<u16>,
    liquidation_ltv_bps: Option<u16>,
    liquidation_bonus_bps: Option<u16>,
    min_health_factor_bps: Option<u16>,
    borrow_rate_bps: Option<u16>,
) -> bool {
    let max_after = match max_ltv_bps {
        Some(m) => m,
        None => c.max_ltv_bps,
    };
    &&& max_ltv_bps matches Some(m) ==> 0 < m <= 10000 && m < c.liquidation_ltv_bps
    &&& liquidation_ltv_bps matches Some(l) ==> 0 < l <= 10000 && l > max_after
    &&& liquidation_bonus_bps matches Some(b) ==> b <= 2000
    &&& min_health_factor_bps matches Some(h) ==> 10000 <= h <= 20000
    &&& borrow_rate_bps matches Some(r) ==> r <= 5000
}

/// Sets the maximum LTV where one is given: it must lie in `1..=10000` and
/// below the liquidation LTV that the configuration holds at that point.
pub open spec fn with_max_ltv(c: Config, max_ltv_bps: Option<u16>) -> Result<Config, ErrorCode> {
    match max_ltv_bps {
        None => Ok(c),
        Some(m) => if !(0 < m <= 10000) {
            Err(ErrorCode::InvalidBps)
        } else if m >= c.liquidation_ltv_bps {
            Err(ErrorCode::MaxLtvMustBeLessThanLiquidationLtv)
        } else {
            Ok(Config { max_ltv_bps: m, ..c })
        },
    }
}

/// Sets the liquidation LTV where one is given: it must lie in `1..=10000`
/// and above the maximum LTV that the configuration holds at that point.
pub open spec fn with_liquidation_ltv(c: Config, liquidation_ltv_bps: Option<u16>) -> Result<
    Config,
    ErrorCode,
> {
    match liquidation_ltv_bps {
        None => Ok(c),
        Some(l) => if !(0 < l <= 10000) {
            Err(ErrorCode::InvalidBps)
        } else if l <= c.max_ltv_bps {
            Err(ErrorCode::LiquidationLtvMustBeGreaterThanMaxLtv)
        } else {
            Ok(Config { liquidation_ltv_bps: l, ..c })
        },
    }
}

/// Sets the liquidation bonus where one is given: at most 20%.
pub open spec fn with_liquidation_bonus(c: Config, liquidation_bonus_bps: Option<u16>) -> Result<
    Config,
    ErrorCode,
> {
    match liquidation_bonus_bps {
        None => Ok(c),
        Some(b) => if b > 2000 {
            Err(ErrorCode::LiquidationBonusTooHigh)
        } else {
            Ok(Config { liquidation_bonus_bps: b, ..c })
        },
    }
}

/// Sets the minimum health factor where one is given: from 100% to 200%.
pub open spec fn with_min_health_factor(c: Config, min_health_factor_bps: Option<u16>) -> Result<
    Config,
    ErrorCode,
> {
    match min_health_factor_bps {
        None => Ok(c),
        Some(h) => if h < 10000 {
            Err(ErrorCode::MinHealthFactorTooLow)
        } else if h > 20000 {
            Err(ErrorCode::MinHealthFactorTooHigh)
        } else {
            Ok(Config { min_health_factor_bps: h, ..c })
        },
    }
}

/// Sets the borrow rate where one is given: at most 50% a year.
pub open spec fn with_borrow_rate(c: Config, borrow_rate_bps: Option<u16>) -> Result<
    Config,
    ErrorCode,
> {
    match borrow_rate_bps {
        None => Ok(c),
        Some(r) => if r > 5000 {
            Err(ErrorCode::BorrowRateTooHigh)
        } else {
            Ok(Config { borrow_rate_bps: r, ..c })
        },
    }
}

/// Sets the supply cap and the pause flag where they are given; any value
/// is accepted.
pub open spec fn with_cap_and_pause(c: Config, supply_cap: Option<u64>, paused: Option<bool>) -> Config {
    let c1 = match supply_cap {
        None => c,
        Some(s) => Config { supply_cap: s, ..c },
    };
    match paused {
        None => c1,
        Some(p) => Config { paused: p, ..c1 },
    }
}

/// The configuration after an update by its authority: each given field is
/// checked and set in turn, the first refusal ending the update.
pub open spec fn updated_config(
    c: Config,
    max_ltv_bps: Option<u16>,
    liquidation_ltv_bps: Option<u16>,
    liquidation_bonus_bps: Option<u16>,
    min_health_factor_bps: Option<u16>,
    borrow_rate_bps: Option<u16>,
    supply_cap: Option<u64>,
    paused: Option<bool>,
) -> Result<Config, ErrorCode> {
    match with_max_ltv(c, max_ltv_bps) {
        Err(e) => Err(e),
        Ok(c1) => match with_liquidation_ltv(c1, liquidation_ltv_bps) {
            Err(e) => Err(e),
            Ok(c2) => match with_liquidation_bonus(c2, liquidation_bonus_bps) {
                Err(e) => Err(e),
                Ok(c3) => match with_min_health_factor(c3, min_health_factor_bps) {
                    Err(e) => Err(e),
                    Ok(c4) => match with_borrow_rate(c4, borrow_rate_bps) {
                        Err(e) => Err(e),
                        Ok(c5) => Ok(with_cap_and_pause(c5, supply_cap, paused)),
                    },
                },
            },
        },
    }
}

/// The outcome of an update request: refused with `Unauthorized` unless the
/// signer is the configuration's authority, else as `updated_config`.
pub open spec fn update_outcome(
    accounts: UpdateConfig,
    max_ltv_bps: Option<u16>,
    liquidation_ltv_bps: Option<u16>,
    liquidation_bonus_bps: Option<u16>,
    min_health_factor_bps: Option<u16>,
    borrow_rate_bps: Option<u16>,
    supply_cap: Option<u64>,
    paused: Option<bool>,
) -> Result<Config, ErrorCode> {
    if accounts.authority != accounts.config.authority {
        Err(ErrorCode::Unauthorized)
    } else {
        updated_config(
            accounts.config,
            max_ltv_bps,
            liquidation_ltv_bps,
            liquidation_bonus_bps,
            min_health_factor_bps,
            borrow_rate_bps,
            supply_cap,
            paused,
        )
    }
}

impl UpdateConfig {
    /// Changes the given fields of the configuration, each only if it passes
    /// its check, and only for the configuration's authority. A refused
    /// request changes nothing.
    pub fn update_config(
        &mut self,
        max_ltv_bps: Option<u16>,
        liquidation_ltv_bps: Option<u16>,
        liquidation_bonus_bps: Option<u16>,
        min_health_factor_bps: Option<u16>,
        borrow_rate_bps: Option<u16>,
        supply_cap: Option<u64>,
        paused: Option<bool>,
    ) -> (r: Result<(), ErrorCode>)
        ensures
            match update_outcome(
                *old(self),
                max_ltv_bps,
                liquidation_ltv_bps,
                liquidation_bonus_bps,
                min_health_factor_bps,
                borrow_rate_bps,
                supply_cap,
                paused,
            ) {
                Ok(c) => r is Ok && final(self).config == c,
                Err(e) => r == Err::<(), ErrorCode>(e) && final(self).config == old(self).config,
            },
            final(self).authority == old(self).authority,
            r is Ok <==> old(self).authority == old(self).config.authority && update_is_valid(
                old(self).config,
                max_ltv_bps,
                liquidation_ltv_bps,
                liquidation_bonus_bps,
                min_health_factor_bps,
                borrow_rate_bps,
            ),
            r is Err ==> final(self).config == old(self).config,
            r is Ok ==> {
                let (before, after) = (old(self).config, final(self).config);
                &&& takes(max_ltv_bps, before.max_ltv_bps, after.max_ltv_bps)
                &&& takes(liquidation_ltv_bps, before.liquidation_ltv_bps, after.liquidation_ltv_bps)
                &&& takes(
                    liquidation_bonus_bps,
                    before.liquidation_bonus_bps,
                    after.liquidation_bonus_bps,
                )
                &&& takes(
                    min_health_factor_bps,
                    before.min_health_factor_bps,
                    after.min_health_factor_bps,
                )
                &&& takes(borrow_rate_bps, before.borrow_rate_bps, after.borrow_rate_bps)
                &&& takes(supply_cap, before.supply_cap, after.supply_cap)
                &&& takes(paused, before.paused, after.paused)
                &&& after.authority == before.authority
                &&& after.stablecoin_mint == before.stablecoin_mint
                &&& after.treasury == before.treasury
                &&& after.bump == before.bump
                &&& after.mint_authority_bump == before.mint_authority_bump
            },
    {
        if !self.authority.same_as(&self.config.authority) {
            return Err(ErrorCode::Unauthorized);
        }
        let mut config = self.config;
        if let Some(max_ltv) = max_ltv_bps {
            if !(max_ltv > 0 && max_ltv <= 10000) {
                return Err(ErrorCode::InvalidBps);
            }
            if !(max_ltv < config.liquidation_ltv_bps) {
                return Err(ErrorCode::MaxLtvMustBeLessThanLiquidationLtv);
            }
            config.max_ltv_bps = max_ltv;
        }
        if let Some(liq_ltv) = liquidation_ltv_bps {
            if !(liq_ltv > 0 && liq_ltv <= 10000) {
                return Err(ErrorCode::InvalidBps);
            }
            if !(liq_ltv > config.max_ltv_bps) {
                return Err(ErrorCode::LiquidationLtvMustBeGreaterThanMaxLtv);
            }
            config.liquidation_ltv_bps = liq_ltv;
        }
        if let Some(bonus) = liquidation_bonus_bps {
            if !(bonus <= 2000) {
                return Err(ErrorCode::LiquidationBonusTooHigh);
            }
            config.liquidation_bonus_bps = bonus;
        }
        if let Some(min_health) = min_health_factor_bps {
            if !(min_health >= 10000) {
                return Err(ErrorCode::MinHealthFactorTooLow);
            }
            if !(min_health <= 20000) {
                return Err(ErrorCode::MinHealthFactorTooHigh);
            }
            config.min_health_factor_bps = min_health;
        }
        if let Some(rate) = borrow_rate_bps {
            if !(rate <= 5000) {
                return Err(ErrorCode::BorrowRateTooHigh);
            }
            config.borrow_rate_bps = rate;
        }
        if let Some(cap) = supply_cap {
            config.supply_cap = cap;
        }
        if let Some(pause_state) = paused {
            config.paused = pause_state;
        }
        self.config = config;
        Ok(())
    }
}

} // verus!

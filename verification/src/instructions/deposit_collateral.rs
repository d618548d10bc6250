//! Depositing collateral and minting stablecoin against it.
//!
//! The instruction alternates work that only the runtime can do (moving
//! lamports, reading the oracle and the clock, minting) with the program's
//! decisions. `DepositCollateral` takes the decisions: each of its methods
//! returns the next `DepositAction` for the caller to perform, or the error
//! that refuses the instruction. The position account is written only when
//! the deposit completes.
use vstd::prelude::*;

use crate::error::ErrorCode;
use crate::state::{Config, Key, Position};
use crate::utils::{
    accrue_interest, accrue_interest_result, calculate_collateral_value,
    calculate_health_factor, calculate_max_borrowable_amount, collateral_value_result,
    health_factor, max_borrowable_result, MAX_PRICE_EXPONENT,
};

verus! {

/// The bump seeds of the position account and of the collateral vault.
#[derive(Debug, Clone, Copy, PartialEq, Eq, Structural)]
pub struct DepositCollateralBumps {
    pub position: u8,
    pub collateral_vault: u8,
}

/// What the owner asked for: the lamports to lock and the stablecoin to mint.
#[derive(Debug, Clone, Copy, PartialEq, Eq, Structural)]
pub struct DepositRequest {
    pub collateral_amount: u64,
    pub stablecoin_to_mint: u64,
    pub bumps: DepositCollateralBumps,
}

/// Work for the caller.
#[derive(Debug, Clone, Copy, PartialEq, Eq, Structural)]
pub enum DepositAction {
    /// Transfer `amount` lamports from the owner to the collateral vault.
    TransferCollateral { amount: u64 },
    /// Read the oracle price and the clock, and hand them to `price_fetched`.
    FetchPrice,
    /// Mint `amount` stablecoin to the owner's token account.
    MintStablecoin { amount: u64 },
    /// The deposit is done: write `position` back to its account.
    Complete,
}

/// Where a deposit stands.
#[derive(Debug, Clone, Copy, PartialEq, Eq, Structural)]
pub enum DepositStage {
    Idle,
    AwaitingTransfer,
    AwaitingPrice,
    AwaitingMint { collateral_value_usd: u64, new_total_debt: u64, now: i64 },
    Complete,
}

/// The accounts that a deposit reads and writes, and the deposit's progress.
#[derive(Debug, Clone, Copy)]
pub struct DepositCollateral {
    pub owner: Key,
    pub config: Config,
    pub position: Position,
    pub collateral_vault: Key,
    /// The stablecoin supply before this deposit.
    pub mint_supply: u64,
    pub request: DepositRequest,
    pub stage: DepositStage,
}

/// The checks made before any work: not paused, some collateral.
pub open spec fn deposit_precheck(config: Config, collateral_amount: u64) -> Result<(), ErrorCode> {
    if config.paused {
        Err(ErrorCode::SystemPaused)
    } else if collateral_amount == 0 {
        Err(ErrorCode::InvalidAmount)
    } else {
        Ok(())
    }
}

/// The position's debt with interest up to `now`; an inactive position
/// accrues nothing.
pub open spec fn debt_before_deposit(config: Config, position: Position, now: i64) -> Result<
    u64,
    ErrorCode,
> {
    if position.active {
        accrue_interest_result(
            position.debt_shares,
            config.borrow_rate_bps,
            position.last_update_timestamp,
            now,
        )
    } else {
        Ok(position.debt_shares)
    }
}

/// The borrowing limits: the collateral after the deposit, valued at the
/// oracle price, must allow the debt after the mint at the maximum LTV, and
/// the supply after the mint must stay within the cap. Gives the collateral's
/// value, the most that may be borrowed, and the debt after the mint.
pub open spec fn borrow_limits_result(
    config: Config,
    deposited_collateral: u64,
    debt: u64,
    mint_supply: u64,
    collateral_amount: u64,
    mint_amount: u64,
    price: i64,
    exponent: i32,
) -> Result<(u64, u64, u64), ErrorCode> {
    if deposited_collateral + collateral_amount > u64::MAX {
        Err(ErrorCode::MathOverflow)
    } else {
        match collateral_value_result(
            (deposited_collateral + collateral_amount) as u64,
            price,
            exponent,
        ) {
            Err(e) => Err(e),
            Ok(value) => match max_borrowable_result(value, config.max_ltv_bps) {
                Err(e) => Err(e),
                Ok(max_borrowable) => if debt + mint_amount > u64::MAX {
                    Err(ErrorCode::MathOverflow)
                } else if debt + mint_amount > max_borrowable {
                    Err(ErrorCode::ExceedsMaxLtv)
                } else if mint_supply + mint_amount > u64::MAX {
                    Err(ErrorCode::MathOverflow)
                } else if mint_supply + mint_amount > config.supply_cap {
                    Err(ErrorCode::SupplyCapExceeded)
                } else {
                    Ok((value, max_borrowable, (debt + mint_amount) as u64))
                },
            },
        }
    }
}

/// Accrual and the borrowing limits, as decided once the price and the time
/// are known: the collateral's value and the debt after the mint.
pub open spec fn deposit_validation(
    config: Config,
    position: Position,
    mint_supply: u64,
    request: DepositRequest,
    price: i64,
    exponent: i32,
    now: i64,
) -> Result<(u64, u64), ErrorCode> {
    match debt_before_deposit(config, position, now) {
        Err(e) => Err(e),
        Ok(debt) => match borrow_limits_result(
            config,
            position.deposited_collateral,
            debt,
            mint_supply,
            request.collateral_amount,
            request.stablecoin_to_mint,
            price,
            exponent,
        ) {
            Err(e) => Err(e),
            Ok((value, _max, new_total_debt)) => Ok((value, new_total_debt)),
        },
    }
}

/// The position after a deposit: owned by `owner`, with the added collateral,
/// the new debt and the time of the deposit, active; the bumps are recorded
/// the first time.
pub open spec fn position_after_deposit(
    position: Position,
    owner: Key,
    collateral_vault: Key,
    request: DepositRequest,
    new_total_debt: u64,
    now: i64,
) -> Position {
    Position {
        owner,
        collateral_vault,
        deposited_collateral: (position.deposited_collateral + request.collateral_amount) as u64,
        debt_shares: new_total_debt,
        last_update_timestamp: now,
        active: true,
        bump: if position.bump == 0 {
            request.bumps.position
        } else {
            position.bump
        },
        vault_bump: if position.bump == 0 {
            request.bumps.collateral_vault
        } else {
            position.vault_bump
        },
    }
}

/// The last check, made once the stablecoin is minted: the health factor of
/// the new position must reach the configured minimum. Gives the new position.
pub open spec fn deposit_completion(
    accounts: DepositCollateral,
    collateral_value_usd: u64,
    new_total_debt: u64,
    now: i64,
) -> Result<Position, ErrorCode> {
    if accounts.position.deposited_collateral + accounts.request.collateral_amount > u64::MAX {
        Err(ErrorCode::MathOverflow)
    } else if health_factor(
        collateral_value_usd,
        new_total_debt,
        accounts.config.liquidation_ltv_bps,
    ) < accounts.config.min_health_factor_bps {
        Err(ErrorCode::HealthFactorTooLow)
    } else {
        Ok(
            position_after_deposit(
                accounts.position,
                accounts.owner,
                accounts.collateral_vault,
                accounts.request,
                new_total_debt,
                now,
            ),
        )
    }
}

/// The outcome of a whole deposit whose transfer and mint succeed, at the
/// oracle price `price * 10^exponent` and the time `now`: the new position,
/// or the error that refuses the deposit.
pub open spec fn deposit_outcome(
    accounts: DepositCollateral,
    request: DepositRequest,
    price: i64,
    exponent: i32,
    now: i64,
) -> Result<Position, ErrorCode> {
    match deposit_precheck(accounts.config, request.collateral_amount) {
        Err(e) => Err(e),
        Ok(()) => match deposit_validation(
            accounts.config,
            accounts.position,
            accounts.mint_supply,
            request,
            price,
            exponent,
            now,
        ) {
            Err(e) => Err(e),
            Ok((value, new_total_debt)) => deposit_completion(
                DepositCollateral { request, ..accounts },
                value,
                new_total_debt,
                now,
            ),
        },
    }
}

impl DepositCollateral {
    /// The parts of the state that no step but the last one changes.
    pub open spec fn same_accounts(self, other: DepositCollateral) -> bool {
        &&& self.owner == other.owner
        &&& self.config == other.config
        &&& self.position == other.position
        &&& self.collateral_vault == other.collateral_vault
        &&& self.mint_supply == other.mint_supply
    }

    /// Starts a deposit of `collateral_amount` lamports that mints
    /// `stablecoin_to_mint`: refused while the system is paused or for no
    /// collateral, else the caller is to transfer the collateral.
    pub fn deposit_collateral_and_mint_tokens(
        &mut self,
        collateral_amount: u64,
        stablecoin_to_mint: u64,
        bumps: DepositCollateralBumps,
    ) -> (r: Result<DepositAction, ErrorCode>)
        ensures
            final(self).same_accounts(*old(self)),
            final(self).request == (DepositRequest { collateral_amount, stablecoin_to_mint, bumps }),
            match deposit_precheck(old(self).config, collateral_amount) {
                Err(e) => r == Err::<DepositAction, ErrorCode>(e) && final(self).stage
                    == DepositStage::Idle,
                Ok(()) => r == Ok::<DepositAction, ErrorCode>(
                    DepositAction::TransferCollateral { amount: collateral_amount },
                ) && final(self).stage == DepositStage::AwaitingTransfer,
            },
    {
        self.request = DepositRequest { collateral_amount, stablecoin_to_mint, bumps };
        if self.config.paused {
            self.stage = DepositStage::Idle;
            return Err(ErrorCode::SystemPaused);
        }
        if collateral_amount == 0 {
            self.stage = DepositStage::Idle;
            return Err(ErrorCode::InvalidAmount);
        }
        self.stage = DepositStage::AwaitingTransfer;
        Ok(DepositAction::TransferCollateral { amount: collateral_amount })
    }

    /// The collateral has reached the vault: the caller is to read the price.
    pub fn collateral_transferred(&mut self) -> (r: DepositAction)
        requires
            old(self).stage == DepositStage::AwaitingTransfer,
        ensures
            final(self).same_accounts(*old(self)),
            final(self).request == old(self).request,
            final(self).stage == DepositStage::AwaitingPrice,
            r == DepositAction::FetchPrice,
    {
        self.stage = DepositStage::AwaitingPrice;
        DepositAction::FetchPrice
    }

    /// Checks the borrowing limits against the debt, the collateral and the
    /// supply, returning the collateral's value, the most that may be
    /// borrowed, and the debt after the mint.
    fn validate_borrow_limits(
        &self,
        debt: u64,
        price: i64,
        exponent: i32,
    ) -> (r: Result<(u64, u64, u64), ErrorCode>)
        requires
            price <= 0 || -MAX_PRICE_EXPONENT <= exponent <= MAX_PRICE_EXPONENT,
        ensures
            r == borrow_limits_result(
                self.config,
                self.position.deposited_collateral,
                debt,
                self.mint_supply,
                self.request.collateral_amount,
                self.request.stablecoin_to_mint,
                price,
                exponent,
            ),
    {
        let new_collateral = match self.position.deposited_collateral.checked_add(
            self.request.collateral_amount,
        ) {
            Some(v) => v,
            None => return Err(ErrorCode::MathOverflow),
        };
        let collateral_value_usd = match calculate_collateral_value(
            new_collateral,
            price,
            exponent,
        ) {
            Ok(v) => v,
            Err(e) => return Err(e),
        };
        let max_borrowable = match calculate_max_borrowable_amount(
            collateral_value_usd,
            self.config.max_ltv_bps,
        ) {
            Ok(v) => v,
            Err(e) => return Err(e),
        };
        let new_total_debt = match debt.checked_add(self.request.stablecoin_to_mint) {
            Some(v) => v,
            None => return Err(ErrorCode::MathOverflow),
        };
        if !(new_total_debt <= max_borrowable) {
            return Err(ErrorCode::ExceedsMaxLtv);
        }
        let new_supply = match self.mint_supply.checked_add(self.request.stablecoin_to_mint) {
            Some(v) => v,
            None => return Err(ErrorCode::MathOverflow),
        };
        if !(new_supply <= self.config.supply_cap) {
            return Err(ErrorCode::SupplyCapExceeded);
        }
        Ok((collateral_value_usd, max_borrowable, new_total_debt))
    }

    /// The oracle price is `price * 10^exponent` and the time is `now`:
    /// accrues the interest of an active position and checks the borrowing
    /// limits; where they hold, the caller is to mint the stablecoin.
    pub fn price_fetched(&mut self, price: i64, exponent: i32, now: i64) -> (r: Result<
        DepositAction,
        ErrorCode,
    >)
        requires
            old(self).stage == DepositStage::AwaitingPrice,
            price <= 0 || -MAX_PRICE_EXPONENT <= exponent <= MAX_PRICE_EXPONENT,
        ensures
            final(self).same_accounts(*old(self)),
            final(self).request == old(self).request,
            match deposit_validation(
                old(self).config,
                old(self).position,
                old(self).mint_supply,
                old(self).request,
                price,
                exponent,
                now,
            ) {
                Err(e) => r == Err::<DepositAction, ErrorCode>(e) && final(self).stage
                    == DepositStage::Idle,
                Ok((value, new_total_debt)) => r == Ok::<DepositAction, ErrorCode>(
                    DepositAction::MintStablecoin { amount: old(self).request.stablecoin_to_mint },
                ) && final(self).stage == (DepositStage::AwaitingMint {
                    collateral_value_usd: value,
                    new_total_debt,
                    now,
                }),
            },
            // The debt to record is the old debt with its interest up to `now`
            // (none for an inactive position) plus the stablecoin minted.
            r is Ok ==> (final(self).stage matches DepositStage::AwaitingMint {
                new_total_debt,
                now: t,
                ..
            } && t == now && (if old(self).position.active {
                accrue_interest_result(
                    old(self).position.debt_shares,
                    old(self).config.borrow_rate_bps,
                    old(self).position.last_update_timestamp,
                    now,
                ) matches Ok(d) && new_total_debt == d + old(self).request.stablecoin_to_mint
            } else {
                new_total_debt == old(self).position.debt_shares
                    + old(self).request.stablecoin_to_mint
            })),
    {
        let debt = if self.position.active {
            match accrue_interest(
                self.position.debt_shares,
                self.config.borrow_rate_bps,
                self.position.last_update_timestamp,
                now,
            ) {
                Ok(d) => d,
                Err(e) => {
                    self.stage = DepositStage::Idle;
                    return Err(e);
                },
            }
        } else {
            self.position.debt_shares
        };
        match self.validate_borrow_limits(debt, price, exponent) {
            Ok((collateral_value_usd, _max_borrowable, new_total_debt)) => {
                self.stage = DepositStage::AwaitingMint { collateral_value_usd, new_total_debt, now };
                Ok(DepositAction::MintStablecoin { amount: self.request.stablecoin_to_mint })
            },
            Err(e) => {
                self.stage = DepositStage::Idle;
                Err(e)
            },
        }
    }

    /// The stablecoin is minted: records the deposit in the position and
    /// checks its health factor; where it holds, the deposit is complete and
    /// `position` is the account to write.
    pub fn stablecoin_minted(&mut self) -> (r: Result<DepositAction, ErrorCode>)
        requires
            old(self).stage is AwaitingMint,
        ensures
            final(self).owner == old(self).owner,
            final(self).config == old(self).config,
            final(self).collateral_vault == old(self).collateral_vault,
            final(self).mint_supply == old(self).mint_supply,
            final(self).request == old(self).request,
            match old(self).stage {
                DepositStage::AwaitingMint { collateral_value_usd, new_total_debt, now } => {
                    match deposit_completion(
                        *old(self),
                        collateral_value_usd,
                        new_total_debt,
                        now,
                    ) {
                        Err(e) => r == Err::<DepositAction, ErrorCode>(e) && final(self).stage
                            == DepositStage::Idle && final(self).position == old(self).position,
                        Ok(p) => r == Ok::<DepositAction, ErrorCode>(DepositAction::Complete)
                            && final(self).stage == DepositStage::Complete && final(self).position
                            == p,
                    }
                },
                _ => false,
            },
            r is Ok ==> (old(self).stage matches DepositStage::AwaitingMint {
                new_total_debt,
                now,
                ..
            } && final(self).position.debt_shares == new_total_debt
                && final(self).position.last_update_timestamp == now
                && final(self).position.deposited_collateral
                == old(self).position.deposited_collateral + old(self).request.collateral_amount
                && final(self).position.active && final(self).position.owner == old(self).owner
                && final(self).position.collateral_vault == old(self).collateral_vault),
    {
        let (collateral_value_usd, new_total_debt, now) = match self.stage {
            DepositStage::AwaitingMint { collateral_value_usd, new_total_debt, now } => (
                collateral_value_usd,
                new_total_debt,
                now,
            ),
            _ => (0, 0, 0),
        };
        let deposited = match self.position.deposited_collateral.checked_add(
            self.request.collateral_amount,
        ) {
            Some(v) => v,
            None => {
                self.stage = DepositStage::Idle;
                return Err(ErrorCode::MathOverflow);
            },
        };
        let first_deposit = self.position.bump == 0;
        let position = Position {
            owner: self.owner,
            collateral_vault: self.collateral_vault,
            deposited_collateral: deposited,
            debt_shares: new_total_debt,
            last_update_timestamp: now,
            active: true,
            bump: if first_deposit {
                self.request.bumps.position
            } else {
                self.position.bump
            },
            vault_bump: if first_deposit {
                self.request.bumps.collateral_vault
            } else {
                self.position.vault_bump
            },
        };
        let health = match calculate_health_factor(
            collateral_value_usd,
            new_total_debt,
            self.config.liquidation_ltv_bps,
        ) {
            Ok(h) => h,
            Err(e) => {
                self.stage = DepositStage::Idle;
                return Err(e);
            },
        };
        if !(health >= self.config.min_health_factor_bps) {
            self.stage = DepositStage::Idle;
            return Err(ErrorCode::HealthFactorTooLow);
        }
        self.position = position;
        self.stage = DepositStage::Complete;
        Ok(DepositAction::Complete)
    }
}

} // verus!

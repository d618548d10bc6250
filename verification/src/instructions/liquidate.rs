//! Liquidating a position whose loan-to-value ratio has reached the
//! liquidation threshold.
//!
//! The liquidator burns stablecoin equal to the position's debt and receives
//! collateral worth the debt plus the liquidation bonus; what is left of the
//! collateral goes back to the position's owner (the account recorded in the
//! position: any other is refused), and the position is cleared.
//! `Liquidate` takes the decisions and computes the new lamport balances; the
//! caller reads the oracle, burns, and writes the balances and the position.
use vstd::prelude::*;

use crate::error::ErrorCode;
use crate::state::{Config, Key, Position};
use crate::utils::{
    accrue_interest, accrue_interest_result, calculate_collateral_value,
    calculate_liquidation_amounts, collateral_value_result, compute_ltv,
    liquidation_amounts_result, loan_to_value, MAX_PRICE_EXPONENT,
};

verus! {

/// Work for the caller.
#[derive(Debug, Clone, Copy, PartialEq, Eq, Structural)]
pub enum LiquidateAction {
    /// Read the oracle price and hand it to `price_fetched`.
    FetchPrice,
    /// Burn `amount` stablecoin from the liquidator's token account.
    BurnStablecoin { amount: u64 },
    /// The liquidation is done: write the lamport balances and the position.
    Complete,
}

/// Where a liquidation stands.
#[derive(Debug, Clone, Copy, PartialEq, Eq, Structural)]
pub enum LiquidateStage {
    Idle,
    AwaitingPrice,
    /// The debt (with interest) to burn, and the collateral split into the
    /// part seized by the liquidator and the part returned to the owner.
    AwaitingBurn { debt: u64, seized: u64, remaining: u64 },
    Complete,
}

/// The accounts that a liquidation reads and writes, and its progress.
#[derive(Debug, Clone, Copy)]
pub struct Liquidate {
    pub liquidator: Key,
    pub config: Config,
    pub position: Position,
    pub position_owner: Key,
    /// The liquidator's stablecoin balance.
    pub liquidator_stablecoin_balance: u64,
    /// The lamports of the collateral vault, the liquidator and the owner.
    /// Where the liquidator is the owner, both balances are that account's.
    pub vault_lamports: u64,
    pub liquidator_lamports: u64,
    pub owner_lamports: u64,
    /// The time of the liquidation.
    pub now: i64,
    pub stage: LiquidateStage,
}

/// A step's result and the machine's next state.
pub type LiquidateStep = (Result<LiquidateAction, ErrorCode>, Liquidate);

impl Liquidate {
    /// The instruction is refused with `e`; no account changes.
    pub open spec fn abort_step(self, e: ErrorCode) -> LiquidateStep {
        (Err(e), Liquidate { stage: LiquidateStage::Idle, ..self })
    }

    /// Starting a liquidation at the time `now`: only an active position,
    /// only with the position's recorded owner as the account that receives
    /// the rest of the collateral, and not while paused.
    pub open spec fn start_step(self, now: i64) -> LiquidateStep {
        let m = Liquidate { now, ..self };
        if !self.position.active {
            m.abort_step(ErrorCode::PositionNotActive)
        } else if self.position_owner != self.position.owner {
            m.abort_step(ErrorCode::Unauthorized)
        } else if self.config.paused {
            m.abort_step(ErrorCode::SystemPaused)
        } else {
            (Ok(LiquidateAction::FetchPrice), Liquidate { stage: LiquidateStage::AwaitingPrice, ..m })
        }
    }

    /// The price is known: the debt accrues interest, the position must have
    /// reached the liquidation LTV, the collateral is split, and the
    /// liquidator must hold stablecoin enough to repay the whole debt.
    pub open spec fn priced_step(self, price: i64, exponent: i32) -> LiquidateStep {
        match accrue_interest_result(
            self.position.debt_shares,
            self.config.borrow_rate_bps,
            self.position.last_update_timestamp,
            self.now,
        ) {
            Err(e) => self.abort_step(e),
            Ok(debt) => match collateral_value_result(
                self.position.deposited_collateral,
                price,
                exponent,
            ) {
                Err(e) => self.abort_step(e),
                Ok(value) => if loan_to_value(debt, value) < self.config.liquidation_ltv_bps {
                    self.abort_step(ErrorCode::PositionNotLiquidatable)
                } else {
                    match liquidation_amounts_result(
                        debt,
                        self.position.deposited_collateral,
                        self.config.liquidation_bonus_bps,
                        price,
                        exponent,
                    ) {
                        Err(e) => self.abort_step(e),
                        Ok((seized, remaining)) => if self.liquidator_stablecoin_balance < debt {
                            self.abort_step(ErrorCode::InsufficientBalance)
                        } else {
                            (
                                Ok(LiquidateAction::BurnStablecoin { amount: debt }),
                                Liquidate {
                                    stage: LiquidateStage::AwaitingBurn { debt, seized, remaining },
                                    ..self
                                },
                            )
                        },
                    }
                },
            },
        }
    }

    /// The position after liquidation: empty, inactive, updated at `now`.
    pub open spec fn cleared_position(self) -> Position {
        Position {
            debt_shares: 0,
            deposited_collateral: 0,
            active: false,
            last_update_timestamp: self.now,
            ..self.position
        }
    }

    /// Whether the liquidator and the owner are one account.
    pub open spec fn owner_is_liquidator(self) -> bool {
        self.liquidator == self.position_owner
    }

    /// The owner's balance as the program reads it once the seized
    /// collateral has gone to the liquidator.
    pub open spec fn owner_balance_after_seizure(self, liquidator_balance: u64) -> u64 {
        if self.owner_is_liquidator() {
            liquidator_balance
        } else {
            self.owner_lamports
        }
    }

    /// The stablecoin is burnt: the seized collateral moves from the vault to
    /// the liquidator, as much of the rest as the vault holds moves to the
    /// owner, and the position is cleared.
    pub open spec fn burned_step(self) -> LiquidateStep {
        match self.stage {
            LiquidateStage::AwaitingBurn { debt, seized, remaining } => if self.vault_lamports
                < seized {
                self.abort_step(ErrorCode::InsufficientCollateral)
            } else if self.liquidator_lamports + seized > u64::MAX {
                self.abort_step(ErrorCode::MathOverflow)
            } else {
                let vault1 = (self.vault_lamports - seized) as u64;
                let liquidator1 = (self.liquidator_lamports + seized) as u64;
                let owner1 = self.owner_balance_after_seizure(liquidator1);
                let returned: u64 = if remaining < vault1 {
                    remaining
                } else {
                    vault1
                };
                if returned > 0 && owner1 + returned > u64::MAX {
                    self.abort_step(ErrorCode::MathOverflow)
                } else {
                    let owner2: u64 = if returned > 0 {
                        (owner1 + returned) as u64
                    } else {
                        owner1
                    };
                    (
                        Ok(LiquidateAction::Complete),
                        Liquidate {
                            vault_lamports: (vault1 - returned) as u64,
                            liquidator_lamports: if self.owner_is_liquidator() {
                                owner2
                            } else {
                                liquidator1
                            },
                            owner_lamports: owner2,
                            position: self.cleared_position(),
                            stage: LiquidateStage::Complete,
                            ..self
                        },
                    )
                }
            },
            _ => arbitrary(),
        }
    }

    /// The lamports of the vault, the liquidator and the owner, counting an
    /// account once.
    pub open spec fn total_lamports(self) -> int {
        if self.owner_is_liquidator() {
            self.vault_lamports + self.liquidator_lamports
        } else {
            self.vault_lamports + self.liquidator_lamports + self.owner_lamports
        }
    }

    fn abort(&mut self, e: ErrorCode) -> (r: Result<LiquidateAction, ErrorCode>)
        ensures
            (r, *final(self)) == old(self).abort_step(e),
    {
        self.stage = LiquidateStage::Idle;
        Err(e)
    }

    /// Starts the liquidation of the position at the time `now`.
    pub fn liquidate(&mut self, now: i64) -> (r: Result<LiquidateAction, ErrorCode>)
        ensures
            (r, *final(self)) == old(self).start_step(now),
            r is Ok ==> old(self).position_owner == old(self).position.owner,
    {
        self.now = now;
        if !self.position.active {
            return self.abort(ErrorCode::PositionNotActive);
        }
        if !self.position_owner.same_as(&self.position.owner) {
            return self.abort(ErrorCode::Unauthorized);
        }
        if self.config.paused {
            return self.abort(ErrorCode::SystemPaused);
        }
        self.stage = LiquidateStage::AwaitingPrice;
        Ok(LiquidateAction::FetchPrice)
    }

    /// The oracle price is `price * 10^exponent`.
    pub fn price_fetched(&mut self, price: i64, exponent: i32) -> (r: Result<
        LiquidateAction,
        ErrorCode,
    >)
        requires
            old(self).stage == LiquidateStage::AwaitingPrice,
            price <= 0 || -MAX_PRICE_EXPONENT <= exponent <= MAX_PRICE_EXPONENT,
        ensures
            (r, *final(self)) == old(self).priced_step(price, exponent),
    {
        let debt = match accrue_interest(
            self.position.debt_shares,
            self.config.borrow_rate_bps,
            self.position.last_update_timestamp,
            self.now,
        ) {
            Ok(d) => d,
            Err(e) => return self.abort(e),
        };
        let collateral_value_usd = match calculate_collateral_value(
            self.position.deposited_collateral,
            price,
            exponent,
        ) {
            Ok(v) => v,
            Err(e) => return self.abort(e),
        };
        let current_ltv = match compute_ltv(debt, collateral_value_usd) {
            Ok(l) => l,
            Err(e) => return self.abort(e),
        };
        if !(current_ltv >= self.config.liquidation_ltv_bps) {
            return self.abort(ErrorCode::PositionNotLiquidatable);
        }
        let (seized, remaining) = match calculate_liquidation_amounts(
            debt,
            self.position.deposited_collateral,
            self.config.liquidation_bonus_bps,
            price,
            exponent,
        ) {
            Ok(amounts) => amounts,
            Err(e) => return self.abort(e),
        };
        if !(self.liquidator_stablecoin_balance >= debt) {
            return self.abort(ErrorCode::InsufficientBalance);
        }
        self.stage = LiquidateStage::AwaitingBurn { debt, seized, remaining };
        Ok(LiquidateAction::BurnStablecoin { amount: debt })
    }

    /// The liquidator's stablecoin is burnt.
    pub fn stablecoin_burned(&mut self) -> (r: Result<LiquidateAction, ErrorCode>)
        requires
            old(self).stage is AwaitingBurn,
        ensures
            (r, *final(self)) == old(self).burned_step(),
            r is Ok ==> final(self).total_lamports() == old(self).total_lamports(),
    {
        let (seized, remaining) = match self.stage {
            LiquidateStage::AwaitingBurn { debt: _, seized, remaining } => (seized, remaining),
            _ => (0, 0),
        };
        let same_account = self.liquidator.same_as(&self.position_owner);
        // The seized collateral goes to the liquidator.
        if !(self.vault_lamports >= seized) {
            return self.abort(ErrorCode::InsufficientCollateral);
        }
        let vault1 = self.vault_lamports - seized;
        let liquidator1 = match self.liquidator_lamports.checked_add(seized) {
            Some(v) => v,
            None => return self.abort(ErrorCode::MathOverflow),
        };
        let owner1 = if same_account {
            liquidator1
        } else {
            self.owner_lamports
        };
        // What the vault still holds of the rest goes back to the owner.
        let returned = if remaining < vault1 {
            remaining
        } else {
            vault1
        };
        let owner2 = if returned > 0 {
            match owner1.checked_add(returned) {
                Some(v) => v,
                None => return self.abort(ErrorCode::MathOverflow),
            }
        } else {
            owner1
        };
        self.vault_lamports = vault1 - returned;
        self.liquidator_lamports = if same_account {
            owner2
        } else {
            liquidator1
        };
        self.owner_lamports = owner2;
        self.position.debt_shares = 0;
        self.position.deposited_collateral = 0;
        self.position.active = false;
        self.position.last_update_timestamp = self.now;
        self.stage = LiquidateStage::Complete;
        Ok(LiquidateAction::Complete)
    }
}

} // verus!

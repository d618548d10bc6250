//! Repaying debt by burning stablecoin and withdrawing collateral.
//!
//! As with deposits, `RedeemCollateral` takes the program's decisions and
//! hands the caller the runtime's work as `RedeemAction`s: the burn, the
//! transfer out of the vault and the oracle read. Each step's contract gives
//! the next state of the machine as a spec function of the current one.
use vstd::prelude::*;

use crate::error::ErrorCode;
use crate::state::{Config, Position};
use crate::utils::{
    accrue_interest, accrue_interest_result, calculate_collateral_value,
    calculate_health_factor, collateral_value_result, health_factor, MAX_PRICE_EXPONENT,
};

verus! {

/// What the owner asked for, and the time of the request.
#[derive(Debug, Clone, Copy, PartialEq, Eq, Structural)]
pub struct RedeemRequest {
    pub stablecoin_to_burn: u64,
    pub collateral_to_withdraw: u64,
    pub now: i64,
}

/// Work for the caller.
#[derive(Debug, Clone, Copy, PartialEq, Eq, Structural)]
pub enum RedeemAction {
    /// Burn `amount` stablecoin from the owner's token account.
    BurnStablecoin { amount: u64 },
    /// Transfer `amount` lamports from the collateral vault to the owner.
    WithdrawCollateral { amount: u64 },
    /// Read the oracle price and hand it to `price_fetched`.
    FetchPrice,
    /// The redemption is done: write `position` back to its account.
    Complete,
}

/// Where a redemption stands, with the debt (after interest and any burn)
/// and the collateral as they are so far.
#[derive(Debug, Clone, Copy, PartialEq, Eq, Structural)]
pub enum RedeemStage {
    Idle,
    AwaitingBurn { debt: u64 },
    AwaitingWithdrawal { debt: u64 },
    AwaitingPrice { debt: u64, deposited: u64 },
    Complete,
}

/// The accounts that a redemption reads and writes, and its progress.
#[derive(Debug, Clone, Copy)]
pub struct RedeemCollateral {
    pub config: Config,
    pub position: Position,
    /// The owner's stablecoin balance.
    pub user_stablecoin_balance: u64,
    /// The lamports held by the collateral vault.
    pub vault_lamports: u64,
    pub request: RedeemRequest,
    pub stage: RedeemStage,
}

/// A step's result and the machine's next state.
pub type RedeemStep = (Result<RedeemAction, ErrorCode>, RedeemCollateral);

impl RedeemCollateral {
    /// The instruction is refused with `e`; no account changes.
    pub open spec fn abort_step(self, e: ErrorCode) -> RedeemStep {
        (Err(e), RedeemCollateral { stage: RedeemStage::Idle, ..self })
    }

    /// The position after the redemption: the given debt and collateral, the
    /// time of the request, and closed once both are zero.
    pub open spec fn redeemed_position(self, debt: u64, deposited: u64) -> Position {
        Position {
            deposited_collateral: deposited,
            debt_shares: debt,
            last_update_timestamp: self.request.now,
            active: if debt == 0 && deposited == 0 {
                false
            } else {
                self.position.active
            },
            ..self.position
        }
    }

    /// The redemption is complete.
    pub open spec fn finish_step(self, debt: u64, deposited: u64) -> RedeemStep {
        (
            Ok(RedeemAction::Complete),
            RedeemCollateral {
                position: self.redeemed_position(debt, deposited),
                stage: RedeemStage::Complete,
                ..self
            },
        )
    }

    /// After any withdrawal: a remaining debt needs the price for the health
    /// check; without debt the redemption is complete.
    pub open spec fn after_withdrawal_step(self, debt: u64, deposited: u64) -> RedeemStep {
        if debt == 0 {
            self.finish_step(debt, deposited)
        } else {
            (
                Ok(RedeemAction::FetchPrice),
                RedeemCollateral { stage: RedeemStage::AwaitingPrice { debt, deposited }, ..self },
            )
        }
    }

    /// After any burn: a withdrawal needs that much collateral in the position
    /// and in the vault.
    pub open spec fn after_burn_step(self, debt: u64) -> RedeemStep {
        let amount = self.request.collateral_to_withdraw;
        if amount > 0 {
            if self.position.deposited_collateral < amount {
                self.abort_step(ErrorCode::InsufficientCollateral)
            } else if self.vault_lamports < amount {
                self.abort_step(ErrorCode::InsufficientCollateral)
            } else {
                (
                    Ok(RedeemAction::WithdrawCollateral { amount }),
                    RedeemCollateral { stage: RedeemStage::AwaitingWithdrawal { debt }, ..self },
                )
            }
        } else {
            self.after_withdrawal_step(debt, self.position.deposited_collateral)
        }
    }

    /// After the interest is added: a burn needs that much stablecoin in the
    /// owner's account.
    pub open spec fn after_accrual_step(self, debt: u64) -> RedeemStep {
        let amount = self.request.stablecoin_to_burn;
        if amount > 0 {
            if self.user_stablecoin_balance < amount {
                self.abort_step(ErrorCode::InsufficientBalance)
            } else {
                (
                    Ok(RedeemAction::BurnStablecoin { amount }),
                    RedeemCollateral { stage: RedeemStage::AwaitingBurn { debt }, ..self },
                )
            }
        } else {
            self.after_burn_step(debt)
        }
    }

    /// Starting a redemption: refused while paused or where nothing is asked
    /// for; the debt then accrues interest up to `now`.
    pub open spec fn start_step(
        self,
        stablecoin_to_burn: u64,
        collateral_to_withdraw: u64,
        now: i64,
    ) -> RedeemStep {
        let m = RedeemCollateral {
            request: RedeemRequest { stablecoin_to_burn, collateral_to_withdraw, now },
            ..self
        };
        if self.config.paused {
            m.abort_step(ErrorCode::SystemPaused)
        } else if stablecoin_to_burn == 0 && collateral_to_withdraw == 0 {
            m.abort_step(ErrorCode::InvalidAmount)
        } else {
            match accrue_interest_result(
                self.position.debt_shares,
                self.config.borrow_rate_bps,
                self.position.last_update_timestamp,
                now,
            ) {
                Err(e) => m.abort_step(e),
                Ok(debt) => m.after_accrual_step(debt),
            }
        }
    }

    /// The burn is done: the debt falls by the amount burnt, which it must
    /// cover.
    pub open spec fn burned_step(self) -> RedeemStep {
        match self.stage {
            RedeemStage::AwaitingBurn { debt } => if debt < self.request.stablecoin_to_burn {
                self.abort_step(ErrorCode::MathOverflow)
            } else {
                self.after_burn_step((debt - self.request.stablecoin_to_burn) as u64)
            },
            _ => arbitrary(),
        }
    }

    /// The withdrawal is done: the collateral falls by the amount withdrawn.
    pub open spec fn withdrawn_step(self) -> RedeemStep {
        match self.stage {
            RedeemStage::AwaitingWithdrawal { debt } => if self.position.deposited_collateral
                < self.request.collateral_to_withdraw {
                self.abort_step(ErrorCode::MathOverflow)
            } else {
                self.after_withdrawal_step(
                    debt,
                    (self.position.deposited_collateral
                        - self.request.collateral_to_withdraw) as u64,
                )
            },
            _ => arbitrary(),
        }
    }

    /// The price is known: the remaining collateral, valued at it, must keep
    /// the health factor at the configured minimum.
    pub open spec fn priced_step(self, price: i64, exponent: i32) -> RedeemStep {
        match self.stage {
            RedeemStage::AwaitingPrice { debt, deposited } => match collateral_value_result(
                deposited,
                price,
                exponent,
            ) {
                Err(e) => self.abort_step(e),
                Ok(value) => if health_factor(value, debt, self.config.liquidation_ltv_bps)
                    < self.config.min_health_factor_bps {
                    self.abort_step(ErrorCode::HealthFactorTooLow)
                } else {
                    self.finish_step(debt, deposited)
                },
            },
            _ => arbitrary(),
        }
    }

    fn abort(&mut self, e: ErrorCode) -> (r: Result<RedeemAction, ErrorCode>)
        ensures
            (r, *final(self)) == old(self).abort_step(e),
    {
        self.stage = RedeemStage::Idle;
        Err(e)
    }

    /// Closes the position only if fully repaid and empty.
    fn finish(&mut self, debt: u64, deposited: u64) -> (r: Result<RedeemAction, ErrorCode>)
        ensures
            (r, *final(self)) == old(self).finish_step(debt, deposited),
    {
        self.position.debt_shares = debt;
        self.position.deposited_collateral = deposited;
        self.position.last_update_timestamp = self.request.now;
        if debt == 0 && deposited == 0 {
            self.position.active = false;
        }
        self.stage = RedeemStage::Complete;
        Ok(RedeemAction::Complete)
    }

    fn continue_after_withdrawal(&mut self, debt: u64, deposited: u64) -> (r: Result<
        RedeemAction,
        ErrorCode,
    >)
        ensures
            (r, *final(self)) == old(self).after_withdrawal_step(debt, deposited),
    {
        if debt == 0 {
            return self.finish(debt, deposited);
        }
        self.stage = RedeemStage::AwaitingPrice { debt, deposited };
        Ok(RedeemAction::FetchPrice)
    }

    fn continue_after_burn(&mut self, debt: u64) -> (r: Result<RedeemAction, ErrorCode>)
        ensures
            (r, *final(self)) == old(self).after_burn_step(debt),
    {
        let amount = self.request.collateral_to_withdraw;
        if amount > 0 {
            if !(self.position.deposited_collateral >= amount) {
                return self.abort(ErrorCode::InsufficientCollateral);
            }
            if !(self.vault_lamports >= amount) {
                return self.abort(ErrorCode::InsufficientCollateral);
            }
            self.stage = RedeemStage::AwaitingWithdrawal { debt };
            return Ok(RedeemAction::WithdrawCollateral { amount });
        }
        let deposited = self.position.deposited_collateral;
        self.continue_after_withdrawal(debt, deposited)
    }

    fn continue_after_accrual(&mut self, debt: u64) -> (r: Result<RedeemAction, ErrorCode>)
        ensures
            (r, *final(self)) == old(self).after_accrual_step(debt),
    {
        let amount = self.request.stablecoin_to_burn;
        if amount > 0 {
            if !(self.user_stablecoin_balance >= amount) {
                return self.abort(ErrorCode::InsufficientBalance);
            }
            self.stage = RedeemStage::AwaitingBurn { debt };
            return Ok(RedeemAction::BurnStablecoin { amount });
        }
        self.continue_after_burn(debt)
    }

    /// Starts a redemption at the time `now` that burns `stablecoin_to_burn`
    /// and withdraws `collateral_to_withdraw` lamports.
    pub fn redeem_collateral_and_burn_tokens(
        &mut self,
        stablecoin_to_burn: u64,
        collateral_to_withdraw: u64,
        now: i64,
    ) -> (r: Result<RedeemAction, ErrorCode>)
        ensures
            (r, *final(self)) == old(self).start_step(
                stablecoin_to_burn,
                collateral_to_withdraw,
                now,
            ),
    {
        self.request = RedeemRequest { stablecoin_to_burn, collateral_to_withdraw, now };
        if self.config.paused {
            return self.abort(ErrorCode::SystemPaused);
        }
        if !(stablecoin_to_burn > 0 || collateral_to_withdraw > 0) {
            return self.abort(ErrorCode::InvalidAmount);
        }
        match accrue_interest(
            self.position.debt_shares,
            self.config.borrow_rate_bps,
            self.position.last_update_timestamp,
            now,
        ) {
            Ok(debt) => self.continue_after_accrual(debt),
            Err(e) => self.abort(e),
        }
    }

    /// The stablecoin is burnt.
    pub fn stablecoin_burned(&mut self) -> (r: Result<RedeemAction, ErrorCode>)
        requires
            old(self).stage is AwaitingBurn,
        ensures
            (r, *final(self)) == old(self).burned_step(),
    {
        let debt = match self.stage {
            RedeemStage::AwaitingBurn { debt } => debt,
            _ => 0,
        };
        match debt.checked_sub(self.request.stablecoin_to_burn) {
            Some(d) => self.continue_after_burn(d),
            None => self.abort(ErrorCode::MathOverflow),
        }
    }

    /// The collateral has left the vault.
    pub fn collateral_withdrawn(&mut self) -> (r: Result<RedeemAction, ErrorCode>)
        requires
            old(self).stage is AwaitingWithdrawal,
        ensures
            (r, *final(self)) == old(self).withdrawn_step(),
    {
        let debt = match self.stage {
            RedeemStage::AwaitingWithdrawal { debt } => debt,
            _ => 0,
        };
        match self.position.deposited_collateral.checked_sub(self.request.collateral_to_withdraw) {
            Some(d) => self.continue_after_withdrawal(debt, d),
            None => self.abort(ErrorCode::MathOverflow),
        }
    }

    /// The oracle price is `price * 10^exponent`: checks the health factor
    /// of what remains.
    pub fn price_fetched(&mut self, price: i64, exponent: i32) -> (r: Result<
        RedeemAction,
        ErrorCode,
    >)
        requires
            old(self).stage is AwaitingPrice,
            price <= 0 || -MAX_PRICE_EXPONENT <= exponent <= MAX_PRICE_EXPONENT,
        ensures
            (r, *final(self)) == old(self).priced_step(price, exponent),
    {
        let (debt, deposited) = match self.stage {
            RedeemStage::AwaitingPrice { debt, deposited } => (debt, deposited),
            _ => (0, 0),
        };
        let collateral_value_usd = match calculate_collateral_value(deposited, price, exponent) {
            Ok(v) => v,
            Err(e) => return self.abort(e),
        };
        let health = match calculate_health_factor(
            collateral_value_usd,
            debt,
            self.config.liquidation_ltv_bps,
        ) {
            Ok(h) => h,
            Err(e) => return self.abort(e),
        };
        if !(health >= self.config.min_health_factor_bps) {
            return self.abort(ErrorCode::HealthFactorTooLow);
        }
        self.finish(debt, deposited)
    }
}

} // verus!

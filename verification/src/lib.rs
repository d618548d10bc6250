//! A collateral-backed stablecoin: users lock collateral in a vault, borrow
//! stablecoin against it up to a loan-to-value limit, pay interest on the
//! debt, repay and withdraw, and are liquidated when their loan-to-value ratio
//! reaches the liquidation threshold.
//!
//! The library holds the program's rules and arithmetic: `utils` for the
//! arithmetic, `state` for the accounts, `instructions` for the five
//! instructions, and `laws` for the properties that hold across them. The
//! on-chain work (token transfers, mints and burns, oracle reads, the clock)
//! is done by the caller, which drives the deposit, redemption and
//! liquidation through their steps.
pub mod error;
pub mod state;
pub mod utils;
pub mod instructions;
pub mod laws;

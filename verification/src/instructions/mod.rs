//! The program's instructions.
pub mod deposit_collateral;
pub mod initialize_config;
pub mod liquidate;
pub mod redeem_collateral;
pub mod update_config;

use vstd::prelude::*;

verus! {

/// Every way in which an instruction of the stablecoin program can be refused.
///
/// A refused instruction changes no account: the runtime rolls the whole
/// transaction back.
#[derive(Debug, Clone, Copy, PartialEq, Eq, Structural)]
pub enum ErrorCode {
    /// The signer is not the authority recorded in the configuration.
    Unauthorized,
    /// A basis-point value is outside `1..=10000`.
    InvalidBps,
    /// A new maximum LTV is not below the liquidation LTV.
    MaxLtvMustBeLessThanLiquidationLtv,
    /// A liquidation LTV is not above the maximum LTV.
    LiquidationLtvMustBeGreaterThanMaxLtv,
    /// The liquidation bonus is above 20%.
    LiquidationBonusTooHigh,
    /// The minimum health factor is below 100%.
    MinHealthFactorTooLow,
    /// The minimum health factor is above 200%.
    MinHealthFactorTooHigh,
    /// The borrow rate is above 50% APR.
    BorrowRateTooHigh,
    /// The supply cap is zero.
    InvalidSupplyCap,
    /// The system is paused.
    SystemPaused,
    /// The requested amount is zero.
    InvalidAmount,
    /// An intermediate or final quantity does not fit its integer type.
    MathOverflow,
    /// The debt would exceed what the collateral allows at the maximum LTV.
    ExceedsMaxLtv,
    /// The stablecoin supply would exceed the supply cap.
    SupplyCapExceeded,
    /// The health factor would fall below the configured minimum.
    HealthFactorTooLow,
    /// The oracle price is not positive.
    InvalidPrice,
    /// The elapsed time cannot be computed.
    InvalidTimestamp,
    /// The position is not active.
    PositionNotActive,
    /// A token balance is too small for the requested burn.
    InsufficientBalance,
    /// The position or the vault holds less collateral than requested.
    InsufficientCollateral,
    /// The loan-to-value ratio is below the liquidation threshold.
    PositionNotLiquidatable,
}

} // verus!

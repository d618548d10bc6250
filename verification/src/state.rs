//! The program's accounts, as the rules read them.
use vstd::prelude::*;

verus! {

broadcast use vstd::array::group_array_axioms;

/// The 32-byte address of an account.
#[derive(Debug, Clone, Copy)]
pub struct Key {
    pub bytes: [u8; 32],
}

impl Key {
    /// Whether two addresses are the same.
    pub fn same_as(&self, other: &Key) -> (r: bool)
        ensures
            r == (*self == *other),
    {
        let mut i: usize = 0;
        while i < 32
            invariant
                i <= 32,
                forall|j: int| 0 <= j < i ==> self.bytes@[j] == other.bytes@[j],
            decreases 32 - i,
        {
            if self.bytes[i] != other.bytes[i] {
                return false;
            }
            i = i + 1;
        }
        assert(self.bytes@ =~= other.bytes@);
        assert(self.bytes == other.bytes);
        true
    }
}

/// The program's configuration, kept in one account and set by its authority.
#[derive(Debug, Clone, Copy)]
pub struct Config {
    pub authority: Key,
    pub stablecoin_mint: Key,
    /// The highest loan-to-value ratio at which one may borrow, in basis points.
    pub max_ltv_bps: u16,
    /// The loan-to-value ratio from which a position may be liquidated.
    pub liquidation_ltv_bps: u16,
    /// The share of the debt that a liquidator receives on top, in collateral.
    pub liquidation_bonus_bps: u16,
    /// The lowest health factor that a borrower may leave a position at.
    pub min_health_factor_bps: u16,
    /// The yearly interest rate on debt, in basis points.
    pub borrow_rate_bps: u16,
    /// The most stablecoin that may be in circulation.
    pub supply_cap: u64,
    pub treasury: Key,
    pub paused: bool,
    pub bump: u8,
    pub mint_authority_bump: u8,
}

impl Config {
    /// The risk parameters that the program's checks keep: both LTVs in
    /// `1..=10000` with the maximum below the liquidation threshold, a bonus
    /// of at most 20%, a minimum health factor from 100% to 200%, and a borrow
    /// rate of at most 50% a year.
    pub open spec fn well_formed(&self) -> bool {
        &&& 0 < self.max_ltv_bps
        &&& self.max_ltv_bps < self.liquidation_ltv_bps
        &&& self.liquidation_ltv_bps <= 10000
        &&& self.liquidation_bonus_bps <= 2000
        &&& 10000 <= self.min_health_factor_bps <= 20000
        &&& self.borrow_rate_bps <= 5000
    }
}

/// A borrower's position: the collateral locked in its vault and the debt
/// owed in stablecoin.
#[derive(Debug, Clone, Copy)]
pub struct Position {
    pub owner: Key,
    pub collateral_vault: Key,
    pub deposited_collateral: u64,
    pub debt_shares: u64,
    pub last_update_timestamp: i64,
    pub active: bool,
    pub bump: u8,
    pub vault_bump: u8,
}

} // verus!

use vstd::prelude::*;

verus! {

/// The address of an account: 32 opaque bytes.
#[derive(Clone, Copy, Debug, PartialEq, Eq)]
pub struct Pubkey {
    pub bytes: [u8; 32],
}

/// Where a vault stands in its deactivation life cycle.
#[derive(Clone, Copy, Debug, PartialEq, Eq, Structural)]
pub enum VaultStatus {
    Active,
    Deactivating,
    Inactive,
}

/// A pool configuration for one token denomination and one owner.
#[derive(Clone, Copy, Debug, PartialEq, Eq)]
pub struct VaultType {
    /// May roll over, drain and close this vault type.
    pub owner: Pubkey,
    /// The token denomination accepted.
    pub mint: Pubkey,
    /// The custodial account that holds every deposit of this vault type.
    pub pool: Pubkey,
    /// Start of the current season, in seconds.
    pub season_start: i64,
    /// Length of a season, in seconds.
    pub season_duration: i64,
    /// Configured cap on one depositor's balance; stored, not enforced.
    pub max_deposit_per_user: u64,
    /// Sum of the balances of the vaults of this vault type.
    pub total_deposit: u64,
    /// Whether deactivation takes effect at once or at the season's end.
    pub instant_deactivation: bool,
    /// The bump seed of this record's derived address.
    pub bump: u8,
}

impl VaultType {
    /// The instant at which the current season ends.
    pub open spec fn season_end(self) -> int {
        self.season_start + self.season_duration
    }
}

/// One depositor's balance and status against a vault type.
#[derive(Clone, Copy, Debug, PartialEq, Eq)]
pub struct Vault {
    /// The owner of the vault.
    pub owner: Pubkey,
    /// The address of the vault type.
    pub vault_type: Pubkey,
    /// The amount of tokens deposited.
    pub amount: u64,
    /// The instant from which a deactivating vault counts as inactive.
    pub inactive_at: i64,
    /// Current vault status.
    pub status: VaultStatus,
    /// The bump seed of this record's derived address.
    pub bump: u8,
}

/// What the logic reads of a token account.
#[derive(Clone, Copy, Debug, PartialEq, Eq)]
pub struct TokenAccount {
    /// The token denomination held.
    pub mint: Pubkey,
    /// The balance held.
    pub amount: u64,
}

} // verus!

use vstd::prelude::*;

use crate::errors::ErrorCode;
use crate::states::{Pubkey, Vault, VaultStatus, VaultType};

verus! {

/// The records a new vault is created from.
pub struct NewVault {
    /// The record being initialised.
    pub vault: Vault,
    /// The address of the vault type the vault is opened against.
    pub vault_type: Pubkey,
    /// The depositor who owns the vault.
    pub owner: Pubkey,
    /// The bump seed of the vault's derived address.
    pub bump: u8,
}

/// The records a deposit reads and changes.
pub struct Deposit {
    pub vault: Vault,
    pub vault_type: VaultType,
}

/// The records a deactivation reads and changes.
pub struct Deactivate {
    pub vault: Vault,
    pub vault_type: VaultType,
}

/// The records a withdrawal reads and changes.
pub struct Withdraw {
    pub vault: Vault,
    pub vault_type: VaultType,
}

/// The record a vault closure reads.
pub struct CloseVault {
    pub vault: Vault,
}

/// The status a vault has at time `now`: a deactivating vault whose deadline
/// has come counts as inactive.
pub open spec fn status_at(v: Vault, now: i64) -> VaultStatus {
    if v.status == VaultStatus::Deactivating && now >= v.inactive_at {
        VaultStatus::Inactive
    } else {
        v.status
    }
}

/// The vault and vault type after depositing `amount`, or the error.
pub open spec fn deposit_outcome(v: Vault, vt: VaultType, amount: u64) -> Result<(Vault, VaultType), ErrorCode> {
    if v.amount + amount > u64::MAX || vt.total_deposit + amount > u64::MAX {
        Err(ErrorCode::ArithmeticError)
    } else {
        Ok((
            Vault { amount: (v.amount + amount) as u64, status: VaultStatus::Active, ..v },
            VaultType { total_deposit: (vt.total_deposit + amount) as u64, ..vt },
        ))
    }
}

/// The vault after a deactivation request, or the error.
pub open spec fn deactivate_outcome(v: Vault, vt: VaultType) -> Result<Vault, ErrorCode> {
    if v.status == VaultStatus::Inactive {
        Err(ErrorCode::InvalidStatus)
    } else if vt.instant_deactivation {
        Ok(Vault { status: VaultStatus::Inactive, ..v })
    } else if vt.season_end() < i64::MIN || vt.season_end() > i64::MAX {
        Err(ErrorCode::ArithmeticError)
    } else {
        Ok(Vault { status: VaultStatus::Deactivating, inactive_at: vt.season_end() as i64, ..v })
    }
}

/// The vault and vault type after withdrawing `amount` at time `now`, or the
/// error.
pub open spec fn withdraw_outcome(v: Vault, vt: VaultType, amount: u64, now: i64) -> Result<(Vault, VaultType), ErrorCode> {
    if amount > v.amount {
        Err(ErrorCode::InsufficientDeposit)
    } else if status_at(v, now) != VaultStatus::Inactive {
        Err(ErrorCode::InvalidStatus)
    } else if amount > vt.total_deposit {
        Err(ErrorCode::ArithmeticError)
    } else {
        Ok((
            Vault { amount: (v.amount - amount) as u64, status: VaultStatus::Inactive, ..v },
            VaultType { total_deposit: (vt.total_deposit - amount) as u64, ..vt },
        ))
    }
}

/// Withdraws `amount` from the vault at time `now`. A deactivating vault
/// whose deadline has come becomes inactive first; then the balance must
/// cover `amount` and the vault must be inactive. On success the caller moves
/// `amount` tokens out of the pool, under the vault type's authority.
pub fn withdraw(ctx: &mut Withdraw, amount: u64, now: i64) -> (r: Result<(), ErrorCode>)
    ensures
        match withdraw_outcome(old(ctx).vault, old(ctx).vault_type, amount, now) {
            Ok((v, vt)) => r is Ok && final(ctx).vault == v && final(ctx).vault_type == vt,
            Err(e) => r == Err::<(), ErrorCode>(e) && *final(ctx) == *old(ctx),
        },
        r is Ok ==> final(ctx).vault.amount == old(ctx).vault.amount - amount,
        r is Ok ==> final(ctx).vault.status == VaultStatus::Inactive,
        amount > old(ctx).vault.amount ==> r == Err::<(), ErrorCode>(ErrorCode::InsufficientDeposit),
        amount <= old(ctx).vault.amount && old(ctx).vault.status == VaultStatus::Active
            ==> r == Err::<(), ErrorCode>(ErrorCode::InvalidStatus),
{
    let mut status = ctx.vault.status;
    if status == VaultStatus::Deactivating && now >= ctx.vault.inactive_at {
        status = VaultStatus::Inactive;
    }
    if ctx.vault.amount < amount {
        return Err(ErrorCode::InsufficientDeposit);
    }
    if status != VaultStatus::Inactive {
        return Err(ErrorCode::InvalidStatus);
    }
    let new_total = match ctx.vault_type.total_deposit.checked_sub(amount) {
        Some(t) => t,
        None => return Err(ErrorCode::ArithmeticError),
    };
    ctx.vault.amount = ctx.vault.amount - amount;
    ctx.vault.status = status;
    ctx.vault_type.total_deposit = new_total;
    Ok(())
}

/// Deposits `amount` into the vault and marks it active, whatever its status
/// was. On success the caller moves `amount` tokens from the depositor into
/// the pool.
pub fn deposit(ctx: &mut Deposit, amount: u64) -> (r: Result<(), ErrorCode>)
    ensures
        match deposit_outcome(old(ctx).vault, old(ctx).vault_type, amount) {
            Ok((v, vt)) => r is Ok && final(ctx).vault == v && final(ctx).vault_type == vt,
            Err(e) => r == Err::<(), ErrorCode>(e) && *final(ctx) == *old(ctx),
        },
        r is Ok <==> old(ctx).vault.amount + amount <= u64::MAX
            && old(ctx).vault_type.total_deposit + amount <= u64::MAX,
        r is Ok ==> final(ctx).vault.status == VaultStatus::Active,
        r is Ok ==> final(ctx).vault.amount == old(ctx).vault.amount + amount,
        r is Ok ==> final(ctx).vault_type.total_deposit == old(ctx).vault_type.total_deposit + amount,
{
    let new_amount = match ctx.vault.amount.checked_add(amount) {
        Some(a) => a,
        None => return Err(ErrorCode::ArithmeticError),
    };
    let new_total = match ctx.vault_type.total_deposit.checked_add(amount) {
        Some(t) => t,
        None => return Err(ErrorCode::ArithmeticError),
    };
    ctx.vault.amount = new_amount;
    ctx.vault.status = VaultStatus::Active;
    ctx.vault_type.total_deposit = new_total;
    Ok(())
}

/// Asks for the vault to become inactive. Under an instant policy it does at
/// once; otherwise it is deactivating until the end of the vault type's
/// current season.
pub fn deactivate(ctx: &mut Deactivate) -> (r: Result<(), ErrorCode>)
    ensures
        match deactivate_outcome(old(ctx).vault, old(ctx).vault_type) {
            Ok(v) => r is Ok && final(ctx).vault == v,
            Err(e) => r == Err::<(), ErrorCode>(e) && final(ctx).vault == old(ctx).vault,
        },
        final(ctx).vault_type == old(ctx).vault_type,
        old(ctx).vault.status == VaultStatus::Inactive
            ==> r == Err::<(), ErrorCode>(ErrorCode::InvalidStatus),
        old(ctx).vault.status != VaultStatus::Inactive && old(ctx).vault_type.instant_deactivation
            ==> r is Ok && final(ctx).vault.status == VaultStatus::Inactive,
        old(ctx).vault.status != VaultStatus::Inactive && !old(ctx).vault_type.instant_deactivation
            && i64::MIN <= old(ctx).vault_type.season_end() <= i64::MAX
            ==> r is Ok && final(ctx).vault.status == VaultStatus::Deactivating
                && final(ctx).vault.inactive_at == old(ctx).vault_type.season_end(),
{
    if ctx.vault.status == VaultStatus::Inactive {
        return Err(ErrorCode::InvalidStatus);
    }
    if ctx.vault_type.instant_deactivation {
        ctx.vault.status = VaultStatus::Inactive;
    } else {
        let end = match ctx.vault_type.season_start.checked_add(ctx.vault_type.season_duration) {
            Some(e) => e,
            None => return Err(ErrorCode::ArithmeticError),
        };
        ctx.vault.status = VaultStatus::Deactivating;
        ctx.vault.inactive_at = end;
    }
    Ok(())
}

/// Initialises a vault: inactive, with nothing deposited.
pub fn new_vault(ctx: &mut NewVault) -> (r: Result<(), ErrorCode>)
    ensures
        r is Ok,
        final(ctx).vault == (Vault {
            owner: old(ctx).owner,
            vault_type: old(ctx).vault_type,
            amount: 0,
            inactive_at: 0,
            status: VaultStatus::Inactive,
            bump: old(ctx).bump,
        }),
        final(ctx).vault_type == old(ctx).vault_type,
        final(ctx).owner == old(ctx).owner,
        final(ctx).bump == old(ctx).bump,
{
    ctx.vault = Vault {
        owner: ctx.owner,
        vault_type: ctx.vault_type,
        amount: 0,
        inactive_at: 0,
        status: VaultStatus::Inactive,
        bump: ctx.bump,
    };
    Ok(())
}

/// Allows a vault to be closed only once nothing is deposited in it.
pub fn close_vault(ctx: &CloseVault) -> (r: Result<(), ErrorCode>)
    ensures
        r == if ctx.vault.amount == 0 {
            Ok::<(), ErrorCode>(())
        } else {
            Err(ErrorCode::DepositRemaining)
        },
{
    if ctx.vault.amount != 0 {
        return Err(ErrorCode::DepositRemaining);
    }
    Ok(())
}

} // verus!

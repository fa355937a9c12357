use vstd::prelude::*;

use crate::errors::ErrorCode;
use crate::states::{Pubkey, TokenAccount, VaultType};

verus! {

/// The records a new vault type is created from.
pub struct NewVaultType {
    /// The record being initialised.
    pub vault_type: VaultType,
    /// The token denomination of the vault type.
    pub mint: Pubkey,
    /// The owner of the vault type.
    pub owner: Pubkey,
    /// The address of the custodial pool.
    pub pool: Pubkey,
    /// The bump seed of the vault type's derived address.
    pub bump: u8,
}

/// The record a season rollover reads and changes.
pub struct RollOverVaultType {
    pub vault_type: VaultType,
}

/// The records a drain of the pool reads.
pub struct WithdrawFromPool {
    pub vault_type: VaultType,
    pub pool: TokenAccount,
}

/// The records a vault type closure reads.
pub struct CloseVaultType {
    pub vault_type: VaultType,
    pub pool: TokenAccount,
}

/// Whether the season window of a new vault type is well formed.
pub open spec fn valid_season(season_start: i64, season_duration: i64) -> bool {
    season_start > 0 && season_duration > 0
}

/// The vault type after a rollover at time `now`, or the error: once the
/// season has ended, the next one starts where it ended.
pub open spec fn roll_over_outcome(vt: VaultType, now: i64) -> Result<VaultType, ErrorCode> {
    if vt.season_end() < i64::MIN || vt.season_end() > i64::MAX {
        Err(ErrorCode::ArithmeticError)
    } else if now > vt.season_end() {
        Ok(VaultType { season_start: vt.season_end() as i64, ..vt })
    } else {
        Ok(vt)
    }
}

/// Initialises a vault type with the given season window and policy, bound to
/// its owner, mint and pool, with nothing deposited.
pub fn new_vault_type(
    ctx: &mut NewVaultType,
    season_start: i64,
    season_duration: i64,
    max_deposit_per_user: u64,
    instant_deactivation: bool,
) -> (r: Result<(), ErrorCode>)
    ensures
        r is Ok <==> valid_season(season_start, season_duration),
        r is Err ==> r == Err::<(), ErrorCode>(ErrorCode::InvalidParameter) && *final(ctx) == *old(ctx),
        r is Ok ==> final(ctx).vault_type == (VaultType {
            owner: old(ctx).owner,
            mint: old(ctx).mint,
            pool: old(ctx).pool,
            season_start,
            season_duration,
            max_deposit_per_user,
            total_deposit: 0,
            instant_deactivation,
            bump: old(ctx).bump,
        }),
        final(ctx).mint == old(ctx).mint,
        final(ctx).owner == old(ctx).owner,
        final(ctx).pool == old(ctx).pool,
        final(ctx).bump == old(ctx).bump,
{
    if !(season_start > 0 && season_duration > 0) {
        return Err(ErrorCode::InvalidParameter);
    }
    ctx.vault_type = VaultType {
        owner: ctx.owner,
        mint: ctx.mint,
        pool: ctx.pool,
        season_start,
        season_duration,
        max_deposit_per_user,
        total_deposit: 0,
        instant_deactivation,
        bump: ctx.bump,
    };
    Ok(())
}

/// Advances the season by one step once it has ended at time `now`; a
/// rollover that is several seasons behind takes one call per season.
pub fn roll_over_vault_type(ctx: &mut RollOverVaultType, now: i64) -> (r: Result<(), ErrorCode>)
    ensures
        match roll_over_outcome(old(ctx).vault_type, now) {
            Ok(vt) => r is Ok && final(ctx).vault_type == vt,
            Err(e) => r == Err::<(), ErrorCode>(e) && final(ctx).vault_type == old(ctx).vault_type,
        },
{
    let season_end = match ctx.vault_type.season_start.checked_add(ctx.vault_type.season_duration) {
        Some(e) => e,
        None => return Err(ErrorCode::ArithmeticError),
    };
    if now > season_end {
        ctx.vault_type.season_start = season_end;
    }
    Ok(())
}

/// Lets the owner drain any amount from the pool to a destination of the same
/// mint, whatever the vaults record. No record changes, and the only balance
/// check is the one the token transfer itself makes.
pub fn withdraw_from_pool(ctx: &WithdrawFromPool, amount: u64) -> (r: Result<(), ErrorCode>)
    ensures
        r is Ok,
{
    Ok(())
}

/// Allows a vault type to be closed only when no deposit is recorded and its
/// pool is empty.
pub fn close_vault_type(ctx: &CloseVaultType) -> (r: Result<(), ErrorCode>)
    ensures
        r == if ctx.vault_type.total_deposit != 0 {
            Err(ErrorCode::DepositRemaining)
        } else if ctx.pool.amount != 0 {
            Err(ErrorCode::PoolRemaining)
        } else {
            Ok::<(), ErrorCode>(())
        },
{
    if ctx.vault_type.total_deposit != 0 {
        return Err(ErrorCode::DepositRemaining);
    }
    if ctx.pool.amount != 0 {
        return Err(ErrorCode::PoolRemaining);
    }
    Ok(())
}

} // verus!

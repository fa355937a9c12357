use vstd::prelude::*;

use crate::errors::ErrorCode;
use crate::ledger::{deactivate_outcome, deposit_outcome, withdraw_outcome};
use crate::registry::roll_over_outcome;
use crate::states::{Vault, VaultStatus, VaultType};

verus! {

/// One operation on a vault, as a depositor issues it.
pub enum LedgerOp {
    /// Deposit an amount.
    Deposit(u64),
    /// Ask for deactivation.
    Deactivate,
    /// Withdraw an amount at a given time.
    Withdraw(u64, i64),
}

/// The vault and vault type after one operation; a failed operation changes
/// nothing.
pub open spec fn apply_op(v: Vault, vt: VaultType, op: LedgerOp) -> (Vault, VaultType) {
    match op {
        LedgerOp::Deposit(a) => match deposit_outcome(v, vt, a) {
            Ok(p) => p,
            Err(_) => (v, vt),
        },
        LedgerOp::Deactivate => match deactivate_outcome(v, vt) {
            Ok(v2) => (v2, vt),
            Err(_) => (v, vt),
        },
        LedgerOp::Withdraw(a, now) => match withdraw_outcome(v, vt, a, now) {
            Ok(p) => p,
            Err(_) => (v, vt),
        },
    }
}

/// The tokens one operation moves into the pool (negative: out of it).
pub open spec fn op_flow(v: Vault, vt: VaultType, op: LedgerOp) -> int {
    match op {
        LedgerOp::Deposit(a) => if deposit_outcome(v, vt, a) is Ok { a as int } else { 0 },
        LedgerOp::Deactivate => 0,
        LedgerOp::Withdraw(a, now) => if withdraw_outcome(v, vt, a, now) is Ok { -a } else { 0 },
    }
}

/// The vault and vault type after a sequence of operations.
pub open spec fn run(v: Vault, vt: VaultType, ops: Seq<LedgerOp>) -> (Vault, VaultType)
    decreases ops.len(),
{
    if ops.len() == 0 {
        (v, vt)
    } else {
        let (v1, vt1) = run(v, vt, ops.drop_last());
        apply_op(v1, vt1, ops.last())
    }
}

/// The sum of the successful deposits of a sequence of operations, less the
/// sum of its successful withdrawals.
pub open spec fn net_flow(v: Vault, vt: VaultType, ops: Seq<LedgerOp>) -> int
    decreases ops.len(),
{
    if ops.len() == 0 {
        0
    } else {
        let (v1, vt1) = run(v, vt, ops.drop_last());
        net_flow(v, vt, ops.drop_last()) + op_flow(v1, vt1, ops.last())
    }
}

/// Over any sequence of deposits, deactivations and withdrawals, the vault's
/// balance is its starting balance plus the successful deposits less the
/// successful withdrawals, and never negative; the vault type's total moves by
/// the same amount.
pub proof fn balance_follows_deposits_and_withdrawals(v: Vault, vt: VaultType, ops: Seq<LedgerOp>)
    ensures
        run(v, vt, ops).0.amount == v.amount + net_flow(v, vt, ops),
        run(v, vt, ops).1.total_deposit == vt.total_deposit + net_flow(v, vt, ops),
        v.amount + net_flow(v, vt, ops) >= 0,
    decreases ops.len(),
{
    if ops.len() > 0 {
        balance_follows_deposits_and_withdrawals(v, vt, ops.drop_last());
    }
}

/// A deactivating vault that holds the amount asked for cannot be withdrawn
/// from before its deadline, and can from the deadline on, becoming inactive.
pub proof fn withdrawal_waits_for_deadline(v: Vault, vt: VaultType, amount: u64, now: i64)
    requires
        v.status == VaultStatus::Deactivating,
        amount <= v.amount,
        v.amount <= vt.total_deposit,
    ensures
        now < v.inactive_at ==> withdraw_outcome(v, vt, amount, now) == Err::<(Vault, VaultType), ErrorCode>(
            ErrorCode::InvalidStatus,
        ),
        now >= v.inactive_at ==> withdraw_outcome(v, vt, amount, now) is Ok
            && withdraw_outcome(v, vt, amount, now)->Ok_0.0.status == VaultStatus::Inactive
            && withdraw_outcome(v, vt, amount, now)->Ok_0.0.amount == v.amount - amount,
{
}

/// A rollover changes nothing while the season lasts; once it has ended, one
/// call starts the next season exactly where the current one ended, and
/// changes nothing else.
pub proof fn rollover_advances_one_season(vt: VaultType, now: i64)
    requires
        i64::MIN <= vt.season_end() <= i64::MAX,
    ensures
        now <= vt.season_end() ==> roll_over_outcome(vt, now) == Ok::<VaultType, ErrorCode>(vt),
        now > vt.season_end() ==> roll_over_outcome(vt, now) == Ok::<VaultType, ErrorCode>(
            VaultType { season_start: vt.season_end() as i64, ..vt },
        ),
        now > vt.season_end() ==> roll_over_outcome(vt, now)->Ok_0.season_end() == vt.season_end()
            + vt.season_duration,
{
}

} // verus!

use vstd::prelude::*;

verus! {

/// Every way an operation on a vault type or a vault can fail. A failed
/// operation leaves every record it was given unchanged.
#[derive(Clone, Copy, Debug, PartialEq, Eq, Structural)]
pub enum ErrorCode {
    /// Malformed configuration when a vault type is created.
    InvalidParameter,
    /// An overflow or underflow in balance or timestamp arithmetic.
    ArithmeticError,
    /// The vault's status forbids the operation.
    InvalidStatus,
    /// A vault or vault type that is being closed still records a balance.
    DepositRemaining,
    /// A withdrawal asks for more than the vault records.
    InsufficientDeposit,
    /// A vault type that is being closed still holds tokens in its pool.
    PoolRemaining,
}

} // verus!

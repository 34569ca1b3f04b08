//! Why an operation on a lock was refused.

use vstd::prelude::*;

verus! {

/// Every refusal is decided before anything is written, so a refused
/// operation leaves the record and every balance as they were.
#[derive(Clone, Copy, Debug, PartialEq, Eq, Structural)]
pub enum TimeLockError {
    /// A withdrawal came before the unlock time.
    TimeLockNotExpired,
    /// A lock was to be created with a zero amount.
    InvalidAmount,
    /// A lock was to be created with an unlock time that is not in the future.
    UnlockInPast,
    /// No bump yields a custody address for the caller.
    BumpMissing,
    /// The record belongs to the other custody path.
    WrongAssetKind,
    /// A token withdrawal found the custody holding account empty.
    InsufficientVaultBalance,
    /// The caller is not the recorded depositor, or the custody address or
    /// stored bump is not the one derived for the caller.
    AuthorizationFailure,
    /// A lock is still live at the custody address.
    LockAlreadyActive,
    /// No lock is recorded at the custody address.
    LockNotFound,
    /// The balance transfer cannot be made: the source holds too little, or
    /// the destination balance would exceed its range.
    TransferFailed,
}

} // verus!

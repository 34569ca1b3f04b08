//! The persisted lock record.

use vstd::prelude::*;
use crate::address::{Address, AssetKind};

verus! {

/// One depositor's lock of one asset kind.
#[derive(Clone, Copy, Debug, PartialEq, Eq)]
pub struct TimeLockAccount {
    /// The depositor: the only identity that may ever withdraw.
    pub initializer: Address,
    /// The quantity locked at creation.
    pub amount: u64,
    /// Withdrawal is permitted from this time on.
    pub unlock_timestamp: i64,
    /// The bump of the canonical derivation of the custody address.
    pub bump: u8,
    pub kind: AssetKind,
    /// The token class, for a token lock only.
    pub mint: Option<Address>,
}

impl TimeLockAccount {
    /// Size of the persisted record, discriminator included.
    pub const LEN: usize = 8 + 32 + 8 + 8 + 1 + 1 + 1 + 32;

    /// A positive amount, and a token class exactly when the lock holds tokens.
    pub open spec fn wf(self) -> bool {
        &&& self.amount > 0
        &&& (self.kind == AssetKind::Spl) == self.mint.is_some()
    }
}

} // verus!

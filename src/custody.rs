//! The custody address of one lock and the instructions that act on it.
//!
//! Each instruction is given the canonical derivation of the caller's custody
//! address (as the ledger hands it to the program), checks the caller against
//! the stored record, and then commits all of its writes or none of them.

use vstd::prelude::*;
use crate::address::{
    Address, AssetKind, custody_address_of, derive_custody_address, derived_view, same_address,
};
use crate::error::TimeLockError;
use crate::record::TimeLockAccount;

verus! {

/// What the ledger holds at one custody address.
#[derive(Clone, Copy, Debug, PartialEq, Eq)]
pub struct Custody {
    /// The custody address.
    pub key: Address,
    /// The live lock record, if any.
    pub record: Option<TimeLockAccount>,
    /// The custodied balance: native units held at the address for a native
    /// lock, units in the custody holding account for a token lock.
    pub balance: u64,
}

impl Custody {
    /// A live record is well formed.
    pub open spec fn wf(self) -> bool {
        match self.record {
            Some(rec) => rec.wf(),
            None => true,
        }
    }
}

/// Whether a caller may act on the live record: it must exist, name the
/// caller as depositor, and sit at the caller's canonical custody address
/// with the canonical bump.
pub open spec fn holder_check(
    c: Custody,
    canonical: Option<(Seq<u8>, u8)>,
    signer: Address,
) -> Result<TimeLockAccount, TimeLockError> {
    match c.record {
        None => Err(TimeLockError::LockNotFound),
        Some(rec) => if rec.initializer.bytes@ != signer.bytes@ {
            Err(TimeLockError::AuthorizationFailure)
        } else {
            match canonical {
                None => Err(TimeLockError::BumpMissing),
                Some((a, b)) => if a != c.key.bytes@ || b != rec.bump {
                    Err(TimeLockError::AuthorizationFailure)
                } else {
                    Ok(rec)
                },
            }
        },
    }
}

/// Whether a lock may be created: a positive amount, a future unlock time,
/// the caller's canonical custody address, and no live record there. On
/// success, the bump to store.
pub open spec fn create_check(
    c: Custody,
    canonical: Option<(Seq<u8>, u8)>,
    amount: u64,
    unlock_timestamp: i64,
    now: i64,
) -> Result<u8, TimeLockError> {
    if amount == 0 {
        Err(TimeLockError::InvalidAmount)
    } else if unlock_timestamp <= now {
        Err(TimeLockError::UnlockInPast)
    } else {
        match canonical {
            None => Err(TimeLockError::BumpMissing),
            Some((a, b)) => if a != c.key.bytes@ {
                Err(TimeLockError::AuthorizationFailure)
            } else if c.record.is_some() {
                Err(TimeLockError::LockAlreadyActive)
            } else {
                Ok(b)
            },
        }
    }
}

/// Whether `amount` can move from a balance of `from` into one of `to`.
pub open spec fn can_transfer(from: u64, to: u64, amount: u64) -> bool {
    from >= amount && to + amount <= u64::MAX
}

/// Registering a native lock: the record is written, no balance moves.
pub open spec fn initialize_lock_sol_spec(
    c: Custody,
    canonical: Option<(Seq<u8>, u8)>,
    initializer: Address,
    amount: u64,
    unlock_timestamp: i64,
    now: i64,
) -> (Result<(), TimeLockError>, Custody) {
    match create_check(c, canonical, amount, unlock_timestamp, now) {
        Err(e) => (Err(e), c),
        Ok(bump) => (
            Ok(()),
            Custody {
                record: Some(
                    TimeLockAccount {
                        initializer,
                        amount,
                        unlock_timestamp,
                        bump,
                        kind: AssetKind::Sol,
                        mint: None,
                    },
                ),
                ..c
            },
        ),
    }
}

/// Funding a registered native lock: `amount` moves from the depositor's
/// balance `payer` to the custody address.
pub open spec fn fund_sol_lock_spec(
    c: Custody,
    canonical: Option<(Seq<u8>, u8)>,
    signer: Address,
    payer: u64,
    amount: u64,
) -> (Result<(), TimeLockError>, Custody, u64) {
    match holder_check(c, canonical, signer) {
        Err(e) => (Err(e), c, payer),
        Ok(_) => if !can_transfer(payer, c.balance, amount) {
            (Err(TimeLockError::TransferFailed), c, payer)
        } else {
            (Ok(()), Custody { balance: (c.balance + amount) as u64, ..c }, (payer - amount) as u64)
        },
    }
}

/// Creating and funding a token lock at once: the record is written and
/// `amount` moves from the depositor's holding account `payer` to custody.
pub open spec fn initialize_lock_spl_spec(
    c: Custody,
    canonical: Option<(Seq<u8>, u8)>,
    initializer: Address,
    mint: Address,
    payer: u64,
    amount: u64,
    unlock_timestamp: i64,
    now: i64,
) -> (Result<(), TimeLockError>, Custody, u64) {
    match create_check(c, canonical, amount, unlock_timestamp, now) {
        Err(e) => (Err(e), c, payer),
        Ok(bump) => if !can_transfer(payer, c.balance, amount) {
            (Err(TimeLockError::TransferFailed), c, payer)
        } else {
            (
                Ok(()),
                Custody {
                    record: Some(
                        TimeLockAccount {
                            initializer,
                            amount,
                            unlock_timestamp,
                            bump,
                            kind: AssetKind::Spl,
                            mint: Some(mint),
                        },
                    ),
                    balance: (c.balance + amount) as u64,
                    ..c
                },
                (payer - amount) as u64,
            )
        },
    }
}

/// Why a withdrawal of the given kind is refused, if it is.
pub open spec fn withdraw_check(
    kind: AssetKind,
    c: Custody,
    canonical: Option<(Seq<u8>, u8)>,
    signer: Address,
    dest: u64,
    now: i64,
) -> Option<TimeLockError> {
    match holder_check(c, canonical, signer) {
        Err(e) => Some(e),
        Ok(rec) => if rec.kind != kind {
            Some(TimeLockError::WrongAssetKind)
        } else if now < rec.unlock_timestamp {
            Some(TimeLockError::TimeLockNotExpired)
        } else if kind == AssetKind::Spl && c.balance == 0 {
            Some(TimeLockError::InsufficientVaultBalance)
        } else if !can_transfer(c.balance, dest, c.balance) {
            Some(TimeLockError::TransferFailed)
        } else {
            None
        },
    }
}

/// Withdrawing: the whole live custody balance (not the recorded amount)
/// goes to the depositor's balance `dest`, and the record is retired.
pub open spec fn withdraw_spec(
    kind: AssetKind,
    c: Custody,
    canonical: Option<(Seq<u8>, u8)>,
    signer: Address,
    dest: u64,
    now: i64,
) -> (Result<u64, TimeLockError>, Custody, u64) {
    match withdraw_check(kind, c, canonical, signer, dest, now) {
        Some(e) => (Err(e), c, dest),
        None => (Ok(c.balance), Custody { record: None, balance: 0, ..c }, (dest + c.balance) as u64),
    }
}

impl Custody {
    /// An empty custody address: no record, no balance.
    pub fn new(key: Address) -> (r: Custody)
        ensures
            r == (Custody { key, record: None, balance: 0 }),
    {
        Custody { key, record: None, balance: 0 }
    }

    /// Checks that `signer` may act on the live record, and returns it.
    pub fn check_holder(&self, canonical: Option<(Address, u8)>, signer: &Address) -> (r: Result<
        TimeLockAccount,
        TimeLockError,
    >)
        ensures
            r == holder_check(*self, derived_view(canonical), *signer),
    {
        match &self.record {
            None => Err(TimeLockError::LockNotFound),
            Some(rec) => {
                if !same_address(&rec.initializer, signer) {
                    return Err(TimeLockError::AuthorizationFailure);
                }
                match canonical {
                    None => Err(TimeLockError::BumpMissing),
                    Some((a, b)) => {
                        if !same_address(&a, &self.key) || b != rec.bump {
                            Err(TimeLockError::AuthorizationFailure)
                        } else {
                            Ok(*rec)
                        }
                    },
                }
            },
        }
    }

    /// Checks that a lock may be created here, and returns the bump to store.
    pub fn check_create(
        &self,
        canonical: Option<(Address, u8)>,
        amount: u64,
        unlock_timestamp: i64,
        now: i64,
    ) -> (r: Result<u8, TimeLockError>)
        ensures
            r == create_check(*self, derived_view(canonical), amount, unlock_timestamp, now),
    {
        if amount == 0 {
            return Err(TimeLockError::InvalidAmount);
        }
        if unlock_timestamp <= now {
            return Err(TimeLockError::UnlockInPast);
        }
        match canonical {
            None => Err(TimeLockError::BumpMissing),
            Some((a, b)) => {
                if !same_address(&a, &self.key) {
                    Err(TimeLockError::AuthorizationFailure)
                } else if self.record.is_some() {
                    Err(TimeLockError::LockAlreadyActive)
                } else {
                    Ok(b)
                }
            },
        }
    }

    /// Registers a native lock, given the caller's canonical custody address.
    pub fn apply_initialize_lock_sol(
        &mut self,
        canonical: Option<(Address, u8)>,
        initializer: &Address,
        amount_lamports: u64,
        unlock_timestamp: i64,
        now: i64,
    ) -> (r: Result<(), TimeLockError>)
        ensures
            (r, *final(self)) == initialize_lock_sol_spec(
                *old(self),
                derived_view(canonical),
                *initializer,
                amount_lamports,
                unlock_timestamp,
                now,
            ),
    {
        let bump = match self.check_create(canonical, amount_lamports, unlock_timestamp, now) {
            Ok(b) => b,
            Err(e) => return Err(e),
        };
        self.record = Some(
            TimeLockAccount {
                initializer: *initializer,
                amount: amount_lamports,
                unlock_timestamp,
                bump,
                kind: AssetKind::Sol,
                mint: None,
            },
        );
        Ok(())
    }

    /// Moves `amount_lamports` from the depositor's balance `payer` into
    /// custody, given the caller's canonical custody address.
    pub fn apply_fund_sol_lock(
        &mut self,
        canonical: Option<(Address, u8)>,
        initializer: &Address,
        payer: &mut u64,
        amount_lamports: u64,
    ) -> (r: Result<(), TimeLockError>)
        ensures
            (r, *final(self), *final(payer)) == fund_sol_lock_spec(
                *old(self),
                derived_view(canonical),
                *initializer,
                *old(payer),
                amount_lamports,
            ),
    {
        if let Err(e) = self.check_holder(canonical, initializer) {
            return Err(e);
        }
        if *payer < amount_lamports || amount_lamports > u64::MAX - self.balance {
            return Err(TimeLockError::TransferFailed);
        }
        *payer = *payer - amount_lamports;
        self.balance = self.balance + amount_lamports;
        Ok(())
    }

    /// Creates a token lock of class `mint` and moves `amount` from the
    /// depositor's holding account `payer` into custody, given the caller's
    /// canonical custody address.
    pub fn apply_initialize_lock_spl(
        &mut self,
        canonical: Option<(Address, u8)>,
        initializer: &Address,
        mint: &Address,
        payer: &mut u64,
        amount: u64,
        unlock_timestamp: i64,
        now: i64,
    ) -> (r: Result<(), TimeLockError>)
        ensures
            (r, *final(self), *final(payer)) == initialize_lock_spl_spec(
                *old(self),
                derived_view(canonical),
                *initializer,
                *mint,
                *old(payer),
                amount,
                unlock_timestamp,
                now,
            ),
    {
        let bump = match self.check_create(canonical, amount, unlock_timestamp, now) {
            Ok(b) => b,
            Err(e) => return Err(e),
        };
        if *payer < amount || amount > u64::MAX - self.balance {
            return Err(TimeLockError::TransferFailed);
        }
        self.record = Some(
            TimeLockAccount {
                initializer: *initializer,
                amount,
                unlock_timestamp,
                bump,
                kind: AssetKind::Spl,
                mint: Some(*mint),
            },
        );
        *payer = *payer - amount;
        self.balance = self.balance + amount;
        Ok(())
    }

    /// Withdraws a lock of `kind`: the whole custody balance goes to the
    /// depositor's balance `dest` and the record is retired. Returns the
    /// quantity moved.
    pub fn apply_withdraw(
        &mut self,
        kind: AssetKind,
        canonical: Option<(Address, u8)>,
        initializer: &Address,
        dest: &mut u64,
        now: i64,
    ) -> (r: Result<u64, TimeLockError>)
        ensures
            (r, *final(self), *final(dest)) == withdraw_spec(
                kind,
                *old(self),
                derived_view(canonical),
                *initializer,
                *old(dest),
                now,
            ),
    {
        let rec = match self.check_holder(canonical, initializer) {
            Ok(rec) => rec,
            Err(e) => return Err(e),
        };
        if rec.kind != kind {
            return Err(TimeLockError::WrongAssetKind);
        }
        if now < rec.unlock_timestamp {
            return Err(TimeLockError::TimeLockNotExpired);
        }
        let vault_balance = self.balance;
        if kind == AssetKind::Spl && vault_balance == 0 {
            return Err(TimeLockError::InsufficientVaultBalance);
        }
        if vault_balance > u64::MAX - *dest {
            return Err(TimeLockError::TransferFailed);
        }
        *dest = *dest + vault_balance;
        self.balance = 0;
        self.record = None;
        Ok(vault_balance)
    }
}

impl Custody {
    /// Registers a native lock of `amount_lamports` for `initializer`, to be
    /// released from `unlock_timestamp` on; `now` is the ledger clock.
    pub fn initialize_lock_sol(
        &mut self,
        program_id: &Address,
        initializer: &Address,
        amount_lamports: u64,
        unlock_timestamp: i64,
        now: i64,
    ) -> (r: Result<(), TimeLockError>)
        ensures
            (r, *final(self)) == initialize_lock_sol_spec(
                *old(self),
                custody_address_of(AssetKind::Sol, *initializer, *program_id),
                *initializer,
                amount_lamports,
                unlock_timestamp,
                now,
            ),
    {
        let canonical = derive_custody_address(AssetKind::Sol, initializer, program_id);
        self.apply_initialize_lock_sol(canonical, initializer, amount_lamports, unlock_timestamp, now)
    }

    /// Moves `amount_lamports` from the depositor's balance `payer` into the
    /// custody of their registered native lock.
    pub fn fund_sol_lock(
        &mut self,
        program_id: &Address,
        initializer: &Address,
        payer: &mut u64,
        amount_lamports: u64,
    ) -> (r: Result<(), TimeLockError>)
        ensures
            (r, *final(self), *final(payer)) == fund_sol_lock_spec(
                *old(self),
                custody_address_of(AssetKind::Sol, *initializer, *program_id),
                *initializer,
                *old(payer),
                amount_lamports,
            ),
    {
        let canonical = derive_custody_address(AssetKind::Sol, initializer, program_id);
        self.apply_fund_sol_lock(canonical, initializer, payer, amount_lamports)
    }

    /// Releases an expired native lock: the whole balance at the custody
    /// address goes to the depositor's balance `dest`, and the record is closed.
    pub fn withdraw_sol(
        &mut self,
        program_id: &Address,
        initializer: &Address,
        dest: &mut u64,
        now: i64,
    ) -> (r: Result<u64, TimeLockError>)
        ensures
            (r, *final(self), *final(dest)) == withdraw_spec(
                AssetKind::Sol,
                *old(self),
                custody_address_of(AssetKind::Sol, *initializer, *program_id),
                *initializer,
                *old(dest),
                now,
            ),
    {
        let canonical = derive_custody_address(AssetKind::Sol, initializer, program_id);
        self.apply_withdraw(AssetKind::Sol, canonical, initializer, dest, now)
    }

    /// Creates a token lock of class `mint` and moves `amount` from the
    /// depositor's holding account `payer` into the custody holding account.
    pub fn initialize_lock_spl(
        &mut self,
        program_id: &Address,
        initializer: &Address,
        mint: &Address,
        payer: &mut u64,
        amount: u64,
        unlock_timestamp: i64,
        now: i64,
    ) -> (r: Result<(), TimeLockError>)
        ensures
            (r, *final(self), *final(payer)) == initialize_lock_spl_spec(
                *old(self),
                custody_address_of(AssetKind::Spl, *initializer, *program_id),
                *initializer,
                *mint,
                *old(payer),
                amount,
                unlock_timestamp,
                now,
            ),
    {
        let canonical = derive_custody_address(AssetKind::Spl, initializer, program_id);
        self.apply_initialize_lock_spl(canonical, initializer, mint, payer, amount, unlock_timestamp, now)
    }

    /// Releases an expired token lock: the whole live balance of the custody
    /// holding account goes to the depositor's holding account `dest`, and the
    /// record is closed.
    pub fn withdraw_spl(
        &mut self,
        program_id: &Address,
        initializer: &Address,
        dest: &mut u64,
        now: i64,
    ) -> (r: Result<u64, TimeLockError>)
        ensures
            (r, *final(self), *final(dest)) == withdraw_spec(
                AssetKind::Spl,
                *old(self),
                custody_address_of(AssetKind::Spl, *initializer, *program_id),
                *initializer,
                *old(dest),
                now,
            ),
    {
        let canonical = derive_custody_address(AssetKind::Spl, initializer, program_id);
        self.apply_withdraw(AssetKind::Spl, canonical, initializer, dest, now)
    }
}

} // verus!

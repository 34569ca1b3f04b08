//! What holds of every lock, whatever the inputs.

use vstd::prelude::*;
use crate::address::{Address, AssetKind, custody_address_of, tag_of};
use crate::custody::{
    Custody, fund_sol_lock_spec, holder_check, initialize_lock_sol_spec, initialize_lock_spl_spec,
    withdraw_spec,
};
use crate::error::TimeLockError;

verus! {

/// A lock is never created with a zero amount: both creation instructions
/// refuse it with `InvalidAmount`, and nothing is written or moved.
pub proof fn zero_amount_is_refused(
    c: Custody,
    canonical: Option<(Seq<u8>, u8)>,
    initializer: Address,
    mint: Address,
    payer: u64,
    unlock_timestamp: i64,
    now: i64,
)
    ensures
        initialize_lock_sol_spec(c, canonical, initializer, 0, unlock_timestamp, now) == (
        Err::<(), TimeLockError>(TimeLockError::InvalidAmount), c),
        initialize_lock_spl_spec(c, canonical, initializer, mint, payer, 0, unlock_timestamp, now)
            == (Err::<(), TimeLockError>(TimeLockError::InvalidAmount), c, payer),
{
}

/// A lock is never created with an unlock time that is not in the future:
/// with a positive amount, both creation instructions refuse it with
/// `UnlockInPast`, and nothing is written or moved.
pub proof fn past_unlock_is_refused(
    c: Custody,
    canonical: Option<(Seq<u8>, u8)>,
    initializer: Address,
    mint: Address,
    payer: u64,
    amount: u64,
    unlock_timestamp: i64,
    now: i64,
)
    requires
        amount > 0,
        unlock_timestamp <= now,
    ensures
        initialize_lock_sol_spec(c, canonical, initializer, amount, unlock_timestamp, now) == (
        Err::<(), TimeLockError>(TimeLockError::UnlockInPast), c),
        initialize_lock_spl_spec(c, canonical, initializer, mint, payer, amount, unlock_timestamp, now)
            == (Err::<(), TimeLockError>(TimeLockError::UnlockInPast), c, payer),
{
}

/// A successful creation leaves a well-formed record that names the caller as
/// depositor, unlocks strictly after the creation time, and that the caller,
/// and the caller alone, passes the authority check on.
pub proof fn creation_records_the_depositor(
    c: Custody,
    canonical: Option<(Seq<u8>, u8)>,
    initializer: Address,
    mint: Address,
    payer: u64,
    amount: u64,
    unlock_timestamp: i64,
    now: i64,
)
    ensures
        ({
            let (r, c2) = initialize_lock_sol_spec(c, canonical, initializer, amount, unlock_timestamp, now);
            r is Ok ==> {
                &&& c2.wf()
                &&& c2.record.unwrap().unlock_timestamp > now
                &&& c2.record.unwrap().kind == AssetKind::Sol
                &&& holder_check(c2, canonical, initializer) == Ok::<_, TimeLockError>(c2.record.unwrap())
            }
        }),
        ({
            let (r, c2, p2) = initialize_lock_spl_spec(c, canonical, initializer, mint, payer, amount, unlock_timestamp, now);
            r is Ok ==> {
                &&& c2.wf()
                &&& c2.record.unwrap().unlock_timestamp > now
                &&& c2.record.unwrap().kind == AssetKind::Spl
                &&& c2.record.unwrap().mint == Some(mint)
                &&& c2.balance == c.balance + amount
                &&& p2 == payer - amount
                &&& holder_check(c2, canonical, initializer) == Ok::<_, TimeLockError>(c2.record.unwrap())
            }
        }),
{
}

/// Nobody withdraws before the unlock time: the attempt fails and leaves the
/// custody balance, the record and the destination as they were; for the
/// depositor at the right custody address, the failure is `TimeLockNotExpired`.
pub proof fn no_withdrawal_before_unlock(
    kind: AssetKind,
    c: Custody,
    canonical: Option<(Seq<u8>, u8)>,
    signer: Address,
    dest: u64,
    now: i64,
)
    requires
        c.record is Some,
        now < c.record.unwrap().unlock_timestamp,
    ensures
        withdraw_spec(kind, c, canonical, signer, dest, now).0 is Err,
        withdraw_spec(kind, c, canonical, signer, dest, now).1 == c,
        withdraw_spec(kind, c, canonical, signer, dest, now).2 == dest,
        holder_check(c, canonical, signer) is Ok && c.record.unwrap().kind == kind ==> withdraw_spec(
            kind,
            c,
            canonical,
            signer,
            dest,
            now,
        ).0 == Err::<u64, TimeLockError>(TimeLockError::TimeLockNotExpired),
{
}

/// From the unlock time on, the depositor's withdrawal succeeds, moves the
/// whole live custody balance to the depositor and empties custody; after it,
/// every further withdrawal, by anyone at any time, fails with `LockNotFound`.
/// (A token lock must hold a positive balance, and the destination must have
/// room for what it receives.)
pub proof fn withdrawal_after_unlock_succeeds_once(
    kind: AssetKind,
    c: Custody,
    canonical: Option<(Seq<u8>, u8)>,
    signer: Address,
    dest: u64,
    now: i64,
)
    requires
        holder_check(c, canonical, signer) is Ok,
        c.record.unwrap().kind == kind,
        now >= c.record.unwrap().unlock_timestamp,
        kind == AssetKind::Spl ==> c.balance > 0,
        dest + c.balance <= u64::MAX,
    ensures
        ({
            let (r, c2, d2) = withdraw_spec(kind, c, canonical, signer, dest, now);
            &&& r == Ok::<u64, TimeLockError>(c.balance)
            &&& c2.balance == 0
            &&& c2.record is None
            &&& d2 == dest + c.balance
            &&& forall|k: AssetKind, cn: Option<(Seq<u8>, u8)>, s: Address, d: u64, t: i64|
                #[trigger] withdraw_spec(k, c2, cn, s, d, t) == (Err::<u64, TimeLockError>(
                    TimeLockError::LockNotFound,
                ), c2, d)
        }),
{
}

/// Only the recorded depositor can withdraw or fund a lock: anyone else is
/// refused with `AuthorizationFailure`, at any time, and nothing changes.
pub proof fn only_the_depositor_acts(
    kind: AssetKind,
    c: Custody,
    canonical: Option<(Seq<u8>, u8)>,
    signer: Address,
    balance: u64,
    amount: u64,
    now: i64,
)
    requires
        c.record is Some,
        c.record.unwrap().initializer.bytes@ != signer.bytes@,
    ensures
        withdraw_spec(kind, c, canonical, signer, balance, now) == (Err::<u64, TimeLockError>(
            TimeLockError::AuthorizationFailure,
        ), c, balance),
        fund_sol_lock_spec(c, canonical, signer, balance, amount) == (Err::<(), TimeLockError>(
            TimeLockError::AuthorizationFailure,
        ), c, balance),
{
}

/// A token withdrawal from an empty custody holding account is refused with
/// `InsufficientVaultBalance`, even when everything else allows it.
pub proof fn empty_token_custody_is_refused(
    c: Custody,
    canonical: Option<(Seq<u8>, u8)>,
    signer: Address,
    dest: u64,
    now: i64,
)
    requires
        holder_check(c, canonical, signer) is Ok,
        c.record.unwrap().kind == AssetKind::Spl,
        now >= c.record.unwrap().unlock_timestamp,
        c.balance == 0,
    ensures
        withdraw_spec(AssetKind::Spl, c, canonical, signer, dest, now) == (Err::<
            u64,
            TimeLockError,
        >(TimeLockError::InsufficientVaultBalance), c, dest),
{
}

/// The custody address depends on the asset kind, the depositor and the
/// program alone: the same inputs derive the same address and bump. The two
/// kinds use different domain tags, so one depositor may hold one lock of each.
pub proof fn derivation_is_deterministic(kind: AssetKind, d1: Address, d2: Address, p1: Address, p2: Address)
    requires
        d1.bytes@ == d2.bytes@,
        p1.bytes@ == p2.bytes@,
    ensures
        custody_address_of(kind, d1, p1) == custody_address_of(kind, d2, p2),
        tag_of(AssetKind::Sol) != tag_of(AssetKind::Spl),
{
    assert(tag_of(AssetKind::Sol)[11] != tag_of(AssetKind::Spl)[11]);
}

/// Every instruction keeps the record well formed.
pub proof fn instructions_keep_records_well_formed(
    kind: AssetKind,
    c: Custody,
    canonical: Option<(Seq<u8>, u8)>,
    signer: Address,
    mint: Address,
    balance: u64,
    amount: u64,
    unlock_timestamp: i64,
    now: i64,
)
    requires
        c.wf(),
    ensures
        initialize_lock_sol_spec(c, canonical, signer, amount, unlock_timestamp, now).1.wf(),
        initialize_lock_spl_spec(c, canonical, signer, mint, balance, amount, unlock_timestamp, now).1.wf(),
        fund_sol_lock_spec(c, canonical, signer, balance, amount).1.wf(),
        withdraw_spec(kind, c, canonical, signer, balance, now).1.wf(),
{
}

} // verus!

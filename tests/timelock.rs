use timelock_wallet::address::{derive_custody_address, same_address, seed_tag, Address, AssetKind};
use timelock_wallet::custody::Custody;
use timelock_wallet::error::TimeLockError;
use timelock_wallet::record::TimeLockAccount;

const T: i64 = 1_700_000_000;

fn key(b: u8) -> Address {
    Address { bytes: [b; 32] }
}

fn program() -> Address {
    key(200)
}

fn custody_for(kind: AssetKind, depositor: &Address) -> Custody {
    let (address, _) = derive_custody_address(kind, depositor, &program()).expect("derivation");
    Custody::new(address)
}

#[test]
fn scenario_native_lock_released_after_deadline() {
    let d = key(1);
    let mut c = custody_for(AssetKind::Sol, &d);
    let mut wallet: u64 = 5_000;
    assert_eq!(c.initialize_lock_sol(&program(), &d, 1_000, T + 3600, T), Ok(()));
    assert_eq!(c.fund_sol_lock(&program(), &d, &mut wallet, 1_000), Ok(()));
    assert_eq!(wallet, 4_000);
    assert_eq!(c.balance, 1_000);

    assert_eq!(c.withdraw_sol(&program(), &d, &mut wallet, T + 1000), Err(TimeLockError::TimeLockNotExpired));
    assert_eq!(c.balance, 1_000);
    assert_eq!(wallet, 4_000);
    assert!(c.record.is_some());

    assert_eq!(c.withdraw_sol(&program(), &d, &mut wallet, T + 3601), Ok(1_000));
    assert_eq!(c.balance, 0);
    assert_eq!(wallet, 5_000);
    assert!(c.record.is_none());
}

#[test]
fn scenario_token_lock_only_depositor_withdraws() {
    let d = key(1);
    let e = key(2);
    let m = key(9);
    let mut c = custody_for(AssetKind::Spl, &d);
    let mut d_tokens: u64 = 800;
    let mut e_tokens: u64 = 0;
    assert_eq!(c.initialize_lock_spl(&program(), &d, &m, &mut d_tokens, 500, T + 10, T), Ok(()));
    assert_eq!(d_tokens, 300);
    assert_eq!(c.balance, 500);
    let rec = c.record.expect("record");
    assert_eq!(rec.mint, Some(m));
    assert_eq!(rec.kind, AssetKind::Spl);
    assert_eq!(rec.initializer, d);

    assert_eq!(c.withdraw_spl(&program(), &e, &mut e_tokens, T + 20), Err(TimeLockError::AuthorizationFailure));
    assert_eq!(c.balance, 500);
    assert_eq!(e_tokens, 0);

    assert_eq!(c.withdraw_spl(&program(), &d, &mut d_tokens, T + 20), Ok(500));
    assert_eq!(c.balance, 0);
    assert_eq!(d_tokens, 800);
}

#[test]
fn scenario_zero_amount_writes_no_record() {
    let d = key(1);
    let mut c = custody_for(AssetKind::Sol, &d);
    assert_eq!(c.initialize_lock_sol(&program(), &d, 0, T + 100, T), Err(TimeLockError::InvalidAmount));
    assert!(c.record.is_none());
    let mut t = custody_for(AssetKind::Spl, &d);
    let mut tokens: u64 = 10;
    assert_eq!(
        t.initialize_lock_spl(&program(), &d, &key(9), &mut tokens, 0, T + 100, T),
        Err(TimeLockError::InvalidAmount)
    );
    assert!(t.record.is_none());
    assert_eq!(tokens, 10);
    assert_eq!(t.balance, 0);
}

#[test]
fn unlock_not_in_future_is_refused() {
    let d = key(1);
    let mut c = custody_for(AssetKind::Sol, &d);
    assert_eq!(c.initialize_lock_sol(&program(), &d, 10, T, T), Err(TimeLockError::UnlockInPast));
    assert_eq!(c.initialize_lock_sol(&program(), &d, 10, T - 1, T), Err(TimeLockError::UnlockInPast));
    assert!(c.record.is_none());
    let mut t = custody_for(AssetKind::Spl, &d);
    let mut tokens: u64 = 10;
    assert_eq!(
        t.initialize_lock_spl(&program(), &d, &key(9), &mut tokens, 5, T - 5, T),
        Err(TimeLockError::UnlockInPast)
    );
    assert_eq!(tokens, 10);
}

#[test]
fn recreation_does_not_reset_a_live_lock() {
    let d = key(1);
    let mut c = custody_for(AssetKind::Sol, &d);
    assert_eq!(c.initialize_lock_sol(&program(), &d, 10, T + 100, T), Ok(()));
    assert_eq!(c.initialize_lock_sol(&program(), &d, 20, T + 1, T), Err(TimeLockError::LockAlreadyActive));
    let rec = c.record.expect("record");
    assert_eq!(rec.amount, 10);
    assert_eq!(rec.unlock_timestamp, T + 100);
}

#[test]
fn withdrawal_happens_once() {
    let d = key(3);
    let mut c = custody_for(AssetKind::Sol, &d);
    let mut wallet: u64 = 100;
    assert_eq!(c.initialize_lock_sol(&program(), &d, 50, T + 1, T), Ok(()));
    assert_eq!(c.fund_sol_lock(&program(), &d, &mut wallet, 50), Ok(()));
    assert_eq!(c.withdraw_sol(&program(), &d, &mut wallet, T + 1), Ok(50));
    assert_eq!(c.withdraw_sol(&program(), &d, &mut wallet, T + 2), Err(TimeLockError::LockNotFound));
    assert_eq!(wallet, 100);
}

#[test]
fn withdrawal_sweeps_live_balance_not_recorded_amount() {
    let d = key(3);
    let mut c = custody_for(AssetKind::Sol, &d);
    let mut wallet: u64 = 10_000;
    assert_eq!(c.initialize_lock_sol(&program(), &d, 50, T + 1, T), Ok(()));
    c.balance = 890; // reserve already held at the address
    assert_eq!(c.fund_sol_lock(&program(), &d, &mut wallet, 50), Ok(()));
    assert_eq!(c.withdraw_sol(&program(), &d, &mut wallet, T + 1), Ok(940));
    assert_eq!(wallet, 10_890);
}

#[test]
fn empty_token_custody_is_refused() {
    let d = key(4);
    let mut c = custody_for(AssetKind::Spl, &d);
    let mut tokens: u64 = 7;
    assert_eq!(c.initialize_lock_spl(&program(), &d, &key(9), &mut tokens, 7, T + 1, T), Ok(()));
    c.balance = 0; // drained outside the lock
    assert_eq!(c.withdraw_spl(&program(), &d, &mut tokens, T + 5), Err(TimeLockError::InsufficientVaultBalance));
    assert!(c.record.is_some());
}

#[test]
fn wrong_asset_kind_is_refused() {
    let d = key(5);
    let canonical = derive_custody_address(AssetKind::Sol, &d, &program());
    let mut c = Custody::new(canonical.expect("derivation").0);
    assert_eq!(c.apply_initialize_lock_sol(canonical, &d, 9, T + 1, T), Ok(()));
    let mut wallet: u64 = 0;
    assert_eq!(c.apply_withdraw(AssetKind::Spl, canonical, &d, &mut wallet, T + 2), Err(TimeLockError::WrongAssetKind));
    assert_eq!(c.apply_withdraw(AssetKind::Sol, canonical, &d, &mut wallet, T + 2), Ok(0));
}

#[test]
fn token_withdraw_on_native_custody_is_refused() {
    let d = key(5);
    let mut c = custody_for(AssetKind::Sol, &d);
    assert_eq!(c.initialize_lock_sol(&program(), &d, 9, T + 1, T), Ok(()));
    let mut wallet: u64 = 0;
    assert_eq!(c.withdraw_spl(&program(), &d, &mut wallet, T + 2), Err(TimeLockError::AuthorizationFailure));
}

#[test]
fn missing_bump_is_refused() {
    let d = key(6);
    let mut c = Custody::new(key(7));
    assert_eq!(c.apply_initialize_lock_sol(None, &d, 9, T + 1, T), Err(TimeLockError::BumpMissing));
    assert!(c.record.is_none());
}

#[test]
fn custody_at_foreign_address_is_refused() {
    let d = key(6);
    let mut c = Custody::new(key(7));
    assert_eq!(c.initialize_lock_sol(&program(), &d, 9, T + 1, T), Err(TimeLockError::AuthorizationFailure));
}

#[test]
fn stored_bump_must_match() {
    let d = key(8);
    let mut c = custody_for(AssetKind::Sol, &d);
    assert_eq!(c.initialize_lock_sol(&program(), &d, 9, T + 1, T), Ok(()));
    let mut rec = c.record.expect("record");
    rec.bump = rec.bump.wrapping_sub(1);
    c.record = Some(rec);
    let mut wallet: u64 = 0;
    assert_eq!(c.withdraw_sol(&program(), &d, &mut wallet, T + 2), Err(TimeLockError::AuthorizationFailure));
}

#[test]
fn funding_needs_a_record_and_enough_balance() {
    let d = key(1);
    let mut c = custody_for(AssetKind::Sol, &d);
    let mut wallet: u64 = 5;
    assert_eq!(c.fund_sol_lock(&program(), &d, &mut wallet, 5), Err(TimeLockError::LockNotFound));
    assert_eq!(c.initialize_lock_sol(&program(), &d, 10, T + 1, T), Ok(()));
    assert_eq!(c.fund_sol_lock(&program(), &d, &mut wallet, 10), Err(TimeLockError::TransferFailed));
    assert_eq!(wallet, 5);
    assert_eq!(c.balance, 0);
    assert_eq!(c.fund_sol_lock(&program(), &key(2), &mut wallet, 1), Err(TimeLockError::AuthorizationFailure));
}

#[test]
fn token_creation_needs_enough_balance() {
    let d = key(1);
    let mut c = custody_for(AssetKind::Spl, &d);
    let mut tokens: u64 = 4;
    assert_eq!(
        c.initialize_lock_spl(&program(), &d, &key(9), &mut tokens, 5, T + 1, T),
        Err(TimeLockError::TransferFailed)
    );
    assert!(c.record.is_none());
    assert_eq!(tokens, 4);
}

#[test]
fn withdrawal_overflowing_destination_is_refused() {
    let d = key(1);
    let mut c = custody_for(AssetKind::Sol, &d);
    assert_eq!(c.initialize_lock_sol(&program(), &d, 10, T + 1, T), Ok(()));
    c.balance = 10;
    let mut wallet: u64 = u64::MAX - 5;
    assert_eq!(c.withdraw_sol(&program(), &d, &mut wallet, T + 1), Err(TimeLockError::TransferFailed));
    assert_eq!(c.balance, 10);
}

#[test]
fn derivation_is_deterministic() {
    let d = key(1);
    let a = derive_custody_address(AssetKind::Sol, &d, &program());
    let b = derive_custody_address(AssetKind::Sol, &key(1), &key(200));
    assert!(a.is_some());
    assert_eq!(a, b);
}

#[test]
fn derivation_separates_kinds_and_depositors() {
    let d = key(1);
    let (sol, _) = derive_custody_address(AssetKind::Sol, &d, &program()).expect("derivation");
    let (spl, _) = derive_custody_address(AssetKind::Spl, &d, &program()).expect("derivation");
    let (other, _) = derive_custody_address(AssetKind::Sol, &key(2), &program()).expect("derivation");
    assert_ne!(sol, d);
    assert_ne!(sol, program());
    assert_ne!(sol, spl);
    assert_ne!(sol, other);
}

#[test]
fn both_kinds_coexist_for_one_depositor() {
    let d = key(1);
    let mut native = custody_for(AssetKind::Sol, &d);
    let mut token = custody_for(AssetKind::Spl, &d);
    let mut tokens: u64 = 3;
    assert_eq!(native.initialize_lock_sol(&program(), &d, 1, T + 1, T), Ok(()));
    assert_eq!(token.initialize_lock_spl(&program(), &d, &key(9), &mut tokens, 3, T + 1, T), Ok(()));
}

#[test]
fn seed_tags_and_record_size() {
    assert_eq!(seed_tag(AssetKind::Sol), b"time-lock-sol".to_vec());
    assert_eq!(seed_tag(AssetKind::Spl), b"time-lock-spl".to_vec());
    assert_eq!(TimeLockAccount::LEN, 91);
}

#[test]
fn same_address_compares_bytes() {
    let mut b = key(1);
    assert!(same_address(&key(1), &b));
    b.bytes[31] = 0;
    assert!(!same_address(&key(1), &b));
}

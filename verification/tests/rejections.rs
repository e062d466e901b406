//! Every typed rejection of the vault core, each provoked by a concrete
//! request, and the determinism of the derived identities.

use vault2::deposit::Deposit;
use vault2::directory::{Initialize, VaultDirectory, VaultEntry};
use vault2::errors::ErrorCode;
use vault2::ids::{same_id, AccountId};
use vault2::locking::LockTokens;
use vault2::record::HoldingAccount;
use vault2::withdraw::Withdraw;

fn key(tag: u8) -> AccountId {
    AccountId { bytes: [tag; 32] }
}

fn vault_for(owner: AccountId, mint: AccountId, target: u64) -> VaultEntry {
    let mut dir = VaultDirectory::new(key(9));
    let r = vault2::initialize(&mut dir, Initialize { user: owner }, target, mint);
    assert!(r.is_ok());
    dir.entries[0]
}

fn purse(owner: AccountId, mint: AccountId, balance: u64) -> HoldingAccount {
    HoldingAccount { id: key(8), owner, mint, balance }
}

#[test]
fn initialize_twice_fails_and_alters_nothing() {
    let owner = key(1);
    let mint = key(2);
    let mut dir = VaultDirectory::new(key(3));
    assert_eq!(
        vault2::initialize(&mut dir, Initialize { user: owner }, 1000, mint),
        Ok(())
    );
    let first = dir.entries[0];
    assert_eq!(
        vault2::initialize(&mut dir, Initialize { user: owner }, 5, mint),
        Err(ErrorCode::AlreadyExists)
    );
    assert_eq!(dir.entries.len(), 1);
    assert_eq!(dir.entries[0], first);
    assert_eq!(dir.entries[0].state.amount, 1000);
}

#[test]
fn initialize_other_pairs_is_allowed() {
    let owner = key(1);
    let mut dir = VaultDirectory::new(key(3));
    assert_eq!(
        vault2::initialize(&mut dir, Initialize { user: owner }, 10, key(2)),
        Ok(())
    );
    assert_eq!(
        vault2::initialize(&mut dir, Initialize { user: owner }, 20, key(4)),
        Ok(())
    );
    assert_eq!(
        vault2::initialize(&mut dir, Initialize { user: key(5) }, 30, key(2)),
        Ok(())
    );
    assert_eq!(dir.entries.len(), 3);
}

#[test]
fn stranger_cannot_deposit() {
    let owner = key(1);
    let mint = key(2);
    let entry = vault_for(owner, mint, 1000);
    let stranger = key(7);
    let mut ctx = Deposit {
        user: stranger,
        user_token_account: purse(stranger, mint, 500),
        vault_token_account: entry.custody,
        state: entry.state,
    };
    assert_eq!(ctx.deposit(100), Err(ErrorCode::NotOwner));
    assert_eq!(ctx.vault_token_account.balance, 0);
    assert_eq!(ctx.user_token_account.balance, 500);
}

#[test]
fn source_account_must_belong_to_caller() {
    let owner = key(1);
    let mint = key(2);
    let entry = vault_for(owner, mint, 1000);
    let mut ctx = Deposit {
        user: owner,
        user_token_account: purse(key(7), mint, 500),
        vault_token_account: entry.custody,
        state: entry.state,
    };
    assert_eq!(ctx.deposit(100), Err(ErrorCode::NotOwner));
}

#[test]
fn wrong_asset_is_rejected() {
    let owner = key(1);
    let entry = vault_for(owner, key(2), 1000);
    let mut ctx = Deposit {
        user: owner,
        user_token_account: purse(owner, key(6), 500),
        vault_token_account: entry.custody,
        state: entry.state,
    };
    assert_eq!(ctx.deposit(100), Err(ErrorCode::WrongAsset));
}

#[test]
fn unrelated_custody_account_is_rejected() {
    let owner = key(1);
    let mint = key(2);
    let entry = vault_for(owner, mint, 1000);
    let mut foreign = entry.custody;
    foreign.id = key(6);
    let mut ctx = Deposit {
        user: owner,
        user_token_account: purse(owner, mint, 500),
        vault_token_account: foreign,
        state: entry.state,
    };
    assert_eq!(ctx.deposit(100), Err(ErrorCode::WrongCustodyAccount));
}

#[test]
fn custody_not_held_by_authority_is_rejected() {
    let owner = key(1);
    let mint = key(2);
    let entry = vault_for(owner, mint, 1000);
    let mut hijacked = entry.custody;
    hijacked.owner = key(6);
    let mut ctx = Withdraw {
        user: owner,
        user_token_account: purse(owner, mint, 0),
        vault_token_account: hijacked,
        state: entry.state,
    };
    assert_eq!(ctx.withdraw(1, 0), Err(ErrorCode::WrongCustodyAccount));
}

#[test]
fn deposit_exceeding_funds_is_service_unavailable() {
    let owner = key(1);
    let mint = key(2);
    let entry = vault_for(owner, mint, 1000);
    let mut ctx = Deposit {
        user: owner,
        user_token_account: purse(owner, mint, 99),
        vault_token_account: entry.custody,
        state: entry.state,
    };
    assert_eq!(ctx.deposit(100), Err(ErrorCode::ServiceUnavailable));
    assert_eq!(ctx.user_token_account.balance, 99);
    assert_eq!(ctx.vault_token_account.balance, 0);
}

#[test]
fn withdraw_exceeding_savings_is_service_unavailable() {
    let owner = key(1);
    let mint = key(2);
    let entry = vault_for(owner, mint, 1000);
    let mut custody = entry.custody;
    custody.balance = 40;
    let mut ctx = Withdraw {
        user: owner,
        user_token_account: purse(owner, mint, 0),
        vault_token_account: custody,
        state: entry.state,
    };
    assert_eq!(ctx.withdraw(41, 0), Err(ErrorCode::ServiceUnavailable));
    assert_eq!(ctx.vault_token_account.balance, 40);
}

#[test]
fn stranger_cannot_lock() {
    let entry = vault_for(key(1), key(2), 1000);
    let mut lock = LockTokens { user: key(7), state: entry.state };
    assert_eq!(lock.lock_tokens(60, 0), Err(ErrorCode::NotOwner));
    assert_eq!(lock.state.locked_until, None);
}

#[test]
fn overflowing_lock_duration_is_rejected() {
    let entry = vault_for(key(1), key(2), 1000);
    let mut lock = LockTokens { user: key(1), state: entry.state };
    assert_eq!(lock.lock_tokens(i64::MAX, 1), Err(ErrorCode::InvalidLockDuration));
    assert_eq!(lock.state.locked_until, None);
    assert_eq!(lock.lock_tokens(i64::MIN, -1), Err(ErrorCode::InvalidLockDuration));
    assert_eq!(lock.state.locked_until, None);
}

#[test]
fn derived_identities_are_deterministic() {
    let owner = key(1);
    let mint = key(2);
    let a = vault_for(owner, mint, 1000);
    let b = vault_for(owner, mint, 50);
    assert_eq!(a.custody.id, b.custody.id);
    assert_eq!(a.custody.owner, b.custody.owner);
    assert_eq!(a.state.vault_token_account, b.state.vault_token_account);
    assert_eq!(a.state.vault_bump, b.state.vault_bump);
    assert_eq!(a.state.state_bump, b.state.state_bump);
}

#[test]
fn derived_identities_are_not_their_seeds() {
    let owner = key(1);
    let mint = key(2);
    let entry = vault_for(owner, mint, 1000);
    assert!(same_id(&entry.custody.id, &entry.state.vault_token_account));
    assert!(!same_id(&entry.custody.id, &owner));
    assert!(!same_id(&entry.custody.id, &mint));
    assert!(!same_id(&entry.custody.id, &entry.custody.owner));
    let other = vault_for(owner, key(4), 1000);
    assert!(!same_id(&entry.custody.id, &other.custody.id));
}

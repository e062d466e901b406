//! Scenarios of the vault's normal operation: accumulation below the
//! target, the auto-release at the target, withdrawals and the lock gate.

use vault2::deposit::Deposit;
use vault2::directory::{Initialize, VaultDirectory, VaultEntry};
use vault2::errors::ErrorCode;
use vault2::ids::AccountId;
use vault2::locking::LockTokens;
use vault2::record::HoldingAccount;
use vault2::withdraw::Withdraw;

fn id(tag: u8) -> AccountId {
    AccountId { bytes: [tag; 32] }
}

fn fresh_vault(target: u64) -> (AccountId, AccountId, VaultEntry) {
    let owner = id(1);
    let mint = id(2);
    let mut dir = VaultDirectory::new(id(3));
    let r = vault2::initialize(&mut dir, Initialize { user: owner }, target, mint);
    assert!(r.is_ok());
    (owner, mint, dir.entries[0])
}

fn wallet_of(owner: AccountId, mint: AccountId, balance: u64) -> HoldingAccount {
    HoldingAccount { id: id(4), owner, mint, balance }
}

fn deposit_ctx(target: u64, funds: u64) -> Deposit {
    let (owner, mint, entry) = fresh_vault(target);
    Deposit {
        user: owner,
        user_token_account: wallet_of(owner, mint, funds),
        vault_token_account: entry.custody,
        state: entry.state,
    }
}

fn withdraw_ctx(target: u64, funds: u64, saved: u64) -> Withdraw {
    let (owner, mint, entry) = fresh_vault(target);
    let mut custody = entry.custody;
    custody.balance = saved;
    Withdraw {
        user: owner,
        user_token_account: wallet_of(owner, mint, funds),
        vault_token_account: custody,
        state: entry.state,
    }
}

#[test]
fn deposit_accumulates_below_target() {
    let mut ctx = deposit_ctx(1000, 2000);
    assert_eq!(ctx.deposit(400), Ok(()));
    assert_eq!(ctx.vault_token_account.balance, 400);
    assert_eq!(ctx.user_token_account.balance, 1600);
    assert_eq!(ctx.deposit(300), Ok(()));
    assert_eq!(ctx.vault_token_account.balance, 700);
    assert_eq!(ctx.user_token_account.balance, 1300);
}

#[test]
fn reaching_target_releases_entire_balance() {
    let mut ctx = deposit_ctx(1000, 2000);
    assert_eq!(ctx.deposit(400), Ok(()));
    assert_eq!(ctx.vault_token_account.balance, 400);
    assert_eq!(ctx.deposit(700), Ok(()));
    assert_eq!(ctx.vault_token_account.balance, 0);
    assert_eq!(ctx.user_token_account.balance, 2000);
}

#[test]
fn exact_target_releases() {
    let mut ctx = deposit_ctx(500, 500);
    assert_eq!(ctx.deposit(500), Ok(()));
    assert_eq!(ctx.vault_token_account.balance, 0);
    assert_eq!(ctx.user_token_account.balance, 500);
}

#[test]
fn zero_target_is_trivially_met() {
    let mut ctx = deposit_ctx(0, 100);
    assert_eq!(ctx.deposit(40), Ok(()));
    assert_eq!(ctx.vault_token_account.balance, 0);
    assert_eq!(ctx.user_token_account.balance, 100);
}

#[test]
fn release_check_alone_moves_balance_at_target() {
    let mut ctx = deposit_ctx(300, 0);
    ctx.vault_token_account.balance = 350;
    assert_eq!(ctx.is_savings_target_reached(), Ok(()));
    assert_eq!(ctx.vault_token_account.balance, 0);
    assert_eq!(ctx.user_token_account.balance, 350);
}

#[test]
fn release_check_alone_leaves_balance_below_target() {
    let mut ctx = deposit_ctx(300, 0);
    ctx.vault_token_account.balance = 299;
    assert_eq!(ctx.is_savings_target_reached(), Ok(()));
    assert_eq!(ctx.vault_token_account.balance, 299);
    assert_eq!(ctx.user_token_account.balance, 0);
}

#[test]
fn failed_release_leg_keeps_custody_balance() {
    let mut ctx = deposit_ctx(60, u64::MAX - 10);
    ctx.vault_token_account.balance = 50;
    assert_eq!(ctx.deposit(20), Err(ErrorCode::ServiceUnavailable));
    assert_eq!(ctx.vault_token_account.balance, 70);
    assert_eq!(ctx.user_token_account.balance, u64::MAX - 30);
}

#[test]
fn withdraw_decreases_balance_exactly() {
    let mut ctx = withdraw_ctx(1000, 100, 500);
    assert_eq!(ctx.withdraw(200, 7), Ok(()));
    assert_eq!(ctx.vault_token_account.balance, 300);
    assert_eq!(ctx.user_token_account.balance, 300);
    assert_eq!(ctx.state.amount, 1000);
}

#[test]
fn lock_gate_boundary() {
    let (owner, mint, entry) = fresh_vault(1000);
    let mut lock = LockTokens { user: owner, state: entry.state };
    assert_eq!(lock.lock_tokens(3600, 0), Ok(()));
    assert_eq!(lock.state.locked_until, Some(3600));
    let mut custody = entry.custody;
    custody.balance = 500;
    let mut ctx = Withdraw {
        user: owner,
        user_token_account: wallet_of(owner, mint, 0),
        vault_token_account: custody,
        state: lock.state,
    };
    assert_eq!(ctx.withdraw(100, 3599), Err(ErrorCode::TokensLocked));
    assert_eq!(ctx.vault_token_account.balance, 500);
    assert_eq!(ctx.withdraw(100, 3600), Ok(()));
    assert_eq!(ctx.vault_token_account.balance, 400);
    assert_eq!(ctx.user_token_account.balance, 100);
}

#[test]
fn relock_replaces_expiry() {
    let (owner, _, entry) = fresh_vault(1000);
    let mut lock = LockTokens { user: owner, state: entry.state };
    assert_eq!(lock.lock_tokens(3600, 0), Ok(()));
    assert_eq!(lock.lock_tokens(100, 50), Ok(()));
    assert_eq!(lock.state.locked_until, Some(150));
}

#[test]
fn deposit_is_never_blocked_by_lock() {
    let (owner, mint, entry) = fresh_vault(1000);
    let mut lock = LockTokens { user: owner, state: entry.state };
    assert_eq!(lock.lock_tokens(100_000, 0), Ok(()));
    let mut ctx = Deposit {
        user: owner,
        user_token_account: wallet_of(owner, mint, 600),
        vault_token_account: entry.custody,
        state: lock.state,
    };
    assert_eq!(ctx.deposit(600), Ok(()));
    assert_eq!(ctx.vault_token_account.balance, 600);
}

#[test]
fn withdraw_below_target_keeps_target() {
    let mut ctx = withdraw_ctx(1000, 0, 900);
    assert_eq!(ctx.withdraw(850, 0), Ok(()));
    assert_eq!(ctx.vault_token_account.balance, 50);
    assert_eq!(ctx.state.amount, 1000);
    assert_eq!(ctx.state.locked_until, None);
}

//! A custodial savings vault: per-owner records that hold a deposit target,
//! an optional time lock, and a delegated authority over a segregated
//! custody account. The library decides, for each requested operation,
//! whether it is authorized and what transfers it triggers; moving the units
//! on a real ledger and reading the clock are the host's concern, so every
//! operation takes the observed balances and the current time as plain
//! values.

pub mod deposit;
pub mod derivation;
pub mod directory;
pub mod engine;
pub mod errors;
pub mod ids;
pub mod laws;
pub mod locking;
pub mod record;
pub mod transfer;
pub mod withdraw;

use vstd::prelude::*;

use crate::deposit::{deposit_spec, Deposit};
use crate::directory::{has_record, initialize_ok, Initialize, VaultDirectory};
use crate::errors::ErrorCode;
use crate::ids::AccountId;
use crate::locking::{lock_spec, LockTokens};
use crate::withdraw::{withdraw_spec, Withdraw};

verus! {

/// Create a new vault for `ctx.user` and asset `mint` with savings target
/// `amount`. Fails with `AlreadyExists`, altering nothing, exactly when a
/// record for this owner/asset pair already exists.
pub fn initialize(
    dir: &mut VaultDirectory,
    ctx: Initialize,
    amount: u64,
    mint: AccountId,
) -> (r: Result<(), ErrorCode>)
    ensures
        r matches Ok(()) <==> !has_record(*old(dir), ctx.user@, mint@),
        r matches Err(e) ==> e == ErrorCode::AlreadyExists && *final(dir) == *old(dir),
        r matches Ok(()) ==> initialize_ok(*old(dir), *final(dir), ctx.user, amount, mint),
{
    dir.initialize(ctx, amount, mint)
}

/// Deposit `amount` units into the vault, then run the auto-release rule on
/// the post-deposit custody balance.
pub fn deposit(ctx: &mut Deposit, amount: u64) -> (r: Result<(), ErrorCode>)
    ensures
        *final(ctx) == deposit_spec(*old(ctx), amount).0,
        r == deposit_spec(*old(ctx), amount).1,
{
    ctx.deposit(amount)
}

/// Withdraw `amount` units from the vault at time `now`, unless a live lock
/// forbids it.
pub fn withdraw(ctx: &mut Withdraw, amount: u64, now: i64) -> (r: Result<(), ErrorCode>)
    ensures
        *final(ctx) == withdraw_spec(*old(ctx), amount, now).0,
        r == withdraw_spec(*old(ctx), amount, now).1,
{
    ctx.withdraw(amount, now)
}

/// Lock the vault until `now + duration_seconds`, forbidding withdrawals
/// until then.
pub fn lock_tokens(ctx: &mut LockTokens, duration_seconds: i64, now: i64) -> (r: Result<
    (),
    ErrorCode,
>)
    ensures
        *final(ctx) == lock_spec(*old(ctx), duration_seconds, now).0,
        r == lock_spec(*old(ctx), duration_seconds, now).1,
{
    ctx.lock_tokens(duration_seconds, now)
}

} // verus!

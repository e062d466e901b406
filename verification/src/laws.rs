//! The laws of the vault, stated over the operations' own specifications
//! and proved once and for all: accumulation below the target, the
//! auto-release at the target, the lock gate on withdrawals, and the
//! uniqueness of a vault per owner/asset pair.

use vstd::prelude::*;

use crate::deposit::{deposit_spec, Deposit};
use crate::directory::{has_record, initialize_ok, VaultDirectory};
use crate::engine::accounts_auth_error;
use crate::errors::ErrorCode;
use crate::ids::AccountId;
use crate::locking::{lock_spec, LockTokens};
use crate::record::HoldingAccount;
use crate::withdraw::{locked_at, withdraw_spec, Withdraw};

verus! {

/// The sum of a sequence of deposit amounts.
pub open spec fn sum64(s: Seq<u64>) -> int
    decreases s.len(),
{
    if s.len() == 0 {
        0
    } else {
        s[0] + sum64(s.drop_first())
    }
}

/// The context left after depositing each amount of `amounts` in turn.
pub open spec fn run_deposits(c: Deposit, amounts: Seq<u64>) -> Deposit
    decreases amounts.len(),
{
    if amounts.len() == 0 {
        c
    } else {
        run_deposits(deposit_spec(c, amounts[0]).0, amounts.drop_first())
    }
}

/// Whether depositing `amount` into `c` carries out a release transfer:
/// every account check passes, the deposit leg fits, the post-deposit
/// balance reaches the savings target, and the release leg fits too.
pub open spec fn deposit_releases(c: Deposit, amount: u64) -> bool {
    &&& accounts_auth_error(c.state, c.user, c.user_token_account, c.vault_token_account) is None
    &&& c.user_token_account.balance >= amount
    &&& c.vault_token_account.balance + amount <= u64::MAX
    &&& c.vault_token_account.balance + amount >= c.state.amount
    &&& c.user_token_account.balance + c.vault_token_account.balance <= u64::MAX
}

/// Whether any step of depositing the amounts of `amounts` in turn carries
/// out a release transfer.
pub open spec fn any_release(c: Deposit, amounts: Seq<u64>) -> bool
    decreases amounts.len(),
{
    if amounts.len() == 0 {
        false
    } else {
        deposit_releases(c, amounts[0]) || any_release(
            deposit_spec(c, amounts[0]).0,
            amounts.drop_first(),
        )
    }
}

proof fn lemma_sum64_nonneg(s: Seq<u64>)
    ensures
        sum64(s) >= 0,
    decreases s.len(),
{
    if s.len() > 0 {
        lemma_sum64_nonneg(s.drop_first());
    }
}

/// For every sequence of deposits whose sum keeps the custody balance below
/// the savings target, the custody balance accumulates exactly that sum,
/// the caller's balance decreases by exactly that sum, no release transfer
/// occurs, and the record is untouched.
pub proof fn lemma_deposits_below_target(c: Deposit, amounts: Seq<u64>)
    requires
        accounts_auth_error(c.state, c.user, c.user_token_account, c.vault_token_account) is None,
        c.vault_token_account.balance + sum64(amounts) < c.state.amount,
        c.user_token_account.balance >= sum64(amounts),
    ensures
        run_deposits(c, amounts).vault_token_account.balance == c.vault_token_account.balance
            + sum64(amounts),
        run_deposits(c, amounts).user_token_account.balance == c.user_token_account.balance
            - sum64(amounts),
        run_deposits(c, amounts).state == c.state,
        run_deposits(c, amounts).user == c.user,
        run_deposits(c, amounts).user_token_account == (HoldingAccount {
            balance: run_deposits(c, amounts).user_token_account.balance,
            ..c.user_token_account
        }),
        run_deposits(c, amounts).vault_token_account == (HoldingAccount {
            balance: run_deposits(c, amounts).vault_token_account.balance,
            ..c.vault_token_account
        }),
        !any_release(c, amounts),
    decreases amounts.len(),
{
    lemma_sum64_nonneg(amounts);
    if amounts.len() > 0 {
        lemma_sum64_nonneg(amounts.drop_first());
        let c1 = deposit_spec(c, amounts[0]).0;
        lemma_deposits_below_target(c1, amounts.drop_first());
    }
}

/// A deposit that brings the custody balance to the savings target triggers
/// exactly one release transfer, which moves the entire current balance —
/// this deposit together with everything accumulated before it — back to
/// the owner's account and leaves the custody balance at zero.
pub proof fn lemma_target_reached_releases(c: Deposit, amount: u64)
    requires
        accounts_auth_error(c.state, c.user, c.user_token_account, c.vault_token_account) is None,
        c.user_token_account.balance >= amount,
        c.vault_token_account.balance + amount <= u64::MAX,
        c.vault_token_account.balance + amount >= c.state.amount,
        c.user_token_account.balance + c.vault_token_account.balance <= u64::MAX,
    ensures
        deposit_releases(c, amount),
        deposit_spec(c, amount).1 == Ok::<(), ErrorCode>(()),
        deposit_spec(c, amount).0.vault_token_account.balance == 0,
        deposit_spec(c, amount).0.user_token_account.balance == c.user_token_account.balance
            + c.vault_token_account.balance,
{
}

/// Across a whole savings history: deposits that stay below the target
/// release nothing, and the first deposit that brings the custody balance
/// to the target triggers exactly one release, which returns the entire
/// accumulated balance to the owner and leaves the custody balance at zero.
pub proof fn lemma_first_deposit_reaching_target_releases(
    c: Deposit,
    amounts: Seq<u64>,
    last: u64,
)
    requires
        accounts_auth_error(c.state, c.user, c.user_token_account, c.vault_token_account) is None,
        c.vault_token_account.balance == 0,
        sum64(amounts) < c.state.amount,
        sum64(amounts) + last >= c.state.amount,
        sum64(amounts) + last <= u64::MAX,
        c.user_token_account.balance >= sum64(amounts) + last,
    ensures
        !any_release(c, amounts),
        deposit_releases(run_deposits(c, amounts), last),
        deposit_spec(run_deposits(c, amounts), last).1 == Ok::<(), ErrorCode>(()),
        deposit_spec(run_deposits(c, amounts), last).0.vault_token_account.balance == 0,
        deposit_spec(run_deposits(c, amounts), last).0.user_token_account.balance
            == c.user_token_account.balance,
{
    lemma_deposits_below_target(c, amounts);
    let settled = run_deposits(c, amounts);
    lemma_target_reached_releases(settled, last);
}

/// A withdrawal fails with `TokensLocked` exactly when a lock expiry is set
/// and the time is before it, altering nothing; otherwise it succeeds and
/// moves exactly the requested amount from custody to the owner's account.
pub proof fn lemma_withdraw_lock_gate(c: Withdraw, amount: u64, now: i64)
    requires
        accounts_auth_error(c.state, c.user, c.user_token_account, c.vault_token_account) is None,
        c.vault_token_account.balance >= amount,
        c.user_token_account.balance + amount <= u64::MAX,
    ensures
        withdraw_spec(c, amount, now).1 == Err::<(), ErrorCode>(ErrorCode::TokensLocked)
            <==> locked_at(c.state, now),
        locked_at(c.state, now) ==> withdraw_spec(c, amount, now).0 == c,
        !locked_at(c.state, now) ==> withdraw_spec(c, amount, now).1 == Ok::<(), ErrorCode>(())
            && withdraw_spec(c, amount, now).0.vault_token_account.balance
            == c.vault_token_account.balance - amount && withdraw_spec(
            c,
            amount,
            now,
        ).0.user_token_account.balance == c.user_token_account.balance + amount,
{
}

/// Locking for a positive duration forbids a withdrawal at the very moment
/// of the lock, and from the lock's expiry on — boundary inclusive — a
/// withdrawal succeeds again.
pub proof fn lemma_lock_gates_withdraw(c: Withdraw, d: i64, now: i64, later: i64, amount: u64)
    requires
        accounts_auth_error(c.state, c.user, c.user_token_account, c.vault_token_account) is None,
        c.vault_token_account.balance >= amount,
        c.user_token_account.balance + amount <= u64::MAX,
        0 < d,
        now + d <= i64::MAX,
    ensures
        ({
            let lock_ctx = (LockTokens { user: c.state.owner, state: c.state });
            let locked = (Withdraw { state: lock_spec(lock_ctx, d, now).0.state, ..c });
            &&& lock_spec(lock_ctx, d, now).1 == Ok::<(), ErrorCode>(())
            &&& withdraw_spec(locked, amount, now).1 == Err::<(), ErrorCode>(
                ErrorCode::TokensLocked,
            )
            &&& later >= now + d ==> withdraw_spec(locked, amount, later).1 == Ok::<(), ErrorCode>(
                (),
            )
        }),
{
}

/// A directory holds at most one vault per owner/asset pair: a successful
/// initialization leaves a record for its pair present, so by
/// `initialize`'s contract a second initialization for the same pair is
/// refused with `AlreadyExists` and alters no record — in particular it
/// leaves the first record exactly as created.
pub proof fn lemma_initialize_once_per_pair(
    pre: VaultDirectory,
    post: VaultDirectory,
    user: AccountId,
    amount: u64,
    mint: AccountId,
)
    requires
        initialize_ok(pre, post, user, amount, mint),
    ensures
        has_record(post, user@, mint@),
{
    let i = post.entries@.len() - 1;
    assert(post.entries@[i].state.owner@ == user@ && post.entries@[i].state.mint@ == mint@);
}

} // verus!

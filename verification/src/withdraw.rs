//! Withdrawing from the vault before the target is reached: permitted only
//! to the owner, only while no live lock forbids it, and carried out under
//! the vault's re-derived delegated authority. No target logic applies; a
//! withdrawal may bring the balance below the target.

use vstd::prelude::*;

use crate::engine::{accounts_auth_error, authorize_accounts, verify_delegated_authority,
    verify_unlocked};
use crate::errors::ErrorCode;
use crate::ids::AccountId;
use crate::record::{HoldingAccount, Vault};
use crate::transfer::release_from_custody;

verus! {

/// One withdraw request: the caller, the caller's holding account the units
/// go to, the custody account they leave, and the vault record the
/// operation is judged against.
#[derive(Clone, Copy, Debug, PartialEq, Eq)]
pub struct Withdraw {
    /// The principal making the withdrawal.
    pub user: AccountId,
    /// The caller's holding account: destination of the withdrawal.
    pub user_token_account: HoldingAccount,
    /// The vault's custody account.
    pub vault_token_account: HoldingAccount,
    /// The vault record.
    pub state: Vault,
}

/// Whether the record's lock forbids a withdrawal at time `now`: it does
/// exactly when a lock expiry is set and `now` is before it.
pub open spec fn locked_at(state: Vault, now: i64) -> bool {
    match state.locked_until {
        Some(t) => now < t,
        None => false,
    }
}

/// What a withdrawal of `amount` at time `now` does to its context: after
/// every account check passes and no live lock forbids it, `amount` moves
/// from custody to the caller's account. The vault record is never changed.
pub open spec fn withdraw_spec(c: Withdraw, amount: u64, now: i64) -> (
    Withdraw,
    Result<(), ErrorCode>,
) {
    match accounts_auth_error(c.state, c.user, c.user_token_account, c.vault_token_account) {
        Some(e) => (c, Err(e)),
        None => if locked_at(c.state, now) {
            (c, Err(ErrorCode::TokensLocked))
        } else if c.vault_token_account.balance < amount || c.user_token_account.balance + amount
            > u64::MAX {
            (c, Err(ErrorCode::ServiceUnavailable))
        } else {
            (
                (Withdraw {
                    user_token_account: (HoldingAccount {
                        balance: (c.user_token_account.balance + amount) as u64,
                        ..c.user_token_account
                    }),
                    vault_token_account: (HoldingAccount {
                        balance: (c.vault_token_account.balance - amount) as u64,
                        ..c.vault_token_account
                    }),
                    ..c
                }),
                Ok(()),
            )
        },
    }
}

impl Withdraw {
    /// Withdraw `amount` units from the vault at time `now`. Fails with
    /// `TokensLocked` exactly when a lock expiry is set and `now` is before
    /// it; otherwise the custody balance decreases by exactly `amount`.
    pub fn withdraw(&mut self, amount: u64, now: i64) -> (r: Result<(), ErrorCode>)
        ensures
            *final(self) == withdraw_spec(*old(self), amount, now).0,
            r == withdraw_spec(*old(self), amount, now).1,
            final(self).state == old(self).state,
            final(self).user == old(self).user,
    {
        if let Err(e) = authorize_accounts(
            &self.state,
            &self.user,
            &self.user_token_account,
            &self.vault_token_account,
        ) {
            return Err(e);
        }
        if let Err(e) = verify_unlocked(&self.state, now) {
            return Err(e);
        }
        let cap = verify_delegated_authority(&self.state);
        if let Err(e) = release_from_custody(
            cap,
            &mut self.vault_token_account,
            &mut self.user_token_account,
            amount,
        ) {
            return Err(e);
        }
        Ok(())
    }
}

} // verus!

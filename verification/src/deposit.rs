//! Depositing into the vault, and the auto-release rule: the first deposit
//! that brings the custody balance to the savings target triggers one
//! release transfer that moves the entire current balance back to the owner.

use vstd::prelude::*;

use crate::engine::{accounts_auth_error, authorize_accounts, verify_delegated_authority};
use crate::errors::ErrorCode;
use crate::ids::AccountId;
use crate::record::{HoldingAccount, Vault};
use crate::transfer::{release_from_custody, transfer_units};

verus! {

/// One deposit request: the caller, the caller's holding account the units
/// come from, the custody account they go to, and the vault record the
/// operation is judged against.
#[derive(Clone, Copy, Debug, PartialEq, Eq)]
pub struct Deposit {
    /// The principal making the deposit.
    pub user: AccountId,
    /// The caller's holding account: source of the deposit, and destination
    /// of an auto-release.
    pub user_token_account: HoldingAccount,
    /// The vault's custody account.
    pub vault_token_account: HoldingAccount,
    /// The vault record.
    pub state: Vault,
}

/// What the auto-release check does to a deposit context: when every account
/// check passes and the custody balance has reached the savings target, the
/// entire current custody balance moves to the caller's account; otherwise
/// nothing moves. The release leg alone can fail, leaving the custody
/// balance in place — a safe state, not a corrupted one.
pub open spec fn release_spec(c: Deposit) -> (Deposit, Result<(), ErrorCode>) {
    match accounts_auth_error(c.state, c.user, c.user_token_account, c.vault_token_account) {
        Some(e) => (c, Err(e)),
        None => if c.vault_token_account.balance >= c.state.amount {
            let total = c.vault_token_account.balance;
            if c.user_token_account.balance + total > u64::MAX {
                (c, Err(ErrorCode::ServiceUnavailable))
            } else {
                (
                    (Deposit {
                        user_token_account: (HoldingAccount {
                            balance: (c.user_token_account.balance + total) as u64,
                            ..c.user_token_account
                        }),
                        vault_token_account: (HoldingAccount {
                            balance: 0u64,
                            ..c.vault_token_account
                        }),
                        ..c
                    }),
                    Ok(()),
                )
            }
        } else {
            (c, Ok(()))
        },
    }
}

/// What a deposit of `amount` does to its context: after every account check
/// passes, `amount` moves from the caller's account into custody, and then
/// the auto-release rule runs against the balance read at that moment.
pub open spec fn deposit_spec(c: Deposit, amount: u64) -> (Deposit, Result<(), ErrorCode>) {
    match accounts_auth_error(c.state, c.user, c.user_token_account, c.vault_token_account) {
        Some(e) => (c, Err(e)),
        None => if c.user_token_account.balance < amount || c.vault_token_account.balance + amount
            > u64::MAX {
            (c, Err(ErrorCode::ServiceUnavailable))
        } else {
            release_spec(
                (Deposit {
                    user_token_account: (HoldingAccount {
                        balance: (c.user_token_account.balance - amount) as u64,
                        ..c.user_token_account
                    }),
                    vault_token_account: (HoldingAccount {
                        balance: (c.vault_token_account.balance + amount) as u64,
                        ..c.vault_token_account
                    }),
                    ..c
                }),
            )
        },
    }
}

impl Deposit {
    /// Deposit `amount` units into the vault, then run the auto-release
    /// rule on the post-deposit custody balance. The vault record is never
    /// changed by a deposit, and a lock never blocks one.
    pub fn deposit(&mut self, amount: u64) -> (r: Result<(), ErrorCode>)
        ensures
            *final(self) == deposit_spec(*old(self), amount).0,
            r == deposit_spec(*old(self), amount).1,
            final(self).state == old(self).state,
            final(self).user == old(self).user,
    {
        if let Err(e) = authorize_accounts(
            &self.state,
            &self.user,
            &self.user_token_account,
            &self.vault_token_account,
        ) {
            return Err(e);
        }
        if let Err(e) = transfer_units(
            &mut self.user_token_account,
            &mut self.vault_token_account,
            amount,
        ) {
            return Err(e);
        }
        self.is_savings_target_reached()
    }

    /// Check whether the custody balance has reached the savings target and,
    /// if so, release the entire current balance back to the caller under
    /// the vault's re-derived delegated authority.
    pub fn is_savings_target_reached(&mut self) -> (r: Result<(), ErrorCode>)
        ensures
            *final(self) == release_spec(*old(self)).0,
            r == release_spec(*old(self)).1,
            final(self).state == old(self).state,
            final(self).user == old(self).user,
    {
        if let Err(e) = authorize_accounts(
            &self.state,
            &self.user,
            &self.user_token_account,
            &self.vault_token_account,
        ) {
            return Err(e);
        }
        if self.vault_token_account.balance >= self.state.amount {
            let cap = verify_delegated_authority(&self.state);
            let total = self.vault_token_account.balance;
            if let Err(e) = release_from_custody(
                cap,
                &mut self.vault_token_account,
                &mut self.user_token_account,
                total,
            ) {
                return Err(e);
            }
        }
        Ok(())
    }
}

} // verus!

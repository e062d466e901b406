//! Locking the vault: the owner may forbid withdrawals until a chosen
//! expiry. A new lock always sets the expiry to the current time plus the
//! requested duration, whether or not that extends an earlier lock; deposits
//! and the auto-release rule are never blocked by a lock.

use vstd::prelude::*;

use crate::engine::verify_owner_signature;
use crate::errors::ErrorCode;
use crate::ids::AccountId;
use crate::record::Vault;

verus! {

/// One lock request: the caller and the vault record to lock.
#[derive(Clone, Copy, Debug, PartialEq, Eq)]
pub struct LockTokens {
    /// The principal requesting the lock; only the vault's owner may lock.
    pub user: AccountId,
    /// The vault record.
    pub state: Vault,
}

/// What locking for `duration_seconds` at time `now` does to its context:
/// the owner sets the lock expiry to `now + duration_seconds`, and the
/// request is refused exactly when the caller is not the owner or that sum
/// leaves the representable timestamp range. No transfer occurs.
pub open spec fn lock_spec(c: LockTokens, duration_seconds: i64, now: i64) -> (
    LockTokens,
    Result<(), ErrorCode>,
) {
    if c.user@ != c.state.owner@ {
        (c, Err(ErrorCode::NotOwner))
    } else if now + duration_seconds > i64::MAX || now + duration_seconds < i64::MIN {
        (c, Err(ErrorCode::InvalidLockDuration))
    } else {
        (
            (LockTokens {
                state: (Vault { locked_until: Some((now + duration_seconds) as i64), ..c.state }),
                ..c
            }),
            Ok(()),
        )
    }
}

impl LockTokens {
    /// Lock the vault until `now + duration_seconds`. Fails with
    /// `InvalidLockDuration` exactly when that expiry does not fit in the
    /// timestamp range; every field of the record but the lock expiry is
    /// left unchanged.
    pub fn lock_tokens(&mut self, duration_seconds: i64, now: i64) -> (r: Result<(), ErrorCode>)
        ensures
            *final(self) == lock_spec(*old(self), duration_seconds, now).0,
            r == lock_spec(*old(self), duration_seconds, now).1,
            final(self).user == old(self).user,
            final(self).state.owner == old(self).state.owner,
            final(self).state.amount == old(self).state.amount,
            final(self).state.mint == old(self).state.mint,
            final(self).state.vault_token_account == old(self).state.vault_token_account,
            final(self).state.namespace == old(self).state.namespace,
    {
        if let Err(e) = verify_owner_signature(&self.state, &self.user) {
            return Err(e);
        }
        let expiry: i128 = now as i128 + duration_seconds as i128;
        if expiry > i64::MAX as i128 || expiry < i64::MIN as i128 {
            return Err(ErrorCode::InvalidLockDuration);
        }
        self.state.locked_until = Some(expiry as i64);
        Ok(())
    }
}

} // verus!

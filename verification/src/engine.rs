//! The authorization engine: decides, per operation, whether the caller and
//! the referenced accounts satisfy the required proofs, without trusting any
//! client-supplied identifier at face value. All checks precede all effects;
//! every failure is a typed rejection and mutates nothing.

use vstd::prelude::*;

use crate::derivation::{derive_authority_id, derive_record_id};
use crate::errors::ErrorCode;
use crate::ids::{same_id, AccountId};
use crate::record::{record_id_of, vault_authority_of, HoldingAccount, Vault};

verus! {

/// A single-use proof of control over a vault's custody account. It is
/// produced only by re-derivation from the record, consumed by the transfer
/// that it authorizes, and never stored or serialized.
pub struct AuthorityCapability {
    /// The re-derived authority identity the capability stands for.
    pub authority: AccountId,
}

/// Succeeds exactly when the caller is the owner recorded in the vault.
pub fn verify_owner_signature(state: &Vault, caller: &AccountId) -> (r: Result<(), ErrorCode>)
    ensures
        r matches Ok(()) <==> caller@ == state.owner@,
        r matches Err(e) ==> e == ErrorCode::NotOwner,
{
    if same_id(caller, &state.owner) {
        Ok(())
    } else {
        Err(ErrorCode::NotOwner)
    }
}

/// Succeeds exactly when the supplied custody reference is the one recorded
/// in the vault, so that no caller can redirect an operation to an unrelated
/// holding account.
pub fn verify_custody_binding(state: &Vault, supplied: &AccountId) -> (r: Result<(), ErrorCode>)
    ensures
        r matches Ok(()) <==> supplied@ == state.vault_token_account@,
        r matches Err(e) ==> e == ErrorCode::WrongCustodyAccount,
{
    if same_id(supplied, &state.vault_token_account) {
        Ok(())
    } else {
        Err(ErrorCode::WrongCustodyAccount)
    }
}

/// Succeeds exactly when the vault is unlocked, or its lock has expired, at
/// time `now`. Only withdrawals consult this; deposits are never blocked by
/// a lock.
pub fn verify_unlocked(state: &Vault, now: i64) -> (r: Result<(), ErrorCode>)
    ensures
        r matches Ok(()) <==> (match state.locked_until {
            Some(t) => now >= t,
            None => true,
        }),
        r matches Err(e) ==> e == ErrorCode::TokensLocked,
{
    match state.locked_until {
        None => Ok(()),
        Some(t) => if now >= t {
            Ok(())
        } else {
            Err(ErrorCode::TokensLocked)
        },
    }
}

/// The delegated authority of the vault, re-derived from the record's own
/// identity and derivation material.
pub fn vault_authority_id(state: &Vault) -> (a: AccountId)
    ensures
        a@ == vault_authority_of(*state),
{
    let (record_id, _) = derive_record_id(&state.namespace, &state.owner, &state.mint);
    let (authority, _) = derive_authority_id(&state.namespace, &record_id);
    authority
}

/// Re-derives the vault's delegated authority and hands it out as a
/// capability, usable exactly once to authorize a transfer out of the
/// custody account.
pub fn verify_delegated_authority(state: &Vault) -> (c: AuthorityCapability)
    ensures
        c.authority@ == vault_authority_of(*state),
{
    AuthorityCapability { authority: vault_authority_id(state) }
}

/// The first failing account check for an operation that moves units between
/// the caller's holding account and the vault's custody account, or `None`
/// when every check passes:
/// the caller must be the vault's owner and own the source account, both
/// accounts must hold the vault's asset type, and the custody account must
/// be the recorded one, controlled by the vault's re-derived authority.
pub open spec fn accounts_auth_error(
    state: Vault,
    user: AccountId,
    source: HoldingAccount,
    custody: HoldingAccount,
) -> Option<ErrorCode> {
    if user@ != state.owner@ {
        Some(ErrorCode::NotOwner)
    } else if source.owner@ != user@ {
        Some(ErrorCode::NotOwner)
    } else if source.mint@ != state.mint@ {
        Some(ErrorCode::WrongAsset)
    } else if custody.id@ != state.vault_token_account@ {
        Some(ErrorCode::WrongCustodyAccount)
    } else if custody.mint@ != state.mint@ {
        Some(ErrorCode::WrongAsset)
    } else if custody.owner@ != vault_authority_of(state) {
        Some(ErrorCode::WrongCustodyAccount)
    } else {
        None
    }
}

/// Runs every account check for an operation on `state` between the
/// caller's account `source` and the custody account `custody`.
pub fn authorize_accounts(
    state: &Vault,
    user: &AccountId,
    source: &HoldingAccount,
    custody: &HoldingAccount,
) -> (r: Result<(), ErrorCode>)
    ensures
        r == (match accounts_auth_error(*state, *user, *source, *custody) {
            Some(e) => Err::<(), ErrorCode>(e),
            None => Ok(()),
        }),
{
    if let Err(e) = verify_owner_signature(state, user) {
        return Err(e);
    }
    if !same_id(&source.owner, user) {
        return Err(ErrorCode::NotOwner);
    }
    if !same_id(&source.mint, &state.mint) {
        return Err(ErrorCode::WrongAsset);
    }
    if let Err(e) = verify_custody_binding(state, &custody.id) {
        return Err(e);
    }
    if !same_id(&custody.mint, &state.mint) {
        return Err(ErrorCode::WrongAsset);
    }
    let authority = vault_authority_id(state);
    if !same_id(&custody.owner, &authority) {
        return Err(ErrorCode::WrongCustodyAccount);
    }
    Ok(())
}

} // verus!

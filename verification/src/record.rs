//! The vault record and the model of an external holding account.
//!
//! The record is the durable state of one vault: savings target, asset
//! binding, custody reference, derivation material and lock expiry. It never
//! duplicates a balance; the custody account's balance is the sole source of
//! truth for how much is saved.

use vstd::prelude::*;

use crate::derivation::{authority_derivation, record_derivation};
use crate::ids::AccountId;

verus! {

/// What the vault core reads of an external holding account: its identity,
/// the identity authorized to move its units, the asset type it holds, and
/// its balance in the asset's smallest unit.
#[derive(Clone, Copy, Debug, PartialEq, Eq)]
pub struct HoldingAccount {
    /// The identity of the account itself.
    pub id: AccountId,
    /// The identity whose signature authorizes transfers out of the account.
    pub owner: AccountId,
    /// The asset type whose units the account holds.
    pub mint: AccountId,
    /// The balance, in the asset's smallest unit.
    pub balance: u64,
}

/// The durable state of one vault. Everything but `locked_until` is fixed at
/// creation.
#[derive(Clone, Copy, Debug, PartialEq, Eq)]
pub struct Vault {
    /// The principal that created the vault; never reassigned.
    pub owner: AccountId,
    /// The savings goal, in the asset's smallest unit. Once the custody
    /// balance reaches it, the whole balance is released to the owner.
    pub amount: u64,
    /// The asset type this vault accepts; every transfer must reference a
    /// custody account of this exact type.
    pub mint: AccountId,
    /// The identity of the custody account that physically stores the
    /// vault's assets.
    pub vault_token_account: AccountId,
    /// The derivation namespace: the material from which the record's own
    /// identity and its delegated authority are re-derived. The vault never
    /// stores the authority itself.
    pub namespace: AccountId,
    /// The bump yielded when the delegated authority was derived.
    pub vault_bump: u8,
    /// The bump yielded when the record's own identity was derived.
    pub state_bump: u8,
    /// `None` means unlocked; `Some(t)` forbids withdrawals while the
    /// current time is before `t`.
    pub locked_until: Option<i64>,
}

/// The identity of the vault record itself: a pure function of its
/// namespace, owner and asset type, so that callers can recompute it without
/// a lookup table.
pub open spec fn record_id_of(v: Vault) -> Seq<u8> {
    record_derivation(v.namespace@, v.owner@, v.mint@).0
}

/// The delegated authority controlling the vault's custody account: a pure
/// function of the record's identity and its derivation material, never a
/// caller-supplied value.
pub open spec fn vault_authority_of(v: Vault) -> Seq<u8> {
    authority_derivation(v.namespace@, record_id_of(v)).0
}

} // verus!

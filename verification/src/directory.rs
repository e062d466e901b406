//! Creating vaults, and the directory that holds at most one vault per
//! owner/asset pair. Each vault is one logical unit: the record of intent
//! and the custody account that physically stores its assets.

use vstd::prelude::*;

use crate::derivation::{authority_derivation, custody_derivation, derive_authority_id,
    derive_custody_id, derive_record_id, record_derivation};
use crate::errors::ErrorCode;
use crate::ids::{same_id, AccountId};
use crate::record::{HoldingAccount, Vault};

verus! {

/// One vault as a unit: its record and its custody account.
#[derive(Clone, Copy, Debug, PartialEq, Eq)]
pub struct VaultEntry {
    /// The vault record.
    pub state: Vault,
    /// The custody account bound to it.
    pub custody: HoldingAccount,
}

/// Every vault created under one derivation namespace.
#[derive(Clone, Debug, PartialEq, Eq)]
pub struct VaultDirectory {
    /// The namespace all identities of these vaults are derived under.
    pub namespace: AccountId,
    /// The vaults, one entry per owner/asset pair.
    pub entries: Vec<VaultEntry>,
}

/// One initialization request: the principal creating the vault.
#[derive(Clone, Copy, Debug, PartialEq, Eq)]
pub struct Initialize {
    /// The creating principal; it becomes the vault's owner.
    pub user: AccountId,
}

/// Whether the directory already holds a record for the owner/asset pair.
pub open spec fn has_record(d: VaultDirectory, owner: Seq<u8>, mint: Seq<u8>) -> bool {
    exists|i: int|
        0 <= i < d.entries@.len() && (#[trigger] d.entries@[i]).state.owner@ == owner
            && d.entries@[i].state.mint@ == mint
}

/// What a freshly created vault looks like: every identity derived from the
/// namespace and the owner/asset pair, an empty custody account of the
/// vault's asset type controlled by the derived authority, and no lock.
pub open spec fn fresh_entry_ok(
    e: VaultEntry,
    namespace: AccountId,
    user: AccountId,
    amount: u64,
    mint: AccountId,
) -> bool {
    let rd = record_derivation(namespace@, user@, mint@);
    let cd = custody_derivation(namespace@, rd.0);
    let ad = authority_derivation(namespace@, rd.0);
    &&& e.state.owner == user
    &&& e.state.amount == amount
    &&& e.state.mint == mint
    &&& e.state.namespace == namespace
    &&& e.state.vault_token_account@ == cd.0
    &&& e.state.vault_bump == ad.1
    &&& e.state.state_bump == rd.1
    &&& e.state.locked_until is None
    &&& e.custody.id@ == cd.0
    &&& e.custody.owner@ == ad.0
    &&& e.custody.mint == mint
    &&& e.custody.balance == 0
}

/// What a successful initialization does to a directory: no record for the
/// pair existed, every existing entry is kept in place, and one fresh vault
/// for the pair is appended.
pub open spec fn initialize_ok(
    pre: VaultDirectory,
    post: VaultDirectory,
    user: AccountId,
    amount: u64,
    mint: AccountId,
) -> bool {
    &&& !has_record(pre, user@, mint@)
    &&& post.namespace == pre.namespace
    &&& post.entries@.len() == pre.entries@.len() + 1
    &&& forall|i: int| 0 <= i < pre.entries@.len() ==> post.entries@[i] == pre.entries@[i]
    &&& fresh_entry_ok(post.entries@.last(), pre.namespace, user, amount, mint)
}

impl Initialize {
    /// Build the vault unit for this principal: target `amount`, asset
    /// `mint`, every identity derived under `namespace`, unlocked, with an
    /// empty custody account.
    pub fn initialize(&self, amount: u64, mint: AccountId, namespace: &AccountId) -> (e:
        VaultEntry)
        ensures
            fresh_entry_ok(e, *namespace, self.user, amount, mint),
    {
        let (record_id, state_bump) = derive_record_id(namespace, &self.user, &mint);
        let (custody_id, _) = derive_custody_id(namespace, &record_id);
        let (authority, vault_bump) = derive_authority_id(namespace, &record_id);
        let state = Vault {
            owner: self.user,
            amount,
            mint,
            vault_token_account: custody_id,
            namespace: *namespace,
            vault_bump,
            state_bump,
            locked_until: None,
        };
        let custody = HoldingAccount { id: custody_id, owner: authority, mint, balance: 0 };
        VaultEntry { state, custody }
    }
}

impl VaultDirectory {
    /// An empty directory under `namespace`.
    pub fn new(namespace: AccountId) -> (d: VaultDirectory)
        ensures
            d.namespace == namespace,
            d.entries@.len() == 0,
    {
        VaultDirectory { namespace, entries: Vec::new() }
    }

    /// Create a new vault for `ctx.user` and asset `mint` with savings
    /// target `amount`. Fails with `AlreadyExists`, altering nothing,
    /// exactly when the directory already holds a record for this
    /// owner/asset pair.
    pub fn initialize(&mut self, ctx: Initialize, amount: u64, mint: AccountId) -> (r: Result<
        (),
        ErrorCode,
    >)
        ensures
            r matches Ok(()) <==> !has_record(*old(self), ctx.user@, mint@),
            r matches Err(e) ==> e == ErrorCode::AlreadyExists && *final(self) == *old(self),
            r matches Ok(()) ==> initialize_ok(*old(self), *final(self), ctx.user, amount, mint),
    {
        let n = self.entries.len();
        let mut i: usize = 0;
        while i < n
            invariant
                0 <= i <= n,
                n == self.entries@.len(),
                *self == *old(self),
                forall|k: int|
                    0 <= k < i ==> !((#[trigger] self.entries@[k]).state.owner@ == ctx.user@
                        && self.entries@[k].state.mint@ == mint@),
            decreases n - i,
        {
            let e = &self.entries[i];
            if same_id(&e.state.owner, &ctx.user) && same_id(&e.state.mint, &mint) {
                return Err(ErrorCode::AlreadyExists);
            }
            i += 1;
        }
        let namespace = self.namespace;
        let entry = ctx.initialize(amount, mint, &namespace);
        self.entries.push(entry);
        Ok(())
    }
}

} // verus!

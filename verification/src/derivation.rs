//! Deterministic derivation of the vault's addresses and of its delegated
//! authority. Every derived identity is a pure function of a namespace and of
//! the seeds that name it; nothing derived is ever chosen by a caller.

use vstd::prelude::*;

use crate::ids::{id_to_vec, AccountId};

verus! {

/// The address and bump that the derivation scheme yields for a seed list and
/// a namespace. The scheme is a collision-resistant search over sha256
/// digests; its result is named here and never spelled out.
pub uninterp spec fn address_of(seeds: Seq<Seq<u8>>, namespace: Seq<u8>) -> (Seq<u8>, u8);

/// The mathematical contents of a list of byte vectors.
pub open spec fn views_of(s: Seq<Vec<u8>>) -> Seq<Seq<u8>> {
    s.map_values(|v: Vec<u8>| v@)
}

/// Relies on anchor_lang::derive_program_address: the address and bump it
/// returns are a deterministic function of the seed list and the namespace
/// alone — a bump search over sha256 digests of seeds, bump and namespace,
/// stopping at the first digest off the ed25519 curve (the search counts on
/// such a digest turning up among the 256 candidates).
#[verifier::external_body]
fn derive_address(seeds: &Vec<Vec<u8>>, namespace: &[u8; 32]) -> (r: ([u8; 32], u8))
    ensures
        (r.0@, r.1) == address_of(views_of(seeds@), namespace@),
{
    let parts: Vec<&[u8]> = seeds.iter().map(|s| s.as_slice()).collect();
    anchor_lang::derive_program_address(&parts, namespace)
}

/// Seed tag of a vault record: the bytes of "state".
pub open spec fn state_tag() -> Seq<u8> {
    seq![115u8, 116u8, 97u8, 116u8, 101u8]
}

/// Seed tag of a custody account: the bytes of "vault".
pub open spec fn vault_tag() -> Seq<u8> {
    seq![118u8, 97u8, 117u8, 108u8, 116u8]
}

/// Seed tag of a delegated authority: the bytes of "auth".
pub open spec fn auth_tag() -> Seq<u8> {
    seq![97u8, 117u8, 116u8, 104u8]
}

/// The identity and bump of the vault record owned by `owner` for asset
/// `mint`, under `namespace`.
pub open spec fn record_derivation(namespace: Seq<u8>, owner: Seq<u8>, mint: Seq<u8>) -> (
    Seq<u8>,
    u8,
) {
    address_of(seq![state_tag(), owner, mint], namespace)
}

/// The identity and bump of the custody account bound to the record `record`.
pub open spec fn custody_derivation(namespace: Seq<u8>, record: Seq<u8>) -> (Seq<u8>, u8) {
    address_of(seq![vault_tag(), record], namespace)
}

/// The identity and bump of the delegated authority controlling the custody
/// account of the record `record`.
pub open spec fn authority_derivation(namespace: Seq<u8>, record: Seq<u8>) -> (Seq<u8>, u8) {
    address_of(seq![auth_tag(), record], namespace)
}

fn state_tag_vec() -> (v: Vec<u8>)
    ensures
        v@ == state_tag(),
{
    let mut v: Vec<u8> = Vec::new();
    v.push(115u8);
    v.push(116u8);
    v.push(97u8);
    v.push(116u8);
    v.push(101u8);
    assert(v@ =~= state_tag());
    v
}

fn vault_tag_vec() -> (v: Vec<u8>)
    ensures
        v@ == vault_tag(),
{
    let mut v: Vec<u8> = Vec::new();
    v.push(118u8);
    v.push(97u8);
    v.push(117u8);
    v.push(108u8);
    v.push(116u8);
    assert(v@ =~= vault_tag());
    v
}

fn auth_tag_vec() -> (v: Vec<u8>)
    ensures
        v@ == auth_tag(),
{
    let mut v: Vec<u8> = Vec::new();
    v.push(97u8);
    v.push(117u8);
    v.push(116u8);
    v.push(104u8);
    assert(v@ =~= auth_tag());
    v
}

/// Derive the identity and bump of the record owned by `owner` for `mint`.
pub fn derive_record_id(namespace: &AccountId, owner: &AccountId, mint: &AccountId) -> (r: (
    AccountId,
    u8,
))
    ensures
        (r.0@, r.1) == record_derivation(namespace@, owner@, mint@),
{
    let mut seeds: Vec<Vec<u8>> = Vec::new();
    seeds.push(state_tag_vec());
    seeds.push(id_to_vec(owner));
    seeds.push(id_to_vec(mint));
    assert(views_of(seeds@) =~= seq![state_tag(), owner@, mint@]);
    let (bytes, bump) = derive_address(&seeds, &namespace.bytes);
    (AccountId { bytes }, bump)
}

/// Derive the identity and bump of the custody account of record `record`.
pub fn derive_custody_id(namespace: &AccountId, record: &AccountId) -> (r: (AccountId, u8))
    ensures
        (r.0@, r.1) == custody_derivation(namespace@, record@),
{
    let mut seeds: Vec<Vec<u8>> = Vec::new();
    seeds.push(vault_tag_vec());
    seeds.push(id_to_vec(record));
    assert(views_of(seeds@) =~= seq![vault_tag(), record@]);
    let (bytes, bump) = derive_address(&seeds, &namespace.bytes);
    (AccountId { bytes }, bump)
}

/// Derive the identity and bump of the delegated authority of record
/// `record`.
pub fn derive_authority_id(namespace: &AccountId, record: &AccountId) -> (r: (AccountId, u8))
    ensures
        (r.0@, r.1) == authority_derivation(namespace@, record@),
{
    let mut seeds: Vec<Vec<u8>> = Vec::new();
    seeds.push(auth_tag_vec());
    seeds.push(id_to_vec(record));
    assert(views_of(seeds@) =~= seq![auth_tag(), record@]);
    let (bytes, bump) = derive_address(&seeds, &namespace.bytes);
    (AccountId { bytes }, bump)
}

} // verus!

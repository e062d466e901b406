//! Identities of principals and accounts: 32-byte identifiers, compared by
//! value and never trusted at face value anywhere else in the library.

use vstd::prelude::*;

verus! {

/// The identity of a principal or of an external holding account.
#[derive(Clone, Copy, Debug, PartialEq, Eq)]
pub struct AccountId {
    pub bytes: [u8; 32],
}

impl View for AccountId {
    type V = Seq<u8>;

    open spec fn view(&self) -> Seq<u8> {
        self.bytes@
    }
}

/// Value equality of two identities, byte for byte.
pub fn same_id(a: &AccountId, b: &AccountId) -> (r: bool)
    ensures
        r == (a@ == b@),
{
    let mut i: usize = 0;
    while i < 32
        invariant
            0 <= i <= 32,
            forall|k: int| 0 <= k < i ==> a.bytes@[k] == b.bytes@[k],
        decreases 32 - i,
    {
        if a.bytes[i] != b.bytes[i] {
            assert(a@[i as int] != b@[i as int]);
            return false;
        }
        i += 1;
    }
    assert(a@ =~= b@);
    true
}

/// The identity's bytes as an owned vector, for use as derivation material.
pub(crate) fn id_to_vec(a: &AccountId) -> (v: Vec<u8>)
    ensures
        v@ == a@,
{
    let mut v: Vec<u8> = Vec::new();
    let mut i: usize = 0;
    while i < 32
        invariant
            0 <= i <= 32,
            v@.len() == i,
            forall|k: int| 0 <= k < i ==> v@[k] == a.bytes@[k],
        decreases 32 - i,
    {
        v.push(a.bytes[i]);
        i += 1;
    }
    assert(v@ =~= a@);
    v
}

} // verus!

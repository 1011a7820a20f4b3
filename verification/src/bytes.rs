//! Byte strings of the consensus protocol: comparison, and the 32-byte hash.

use vstd::prelude::*;

verus! {

/// Length of a block hash and of a state commitment, in bytes.
pub const HASH_SIZE: usize = 32;

/// Whether two byte strings hold the same bytes.
pub fn same_bytes(left: &[u8], right: &[u8]) -> (same: bool)
    ensures
        same == (left@ == right@),
{
    if left.len() != right.len() {
        return false;
    }
    let mut i: usize = 0;
    while i < left.len()
        invariant
            i <= left.len(),
            left@.len() == right@.len(),
            forall|j: int| 0 <= j < i ==> left@[j] == right@[j],
        decreases left.len() - i,
    {
        if left[i] != right[i] {
            return false;
        }
        i += 1;
    }
    assert(left@ =~= right@);
    true
}

/// The bytes as a hash, where there are exactly 32 of them.
pub fn hash_from_bytes(bytes: &[u8]) -> (hash: Option<[u8; 32]>)
    ensures
        hash is Some <==> bytes@.len() == 32,
        hash is Some ==> hash->0@ == bytes@,
{
    if bytes.len() != HASH_SIZE {
        return None;
    }
    let mut hash = [0u8; 32];
    let mut i: usize = 0;
    while i < HASH_SIZE
        invariant
            i <= 32,
            bytes@.len() == 32,
            forall|j: int| 0 <= j < i ==> hash@[j] == bytes@[j],
        decreases 32 - i,
    {
        hash[i] = bytes[i];
        i += 1;
    }
    assert(hash@ =~= bytes@);
    Some(hash)
}

/// The hash of 32 zero bytes.
pub open spec fn zero_hash() -> Seq<u8> {
    Seq::new(32, |i: int| 0u8)
}

/// A hash of 32 zero bytes.
pub fn zeroed_hash() -> (hash: [u8; 32])
    ensures
        hash@ == zero_hash(),
{
    let hash = [0u8; 32];
    assert(hash@ =~= zero_hash());
    hash
}

} // verus!

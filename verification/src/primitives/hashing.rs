use vstd::prelude::*;
use crate::primitives::types::ContentHash;

verus! {

/// The 256-bit BLAKE2b digest of a byte string.
///
/// Nothing is stated of its value; the digest is only ever compared.
pub uninterp spec fn blake2_256(data: Seq<u8>) -> Seq<u8>;

/// Calls `sp_runtime::traits::Hash::hash` of `BlakeTwo256`, which runs BLAKE2b
/// with a digest of 32 bytes over `data`, and hands the digest out as its
/// bytes. The contract claims only that the result is that digest: a function
/// of the bytes alone.
#[verifier::external_body]
pub(crate) fn hash_bytes(data: &Vec<u8>) -> (h: ContentHash)
    ensures
        h@ == blake2_256(data@),
{
    <sp_runtime::traits::BlakeTwo256 as sp_runtime::traits::Hash>::hash(data.as_slice())
        .to_fixed_bytes()
}

/// Whether two hashes are the same 32 bytes.
pub fn hash_eq(a: &ContentHash, b: &ContentHash) -> (r: bool)
    ensures
        r == (a@ == b@),
{
    let mut i: usize = 0;
    while i < 32
        invariant
            i <= 32,
            forall|j: int| 0 <= j < i ==> a@[j] == b@[j],
        decreases 32 - i,
    {
        if a[i] != b[i] {
            return false;
        }
        i += 1;
    }
    assert(a@ =~= b@);
    true
}

} // verus!

//! The BLAKE3 keyed hash, as this library sees it.

use vstd::prelude::*;

verus! {

/// The 32-byte digest that BLAKE3 in keyed mode gives for `input` under `key`.
pub uninterp spec fn blake3_keyed_hash(key: Seq<u8>, input: Seq<u8>) -> [u8; 32];

/// Calls `blake3::keyed_hash` and hands back the digest's bytes.
///
/// Trusted: the digest depends on the key and the input alone, and it is the
/// value that `blake3_keyed_hash` stands for.
#[verifier::external_body]
pub(crate) fn keyed_hash(key: &[u8; 32], input: &[u8]) -> (digest: [u8; 32])
    ensures
        digest == blake3_keyed_hash(key@, input@),
{
    *blake3::keyed_hash(key, input).as_bytes()
}

/// Whether a digest and a candidate signature are the same bytes.
pub fn digest_matches(digest: &[u8; 32], signature: &[u8]) -> (same: bool)
    ensures
        same == (digest@ == signature@),
{
    if signature.len() != 32 {
        return false;
    }
    let mut i: usize = 0;
    while i < 32
        invariant
            i <= 32,
            signature@.len() == 32,
            forall|j: int| 0 <= j < i ==> digest@[j] == signature@[j],
        decreases 32 - i,
    {
        if digest[i] != signature[i] {
            return false;
        }
        i = i + 1;
    }
    assert(digest@ =~= signature@);
    true
}

} // verus!

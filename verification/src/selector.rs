//! Truncating a 32-byte digest to a 4-byte function selector.

use vstd::prelude::*;

verus! {

/// The selector derived from a digest: its first four bytes, positionally.
pub open spec fn selector_of(digest: Seq<u8>) -> Seq<u8> {
    digest.subrange(0, 4)
}

/// Truncates an already-computed 32-byte digest to the 4-byte selector used
/// to route an inbound call: always the first four bytes of the digest.
pub fn digest_to_selector(digest: [u8; 32]) -> (selector: [u8; 4])
    ensures
        selector@ == selector_of(digest@),
        forall|i: int| 0 <= i < 4 ==> selector@[i] == digest@[i],
{
    let selector: [u8; 4] = [digest[0], digest[1], digest[2], digest[3]];
    proof {
        assert(selector@ =~= selector_of(digest@));
    }
    selector
}

/// The selector depends on the first four bytes of the digest alone: two
/// digests that agree there have the same selector, whatever their other
/// twenty-eight bytes hold.
pub proof fn lemma_selector_first_four_only(d1: Seq<u8>, d2: Seq<u8>)
    requires
        d1.len() >= 4,
        d2.len() >= 4,
        forall|i: int| 0 <= i < 4 ==> d1[i] == d2[i],
    ensures
        selector_of(d1) == selector_of(d2),
{
    assert(selector_of(d1) =~= selector_of(d2));
}

} // verus!

//! The 32-byte words of the IDL wire format, as mathematical byte sequences.

use vstd::prelude::*;

verus! {

/// 256 raised to the power `k` (1 for `k <= 0`).
pub open spec fn pow256(k: int) -> nat
    decreases k,
{
    if k <= 0 {
        1
    } else {
        256 * pow256(k - 1)
    }
}

/// Byte `i` of the 32-byte word holding `n`, counted from the most
/// significant end: the word is `n` in big-endian order.
pub open spec fn abi_word_byte(n: nat, i: int) -> u8 {
    ((n / pow256(31 - i)) % 256) as u8
}

/// The single 32-byte word of the IDL encoding of an unsigned value `n`:
/// `n` in big-endian byte order, left-padded with zeroes.
pub open spec fn abi_word(n: nat) -> Seq<u8> {
    Seq::new(32, |i: int| abi_word_byte(n, i))
}

/// One word per element, in element order: the tail of a `uint64[]` encoding.
pub open spec fn u64_words(s: Seq<u64>) -> Seq<u8>
    decreases s.len(),
{
    if s.len() == 0 {
        Seq::empty()
    } else {
        abi_word(s[0] as nat) + u64_words(s.drop_first())
    }
}

} // verus!

//! Plain value types with a declared IDL encoding: the scalar, tuple and
//! array shapes a contract function returns. The byte-level encoding itself
//! is the IDL library's work, called through trusted wrappers whose contracts
//! state the wire format exactly.

use vstd::prelude::*;

use crate::encode::AbiValue;
use crate::words::abi_word;
use crate::words::u64_words;

verus! {

/// Relies on `alloy_sol_types::SolType::abi_encode` at sol type `uint64`:
/// the encoding is one 32-byte word holding the value in big-endian order,
/// left-padded with zeroes.
#[verifier::external_body]
fn sol_encode_u64(v: u64) -> (r: Vec<u8>)
    ensures
        r@ == abi_word(v as nat),
{
    <alloy_sol_types::sol_data::Uint<64> as alloy_sol_types::SolType>::abi_encode(&v)
}

/// Relies on `alloy_sol_types::SolType::abi_encode` at sol type `bool`:
/// the encoding is one 32-byte word holding 1 for true and 0 for false.
#[verifier::external_body]
fn sol_encode_bool(v: bool) -> (r: Vec<u8>)
    ensures
        r@ == abi_word(if v { 1nat } else { 0nat }),
{
    <alloy_sol_types::sol_data::Bool as alloy_sol_types::SolType>::abi_encode(&v)
}

/// Relies on `alloy_sol_types::SolType::abi_encode` at the empty tuple:
/// the empty tuple has no head and no tail words, so its encoding is empty.
#[verifier::external_body]
fn sol_encode_unit() -> (r: Vec<u8>)
    ensures
        r@ == Seq::<u8>::empty(),
{
    <() as alloy_sol_types::SolType>::abi_encode(&())
}

/// Relies on `alloy_sol_types::SolType::abi_encode` at sol type
/// `(uint64,bool)`: a static tuple's encoding is its members' words
/// concatenated in order.
#[verifier::external_body]
fn sol_encode_u64_bool(a: u64, b: bool) -> (r: Vec<u8>)
    ensures
        r@ == abi_word(a as nat) + abi_word(if b { 1nat } else { 0nat }),
{
    <(alloy_sol_types::sol_data::Uint<64>, alloy_sol_types::sol_data::Bool) as alloy_sol_types::SolType>::abi_encode(&(a, b))
}

/// Relies on `alloy_sol_types::SolType::abi_encode` at sol type `uint64[]`:
/// a dynamic array framed as a one-element tuple encodes as the offset word
/// 32, the length word, then one word per element in order.
#[verifier::external_body]
fn sol_encode_u64_array(v: &Vec<u64>) -> (r: Vec<u8>)
    ensures
        r@ == abi_word(32) + abi_word(v@.len()) + u64_words(v@),
{
    <alloy_sol_types::sol_data::Array<alloy_sol_types::sol_data::Uint<64>> as alloy_sol_types::SolType>::abi_encode(v)
}

impl AbiValue for u64 {
    open spec fn abi_encoding(self) -> Seq<u8> {
        abi_word(self as nat)
    }

    open spec fn abi_ret_signature() -> Seq<char> {
        "uint64"@
    }

    fn abi_encode(self) -> (r: Vec<u8>) {
        sol_encode_u64(self)
    }

    fn abi_ret() -> (s: String) {
        <String as vstd::string::StringExecFns>::from_str("uint64")
    }
}

impl AbiValue for bool {
    open spec fn abi_encoding(self) -> Seq<u8> {
        abi_word(if self { 1nat } else { 0nat })
    }

    open spec fn abi_ret_signature() -> Seq<char> {
        "bool"@
    }

    fn abi_encode(self) -> (r: Vec<u8>) {
        sol_encode_bool(self)
    }

    fn abi_ret() -> (s: String) {
        <String as vstd::string::StringExecFns>::from_str("bool")
    }
}

impl AbiValue for () {
    open spec fn abi_encoding(self) -> Seq<u8> {
        Seq::empty()
    }

    open spec fn abi_ret_signature() -> Seq<char> {
        "()"@
    }

    fn abi_encode(self) -> (r: Vec<u8>) {
        sol_encode_unit()
    }

    fn abi_ret() -> (s: String) {
        <String as vstd::string::StringExecFns>::from_str("()")
    }
}

impl AbiValue for (u64, bool) {
    open spec fn abi_encoding(self) -> Seq<u8> {
        abi_word(self.0 as nat) + abi_word(if self.1 { 1nat } else { 0nat })
    }

    open spec fn abi_ret_signature() -> Seq<char> {
        "(uint64,bool)"@
    }

    fn abi_encode(self) -> (r: Vec<u8>) {
        sol_encode_u64_bool(self.0, self.1)
    }

    fn abi_ret() -> (s: String) {
        <String as vstd::string::StringExecFns>::from_str("(uint64,bool)")
    }
}

impl AbiValue for Vec<u64> {
    open spec fn abi_encoding(self) -> Seq<u8> {
        abi_word(32) + abi_word(self@.len()) + u64_words(self@)
    }

    open spec fn abi_ret_signature() -> Seq<char> {
        "uint64[]"@
    }

    fn abi_encode(self) -> (r: Vec<u8>) {
        sol_encode_u64_array(&self)
    }

    fn abi_ret() -> (s: String) {
        <String as vstd::string::StringExecFns>::from_str("uint64[]")
    }
}

} // verus!

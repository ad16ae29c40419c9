//! Return-value ABI encoding for contract entry points.
//!
//! A contract-callable function's typed result — a plain value or a fallible
//! `Result` — is turned into a canonical byte payload: `Ok(bytes)` holds the
//! value's IDL tuple encoding, `Err(bytes)` carries opaque revert data. Around
//! that sit three small utilities: truncating a digest to a 4-byte selector,
//! rejecting calls that attach a nonzero value transfer, and formatting a
//! human-readable `returns (...)` fragment from a return type's signature.

mod diagnostics;
mod encode;
mod formatting;
mod guard;
mod selector;
mod values;
mod words;

pub use diagnostics::failed_to_decode_arguments;
pub use encode::AbiValue;
pub use encode::ArbResult;
pub use encode::EncodableReturnType;
pub use encode::ErrorBytes;
pub use encode::lemma_encode_err_verbatim;
pub use encode::lemma_encode_ok_delegates;
pub use encode::lemma_encode_plain;
pub use encode::payload_view;
pub use formatting::AbiResult;
pub use formatting::returns_fragment;
pub use formatting::solidity_returns_fragment;
pub use formatting::write_solidity_returns;
pub use guard::CallValue;
pub use guard::deny_value;
pub use guard::not_payable_message;
pub use selector::digest_to_selector;
pub use selector::lemma_selector_first_four_only;
pub use selector::selector_of;
pub use words::abi_word;
pub use words::abi_word_byte;
pub use words::pow256;
pub use words::u64_words;

//! Encoding a contract function's return value into the host's byte-buffer
//! success/failure channel.

use vstd::prelude::*;

verus! {

/// The byte-buffer result handed to the host: `Ok` carries IDL-encoded
/// return data, `Err` carries opaque revert data (possibly empty).
pub type ArbResult = Result<Vec<u8>, Vec<u8>>;

/// The payload as mathematics: each branch's bytes as a sequence.
pub open spec fn payload_view(r: ArbResult) -> Result<Seq<u8>, Seq<u8>> {
    match r {
        Ok(b) => Ok(b@),
        Err(b) => Err(b@),
    }
}

/// A plain value with a declared IDL encoding. Such a value encodes itself
/// as a tuple of at least one element, and its type names the signature
/// string under which it is exported.
pub trait AbiValue: Sized {
    /// The value's canonical IDL encoding, framed as a tuple of at least
    /// one element.
    spec fn abi_encoding(self) -> Seq<u8>;

    /// The type's declared return-type signature string.
    spec fn abi_ret_signature() -> Seq<char>;

    /// Produce the IDL encoding of this value.
    fn abi_encode(self) -> (r: Vec<u8>)
        ensures
            r@ == self.abi_encoding(),
    ;

    /// Produce the declared return-type signature string.
    fn abi_ret() -> (s: String)
        ensures
            s@ == Self::abi_ret_signature(),
    ;
}

/// An error convertible to raw bytes. The conversion's output is emitted as
/// revert data verbatim; no IDL encoding is ever applied to it.
pub trait ErrorBytes: Sized {
    /// The bytes this error converts to.
    spec fn error_bytes(self) -> Seq<u8>;

    /// Convert the error into its raw bytes.
    fn into_error_bytes(self) -> (r: Vec<u8>)
        ensures
            r@ == self.error_bytes(),
    ;
}

impl ErrorBytes for Vec<u8> {
    open spec fn error_bytes(self) -> Seq<u8> {
        self@
    }

    fn into_error_bytes(self) -> (r: Vec<u8>) {
        self
    }
}

impl ErrorBytes for String {
    open spec fn error_bytes(self) -> Seq<u8> {
        vstd::utf8::encode_utf8(self@)
    }

    fn into_error_bytes(self) -> (r: Vec<u8>) {
        vstd::string::StrSliceExecFns::as_bytes_vec(self.as_str())
    }
}

/// A return value that generated dispatch code can hand to the host without
/// knowing its shape: a plain value or a fallible value, unified behind one
/// `encode` operation resolved at compile time.
pub trait EncodableReturnType: Sized {
    /// The payload this return value encodes to.
    spec fn encoded_payload(self) -> Result<Seq<u8>, Seq<u8>>;

    /// Encode this return value into the host's byte-buffer channel.
    fn encode(self) -> (r: ArbResult)
        ensures
            payload_view(r) == self.encoded_payload(),
    ;
}

impl<T: AbiValue> EncodableReturnType for T {
    open spec fn encoded_payload(self) -> Result<Seq<u8>, Seq<u8>> {
        Ok(self.abi_encoding())
    }

    fn encode(self) -> (r: ArbResult) {
        // coerce types into a tuple of at least 1 element
        Ok(self.abi_encode())
    }
}

impl<T: AbiValue, E: ErrorBytes> EncodableReturnType for Result<T, E> {
    open spec fn encoded_payload(self) -> Result<Seq<u8>, Seq<u8>> {
        match self {
            Ok(v) => Ok(v.abi_encoding()),
            Err(e) => Err(e.error_bytes()),
        }
    }

    fn encode(self) -> (r: ArbResult) {
        match self {
            Ok(result) => result.encode(),
            Err(err) => Err(err.into_error_bytes()),
        }
    }
}

/// A plain value's payload is always the success branch, holding exactly the
/// value's IDL tuple encoding.
pub proof fn lemma_encode_plain<T: AbiValue>(v: T)
    ensures
        v.encoded_payload() == Ok::<Seq<u8>, Seq<u8>>(v.abi_encoding()),
{
}

/// Delegation is exact: a fallible value holding a success encodes to the
/// same payload as the plain value itself, with no extra wrapping.
pub proof fn lemma_encode_ok_delegates<T: AbiValue, E: ErrorBytes>(v: T)
    ensures
        Ok::<T, E>(v).encoded_payload() == v.encoded_payload(),
{
}

/// The failure branch passes the error's bytes through verbatim: the payload
/// is the error branch holding exactly the error's byte conversion.
pub proof fn lemma_encode_err_verbatim<T: AbiValue, E: ErrorBytes>(e: E)
    ensures
        Err::<T, E>(e).encoded_payload() == Err::<Seq<u8>, Seq<u8>>(e.error_bytes()),
{
}

} // verus!

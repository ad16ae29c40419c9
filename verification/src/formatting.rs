//! Formatting a human-readable `returns (...)` fragment from a return type's
//! declared signature string.

use vstd::prelude::*;

use crate::encode::AbiValue;

verus! {

/// The `returns` fragment for a declared return-type signature, by exact
/// textual comparison: nothing for the empty-tuple marker, the signature
/// unchanged after `" returns "` when it already is a tuple, and otherwise
/// the signature wrapped in parentheses to match tuple-return syntax.
pub open spec fn returns_fragment(abi: Seq<char>) -> Seq<char> {
    if abi == "()"@ {
        Seq::empty()
    } else if abi.len() > 0 && abi[0] == '(' {
        " returns "@ + abi
    } else {
        " returns ("@ + abi + ")"@
    }
}

/// Formats the `returns` fragment for a signature string. Purely textual:
/// the signature is not validated as IDL syntax.
pub fn solidity_returns_fragment(abi: &str) -> (s: String)
    ensures
        s@ == returns_fragment(abi@),
{
    proof {
        reveal_strlit("()");
    }
    let n = vstd::string::StrSliceExecFns::unicode_len(abi);
    if n == 2 && vstd::string::StrSliceExecFns::get_char(abi, 0) == '('
        && vstd::string::StrSliceExecFns::get_char(abi, 1) == ')' {
        proof {
            assert(abi@ =~= "()"@);
        }
        String::new()
    } else if n > 0 && vstd::string::StrSliceExecFns::get_char(abi, 0) == '(' {
        let mut s = <String as vstd::string::StringExecFns>::from_str(" returns ");
        vstd::string::StringExecFns::append(&mut s, abi);
        s
    } else {
        let mut s = <String as vstd::string::StringExecFns>::from_str(" returns (");
        vstd::string::StringExecFns::append(&mut s, abi);
        vstd::string::StringExecFns::append(&mut s, ")");
        proof {
            assert(s@ =~= " returns ("@ + abi@ + ")"@);
        }
        s
    }
}

/// A shape a contract function's result can take, reduced to the plain value
/// it yields on success: a fallible value names its success type, a plain
/// value names itself.
pub trait AbiResult {
    /// The plain value yielded on success.
    type OkType;
}

impl<O, E> AbiResult for Result<O, E> {
    type OkType = O;
}

impl<T: AbiValue> AbiResult for T {
    type OkType = T;
}

/// The `returns` fragment for a contract function whose result has shape `T`,
/// from the declared signature of the plain value `T` yields on success.
pub fn write_solidity_returns<T: AbiResult>() -> (s: String) where T::OkType: AbiValue
    ensures
        s@ == returns_fragment(<T::OkType as AbiValue>::abi_ret_signature()),
{
    let abi = <T::OkType as AbiValue>::abi_ret();
    solidity_returns_fragment(abi.as_str())
}

} // verus!

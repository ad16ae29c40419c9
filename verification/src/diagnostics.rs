//! Diagnostic lines for developer-visible logging. The library builds the
//! text; emitting it to the diagnostic sink is the caller's side of the
//! split, and no diagnostic is part of the host-visible result.

use vstd::prelude::*;

verus! {

/// The diagnostic line for a call whose arguments failed to decode: the
/// decoder's own description of the failure, interpolated into a
/// human-readable message.
pub fn failed_to_decode_arguments(err: &str) -> (m: String)
    ensures
        m@ == "failed to decode arguments: "@ + err@,
{
    let mut m = <String as vstd::string::StringExecFns>::from_str("failed to decode arguments: ");
    vstd::string::StringExecFns::append(&mut m, err);
    m
}

} // verus!

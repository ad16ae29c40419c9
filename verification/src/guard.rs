//! Rejecting calls that attach a nonzero value transfer to a non-payable
//! entry point.

use vstd::prelude::*;

verus! {

/// The amount of value attached to the current call, as the host reports it:
/// a 256-bit unsigned amount held as four 64-bit limbs, least significant
/// limb first.
pub struct CallValue {
    /// The limbs, least significant first.
    pub limbs: [u64; 4],
}

impl CallValue {
    /// The amount as a mathematical integer.
    pub open spec fn as_nat(&self) -> nat {
        self.limbs@[0] as nat + self.limbs@[1] as nat * 0x1_0000_0000_0000_0000
            + self.limbs@[2] as nat * 0x1_0000_0000_0000_0000_0000_0000_0000_0000
            + self.limbs@[3] as nat
            * 0x1_0000_0000_0000_0000_0000_0000_0000_0000_0000_0000_0000_0000
    }

    /// Whether the attached amount is the additive identity.
    pub fn is_zero(&self) -> (r: bool)
        ensures
            r == (self.as_nat() == 0),
    {
        self.limbs[0] == 0 && self.limbs[1] == 0 && self.limbs[2] == 0 && self.limbs[3] == 0
    }
}

/// Guards a non-payable entry point: succeeds exactly when the attached
/// value is zero, and otherwise rejects the call with an empty error buffer —
/// the empty buffer itself is the "call rejected" signal, carrying no
/// structured payload. The diagnostic line that accompanies a rejection is
/// [`not_payable_message`]; emitting it is the caller's side of the split.
pub fn deny_value(method_name: &str, value: &CallValue) -> (r: Result<(), Vec<u8>>)
    ensures
        r is Ok <==> value.as_nat() == 0,
        r is Err ==> r->Err_0@ == Seq::<u8>::empty(),
{
    if value.is_zero() {
        Ok(())
    } else {
        Err(Vec::new())
    }
}

/// The diagnostic line paired with a value-guard rejection: the method name
/// interpolated into a human-readable message. The host-visible error stays
/// empty; this text goes only to the diagnostic sink.
pub fn not_payable_message(method_name: &str) -> (m: String)
    ensures
        m@ == "method "@ + method_name@ + " not payable"@,
{
    let mut m = <String as vstd::string::StringExecFns>::from_str("method ");
    vstd::string::StringExecFns::append(&mut m, method_name);
    vstd::string::StringExecFns::append(&mut m, " not payable");
    proof {
        assert(m@ =~= "method "@ + method_name@ + " not payable"@);
    }
    m
}

} // verus!

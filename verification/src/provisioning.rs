//! The decisions of the `activate-locking` and `take-ownership` commands:
//! which password to use when none is given, and what to report after the
//! device has been checked.
use vstd::prelude::*;

verus! {

/// A command that changes the device and then checks that the change took.
#[derive(Clone, Copy, Debug, PartialEq, Eq, Structural)]
pub enum ProvisioningStep {
    /// `activate-locking`: activate the Locking SP.
    ActivateLocking,
    /// `take-ownership`: set the SID password.
    TakeOwnership,
}

/// The given password, or the empty password when none is given.
pub open spec fn password_text(p: Option<String>) -> Seq<char> {
    match p {
        Some(s) => s@,
        None => ""@,
    }
}

/// The given password, or the empty password when none is given.
pub fn password_or_empty(p: &Option<String>) -> (r: &str)
    ensures
        r@ == password_text(*p),
{
    match p {
        Some(s) => s.as_str(),
        None => "",
    }
}

/// What the command reports once the device has been checked.
pub open spec fn verification_report(step: ProvisioningStep, verified: bool) -> Seq<char> {
    if !verified {
        "Verification failed."@
    } else {
        match step {
            ProvisioningStep::ActivateLocking => "Locking activated successfully."@,
            ProvisioningStep::TakeOwnership => "Ownership taken successfully."@,
        }
    }
}

/// What the command reports once the device has been checked.
pub fn verification_message(step: ProvisioningStep, verified: bool) -> (r: &'static str)
    ensures
        r@ == verification_report(step, verified),
{
    if !verified {
        "Verification failed."
    } else {
        match step {
            ProvisioningStep::ActivateLocking => "Locking activated successfully.",
            ProvisioningStep::TakeOwnership => "Ownership taken successfully.",
        }
    }
}

/// Law: a given password is used as it is and a missing one is empty; a
/// failed check reads the same for both commands and differs from either
/// success, and the two successes read differently.
pub proof fn law_provisioning(p: Option<String>, step: ProvisioningStep)
    ensures
        p matches Some(s) ==> password_text(p) == s@,
        p is None ==> password_text(p).len() == 0,
        verification_report(ProvisioningStep::ActivateLocking, false) == verification_report(
            ProvisioningStep::TakeOwnership,
            false,
        ),
        verification_report(step, true) != verification_report(step, false),
        verification_report(ProvisioningStep::ActivateLocking, true) != verification_report(
            ProvisioningStep::TakeOwnership,
            true,
        ),
{
    reveal_strlit("");
    reveal_strlit("Verification failed.");
    reveal_strlit("Locking activated successfully.");
    reveal_strlit("Ownership taken successfully.");
    assert("Verification failed."@[0] != "Locking activated successfully."@[0]);
    assert("Verification failed."@[0] != "Ownership taken successfully."@[0]);
    assert("Locking activated successfully."@[0] != "Ownership taken successfully."@[0]);
}

} // verus!

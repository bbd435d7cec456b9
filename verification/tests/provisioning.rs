use sed_manager_cli::provisioning::{password_or_empty, verification_message, ProvisioningStep};

#[test]
fn default_password_is_empty() {
    assert_eq!(password_or_empty(&None), "");
    assert_eq!(password_or_empty(&Some("secret".to_string())), "secret");
    assert_eq!(password_or_empty(&Some(String::new())), "");
}

#[test]
fn verification_messages() {
    assert_eq!(
        verification_message(ProvisioningStep::ActivateLocking, true),
        "Locking activated successfully."
    );
    assert_eq!(
        verification_message(ProvisioningStep::TakeOwnership, true),
        "Ownership taken successfully."
    );
    assert_eq!(verification_message(ProvisioningStep::ActivateLocking, false), "Verification failed.");
    assert_eq!(verification_message(ProvisioningStep::TakeOwnership, false), "Verification failed.");
}

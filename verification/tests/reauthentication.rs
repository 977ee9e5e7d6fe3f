use task_governance::reauthentication::{
    ProofMethod, ReauthenticationReceipt, ReauthenticationValidationError, ReceiptPurpose,
    ReceiptScope, RequestCorrelationId, UtcInstant,
};
use uuid::{Uuid, Version};

fn user() -> String {
    "macro|actor@example.com".to_owned()
}

#[test]
fn issuance_is_random_scoped_and_expires_after_five_minutes() {
    let issued_at = UtcInstant { seconds: 1_700_000_000, nanos: 0 };
    let scope = ReceiptScope::new(7, user(), ReceiptPurpose::CompanyRoleChange);
    let first = ReauthenticationReceipt::issue(
        scope.clone(),
        ProofMethod::Password,
        issued_at,
        RequestCorrelationId::try_new("request-1").unwrap(),
    );
    let second = ReauthenticationReceipt::issue(
        scope.clone(),
        ProofMethod::Password,
        issued_at,
        RequestCorrelationId::try_new("request-2").unwrap(),
    );

    assert_eq!(Uuid::from_u128(first.id()).get_version(), Some(Version::Random));
    assert_ne!(first.id(), second.id());
    assert_eq!(*first.scope(), scope);
    assert_eq!(first.expires_at().seconds - first.issued_at().seconds, 300);
}

#[test]
fn request_id_is_required_and_bounded() {
    assert_eq!(
        RequestCorrelationId::try_new("  "),
        Err(ReauthenticationValidationError::EmptyRequestId)
    );
    assert_eq!(
        RequestCorrelationId::try_new("x".repeat(257)),
        Err(ReauthenticationValidationError::RequestIdTooLong)
    );
}

#[test]
fn password_mfa_is_a_closed_receipt_proof_method() {
    assert_eq!(ProofMethod::PasswordMfa.as_str(), "password_mfa");
}

#[test]
fn request_id_accepts_exactly_the_storage_bound() {
    let id = RequestCorrelationId::try_new("x".repeat(256)).unwrap();
    assert_eq!(id.as_str().len(), 256);
    assert_eq!(
        RequestCorrelationId::try_new(""),
        Err(ReauthenticationValidationError::EmptyRequestId)
    );
    assert_eq!(
        RequestCorrelationId::try_new("\t\n "),
        Err(ReauthenticationValidationError::EmptyRequestId)
    );
    let padded = RequestCorrelationId::try_new(" request-3 ").unwrap();
    assert_eq!(padded.as_str(), " request-3 ");
    assert_eq!(padded.duplicate(), padded);
}

#[test]
fn request_id_bound_counts_utf8_bytes() {
    // 128 two-byte characters fill the bound; one more exceeds it.
    assert!(RequestCorrelationId::try_new("é".repeat(128)).is_ok());
    assert_eq!(
        RequestCorrelationId::try_new("é".repeat(129)),
        Err(ReauthenticationValidationError::RequestIdTooLong)
    );
}

#[test]
fn validation_errors_have_fixed_messages() {
    assert_eq!(
        ReauthenticationValidationError::EmptyRequestId.message(),
        "request_id must not be empty"
    );
    assert_eq!(
        ReauthenticationValidationError::RequestIdTooLong.message(),
        "request_id exceeds 256 bytes"
    );
}

#[test]
fn proof_methods_and_purpose_have_stable_texts() {
    assert_eq!(ProofMethod::Password.as_str(), "password");
    assert_eq!(ReceiptPurpose::CompanyRoleChange.as_str(), "company_role_change");
    assert_eq!(ReceiptPurpose::BusinessAuditExport.as_str(), "business_audit_export");
}

#[test]
fn receipt_keeps_what_it_was_issued_with() {
    let issued_at = UtcInstant { seconds: 42, nanos: 17 };
    let scope = ReceiptScope::new(9, user(), ReceiptPurpose::CompanyRoleChange);
    let receipt = ReauthenticationReceipt::issue(
        scope.duplicate(),
        ProofMethod::PasswordMfa,
        issued_at,
        RequestCorrelationId::try_new("request-9").unwrap(),
    );
    assert_eq!(receipt.proof_method(), ProofMethod::PasswordMfa);
    assert_eq!(receipt.issued_at(), issued_at);
    assert_eq!(receipt.expires_at(), UtcInstant { seconds: 342, nanos: 17 });
    assert_eq!(receipt.request_id().as_str(), "request-9");
    assert_eq!(receipt.scope().team_id, 9);
    // The random id carries the version-4 and RFC 4122 variant bits.
    assert_eq!(receipt.id() & 0xf000_c000_0000_0000_0000, 0x4000_8000_0000_0000_0000);
}

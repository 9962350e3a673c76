use user_registry::password::{
    hash_password, validate_password, verify_password_from_hash, CredentialError,
};
use user_registry::prelude::ValidationError;

#[test]
fn password_policy_cases() {
    assert_eq!(validate_password("weak"), Err(ValidationError::WeakPassword));
    assert_eq!(validate_password("Ab1"), Err(ValidationError::WeakPassword));
    assert_eq!(validate_password("abcdef1"), Err(ValidationError::WeakPassword));
    assert_eq!(validate_password("ABCDEF"), Err(ValidationError::WeakPassword));
    assert_eq!(validate_password("Abcd1"), Ok(()));
    assert_eq!(validate_password("Str0ngPass1"), Ok(()));
}

#[test]
fn hash_is_salted_and_verifies() {
    let a = hash_password("Str0ngPass1").unwrap();
    let b = hash_password("Str0ngPass1").unwrap();
    assert_ne!(a, b);
    assert_ne!(a, "Str0ngPass1");
    assert_eq!(a.len(), 60);
    assert_eq!(verify_password_from_hash("Str0ngPass1", &a), Ok(true));
    assert_eq!(verify_password_from_hash("Str0ngPass1", &b), Ok(true));
    assert_eq!(verify_password_from_hash("str0ngPass1", &a), Ok(false));
}

#[test]
fn verify_rejects_malformed_hash() {
    assert_eq!(verify_password_from_hash("x", ""), Err(CredentialError::MalformedHash));
    assert_eq!(
        verify_password_from_hash("x", "not a bcrypt hash"),
        Err(CredentialError::MalformedHash)
    );
}

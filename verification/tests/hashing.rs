//! The credential hasher: salted, self-describing, non-deterministic and
//! one-way.

use registration::credential::{hash_password, verify_password};
use registration::request::CreateUserRequest;

#[test]
fn test_hash_is_nondeterministic_and_verifiable() {
    let first = hash_password("Valid@123").unwrap();
    let second = hash_password("Valid@123").unwrap();
    // a fresh random salt each call: two hashes of one password differ
    assert_ne!(first, second);
    // each independently verifies as matching the password
    assert_eq!(verify_password("Valid@123", &first), Ok(true));
    assert_eq!(verify_password("Valid@123", &second), Ok(true));
    // and neither is the plaintext
    assert_ne!(first, "Valid@123");
    assert_ne!(second, "Valid@123");
}

#[test]
fn test_hash_is_self_describing() {
    let hash = hash_password("Valid@123").unwrap();
    assert_eq!(hash.len(), 60);
    // the algorithm tag and the cost are embedded ahead of the salt
    assert!(hash.starts_with("$2b$12$"));
}

#[test]
fn test_verify_rejects_the_wrong_password() {
    let hash = hash_password("Valid@123").unwrap();
    assert_eq!(verify_password("Valid@124", &hash), Ok(false));
    assert_eq!(verify_password("", &hash), Ok(false));
}

#[test]
fn test_verify_rejects_a_malformed_credential() {
    assert!(verify_password("Valid@123", "not-a-credential").is_err());
}

#[test]
fn test_model_builds_the_record_to_persist() {
    let request = CreateUserRequest {
        username: "validuser".to_string(),
        email: "user@example.com".to_string(),
        password: "Valid@123".to_string(),
    };
    let user = request.model().unwrap();
    assert_eq!(user.id, 0);
    assert_eq!(user.username, "validuser");
    assert_eq!(user.email, "user@example.com");
    assert_eq!(user.status, "active");
    assert_eq!(user.created_at, user.updated_at);
    assert_ne!(user.password_hash, "Valid@123");
    assert_eq!(verify_password("Valid@123", &user.password_hash), Ok(true));
}

//! End-to-end registration scenarios against the in-memory store and cache.

use registration::auth::AuthState;
use registration::cache::Cache;
use registration::credential::verify_password;
use registration::errors::{RegistrationError, StoreError, ValidationError};
use registration::repository::UserRepository;
use registration::request::CreateUserRequest;

fn valid_request() -> CreateUserRequest {
    CreateUserRequest {
        username: "validuser".to_string(),
        email: "user@example.com".to_string(),
        password: "Valid@123".to_string(),
    }
}

fn fresh_state() -> AuthState {
    AuthState::new(UserRepository::new(), Cache::new())
}

#[test]
fn test_register_success() {
    let mut state = fresh_state();
    let user = state.register(&valid_request()).unwrap();
    assert!(user.id > 0);
    assert_eq!(user.status, "active");
    assert_ne!(user.password_hash, "Valid@123");
    assert_eq!(user.username, "validuser");
    assert_eq!(user.email, "user@example.com");
    assert_eq!(user.created_at, user.updated_at);
    assert_eq!(verify_password("Valid@123", &user.password_hash), Ok(true));
    assert_eq!(state.store.users.len(), 1);
    // the cache was warmed under the new user's id
    assert_eq!(state.cache.entries.len(), 1);
    assert_eq!(state.cache.entries[0].0, user.id);
}

#[test]
fn test_register_same_input_twice_conflicts() {
    let mut state = fresh_state();
    assert!(state.register(&valid_request()).is_ok());
    assert_eq!(state.register(&valid_request()).unwrap_err(), RegistrationError::AlreadyExists);
    let rows = state.store.users.iter().filter(|u| u.username == "validuser").count();
    assert_eq!(rows, 1);
}

#[test]
fn test_register_same_username_different_email_conflicts() {
    let mut state = fresh_state();
    assert!(state.register(&valid_request()).is_ok());
    let other_email = CreateUserRequest { email: "other@example.com".to_string(), ..valid_request() };
    assert_eq!(state.register(&other_email).unwrap_err(), RegistrationError::AlreadyExists);
    assert_eq!(state.store.users.len(), 1);
}

#[test]
fn test_register_same_email_different_username_conflicts() {
    let mut state = fresh_state();
    assert!(state.register(&valid_request()).is_ok());
    let other_name = CreateUserRequest { username: "otheruser".to_string(), ..valid_request() };
    assert_eq!(state.register(&other_name).unwrap_err(), RegistrationError::AlreadyExists);
    assert_eq!(state.store.users.len(), 1);
}

#[test]
fn test_register_short_password_touches_no_store() {
    let mut state = fresh_state();
    let request = CreateUserRequest { password: "Short1!".to_string(), ..valid_request() };
    assert_eq!(
        state.register(&request).unwrap_err(),
        RegistrationError::InvalidInput(ValidationError::PasswordTooShort)
    );
    assert_eq!(state.store.create_calls, 0);
    assert_eq!(state.store.users.len(), 0);
    assert_eq!(state.cache.entries.len(), 0);
}

#[test]
fn test_register_bad_username_touches_no_store() {
    let mut state = fresh_state();
    let request = CreateUserRequest { username: "ab".to_string(), ..valid_request() };
    assert_eq!(
        state.register(&request).unwrap_err(),
        RegistrationError::InvalidInput(ValidationError::UsernameLength)
    );
    assert_eq!(state.store.create_calls, 0);
    assert_eq!(state.store.users.len(), 0);
}

#[test]
fn test_register_survives_cache_failure() {
    let mut state = fresh_state();
    state.cache.inject_set_failure();
    let user = state.register(&valid_request()).unwrap();
    assert!(user.id > 0);
    assert_eq!(state.store.users.len(), 1);
    // the failed write left no entry and the failure was not propagated
    assert_eq!(state.cache.entries.len(), 0);
}

#[test]
fn test_register_maps_store_unavailable_to_internal() {
    let mut state = fresh_state();
    state.store.inject_fault(StoreError::Unavailable);
    assert_eq!(state.register(&valid_request()).unwrap_err(), RegistrationError::Internal);
    assert_eq!(state.store.users.len(), 0);
    // the fault was consumed: the next attempt succeeds
    assert!(state.register(&valid_request()).is_ok());
}

#[test]
fn test_register_assigns_increasing_ids() {
    let mut state = fresh_state();
    let first = state.register(&valid_request()).unwrap();
    let second_request = CreateUserRequest {
        username: "otheruser".to_string(),
        email: "other@example.com".to_string(),
        password: "Valid@123".to_string(),
    };
    let second = state.register(&second_request).unwrap();
    assert_eq!(first.id, 1);
    assert_eq!(second.id, 2);
}

#[test]
fn test_create_ignores_caller_supplied_id() {
    let mut state = fresh_state();
    let mut user = valid_request().model().unwrap();
    user.id = 77;
    let created = state.create_user(user).unwrap();
    assert_eq!(created.id, 1);
}

#[test]
fn test_by_id_finds_the_created_record() {
    let mut state = fresh_state();
    let user = state.register(&valid_request()).unwrap();
    let found = state.store.by_id(user.id).unwrap().unwrap();
    assert_eq!(found.username, "validuser");
    assert_eq!(found.email, "user@example.com");
    assert!(state.store.by_id(999).unwrap().is_none());
}

#[test]
fn test_change_password_replaces_only_the_credential() {
    let mut state = fresh_state();
    let user = state.register(&valid_request()).unwrap();
    let old_hash = user.password_hash.clone();
    assert!(state.store.change_password(user.id, "rotated-credential".to_string()).is_ok());
    let found = state.store.by_id(user.id).unwrap().unwrap();
    assert_eq!(found.password_hash, "rotated-credential");
    assert_ne!(found.password_hash, old_hash);
    assert_eq!(found.username, user.username);
    assert_eq!(found.created_at, user.created_at);
    // an absent id changes nothing and is not an error
    assert!(state.store.change_password(999, "x".to_string()).is_ok());
    assert_eq!(state.store.users.len(), 1);
}

#[test]
fn test_cache_user_data_is_keyed_by_id() {
    let mut state = fresh_state();
    assert!(state.cache_user_data(42, "payload".to_string()).is_ok());
    assert_eq!(state.cache.entries[0], (42, "payload".to_string()));
}

#[test]
fn test_error_mapping_for_transport() {
    let invalid = RegistrationError::InvalidInput(ValidationError::EmailFormat);
    assert_eq!(invalid.status_code(), 400);
    assert_eq!(invalid.message(), "Invalid email format.");
    assert_eq!(RegistrationError::AlreadyExists.status_code(), 400);
    assert_eq!(RegistrationError::AlreadyExists.message(), "Username or email already exists.");
    assert_eq!(RegistrationError::Internal.status_code(), 500);
    assert_eq!(RegistrationError::Internal.message(), "Internal server error.");
}

//! Classification of backend failure messages, and the store used on its
//! own through the transport layer's state.

use registration::app::AppState;
use registration::errors::StoreError;
use registration::repository::UserRepository;
use registration::request::CreateUserRequest;
use registration::text::{classify_store_failure, contains_text};

#[test]
fn test_unique_constraint_messages_are_conflicts() {
    let message = "duplicate key value violates unique constraint \"users_username_key\"";
    assert_eq!(classify_store_failure(message), StoreError::Conflict);
    assert_eq!(classify_store_failure("connection refused"), StoreError::Internal);
    assert_eq!(classify_store_failure(""), StoreError::Internal);
    assert_eq!(classify_store_failure("UNIQUE CONSTRAINT"), StoreError::Internal);
}

#[test]
fn test_contains_text() {
    assert!(contains_text("unique constraint", "unique constraint"));
    assert!(contains_text("abcabd", "abd"));
    assert!(!contains_text("abcabc", "abd"));
    assert!(contains_text("anything", ""));
    assert!(!contains_text("short", "much longer than the haystack"));
}

#[test]
fn test_app_state_creates_through_the_store() {
    let mut state = AppState::new(UserRepository::new());
    let request = CreateUserRequest {
        username: "validuser".to_string(),
        email: "user@example.com".to_string(),
        password: "Valid@123".to_string(),
    };
    let created = state.create_user(request.model().unwrap()).unwrap();
    assert_eq!(created.id, 1);
    assert_eq!(created.status, "active");
    // the same username conflicts, whatever the email
    let mut second = request.model().unwrap();
    second.email = "other@example.com".to_string();
    assert_eq!(state.create_user(second).unwrap_err(), StoreError::Conflict);
    assert_eq!(state.store.users.len(), 1);
}

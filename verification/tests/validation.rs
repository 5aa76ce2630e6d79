//! The validator's rules, checked in order with the first failure winning.

use registration::errors::ValidationError;
use registration::request::CreateUserRequest;

fn request(username: &str, email: &str, password: &str) -> CreateUserRequest {
    CreateUserRequest {
        username: username.to_string(),
        email: email.to_string(),
        password: password.to_string(),
    }
}

#[test]
fn test_validate_valid_data() {
    let request = request("validuser", "user@example.com", "Valid@123");
    assert!(request.validate().is_ok());
}

#[test]
fn test_validate_invalid_username() {
    let request = request("ab", "user@example.com", "Valid@123");
    assert_eq!(
        request.validate().unwrap_err().message(),
        "Username must be between 3 and 30 characters."
    );
}

#[test]
fn test_validate_invalid_email() {
    let request = request("validuser", "userexample.com", "Valid@123");
    assert_eq!(request.validate().unwrap_err().message(), "Invalid email format.");
}

#[test]
fn test_validate_short_password() {
    let request = request("validuser", "user@example.com", "Short1!");
    assert_eq!(
        request.validate().unwrap_err().message(),
        "Password must be at least 8 characters long."
    );
}

#[test]
fn test_validate_password_missing_uppercase() {
    let request = request("validuser", "user@example.com", "lower@123");
    assert_eq!(
        request.validate().unwrap_err().message(),
        "Password must contain uppercase, lowercase, digit, and special character."
    );
}

#[test]
fn test_validate_password_missing_lowercase() {
    let request = request("validuser", "user@example.com", "UPPER@123");
    assert_eq!(
        request.validate().unwrap_err().message(),
        "Password must contain uppercase, lowercase, digit, and special character."
    );
}

#[test]
fn test_validate_password_missing_digit() {
    let request = request("validuser", "user@example.com", "NoDigits@");
    assert_eq!(
        request.validate().unwrap_err().message(),
        "Password must contain uppercase, lowercase, digit, and special character."
    );
}

#[test]
fn test_validate_password_missing_special_character() {
    let request = request("validuser", "user@example.com", "NoSpecial123");
    assert_eq!(
        request.validate().unwrap_err().message(),
        "Password must contain uppercase, lowercase, digit, and special character."
    );
}

#[test]
fn test_validate_returns_typed_errors() {
    assert_eq!(
        request("ab", "user@example.com", "Valid@123").validate().unwrap_err(),
        ValidationError::UsernameLength
    );
    assert_eq!(
        request("validuser", "userexample.com", "Valid@123").validate().unwrap_err(),
        ValidationError::EmailFormat
    );
    assert_eq!(
        request("validuser", "user@example.com", "Short1!").validate().unwrap_err(),
        ValidationError::PasswordTooShort
    );
    assert_eq!(
        request("validuser", "user@example.com", "NoSpecial123").validate().unwrap_err(),
        ValidationError::PasswordComplexity
    );
}

#[test]
fn test_validate_username_boundaries() {
    assert!(request("abc", "user@example.com", "Valid@123").validate().is_ok());
    assert!(request(&"a".repeat(30), "user@example.com", "Valid@123").validate().is_ok());
    assert_eq!(
        request(&"a".repeat(31), "user@example.com", "Valid@123").validate().unwrap_err(),
        ValidationError::UsernameLength
    );
    assert_eq!(
        request("", "user@example.com", "Valid@123").validate().unwrap_err(),
        ValidationError::UsernameLength
    );
}

#[test]
fn test_validate_first_failure_wins() {
    // both the username and the email are bad: the username rule is
    // checked first
    assert_eq!(
        request("ab", "userexample.com", "short").validate().unwrap_err(),
        ValidationError::UsernameLength
    );
}

#[test]
fn test_validate_email_shapes() {
    let ok = |email: &str| request("validuser", email, "Valid@123").validate().is_ok();
    assert!(ok("user@example.com"));
    assert!(ok("first.last-name@sub.example-host.org"));
    assert!(ok("u@e.co"));
    assert!(!ok("user@example.c"));
    assert!(!ok("@example.com"));
    assert!(!ok("user@.com"));
    assert!(!ok("user@examplecom"));
    assert!(!ok("user@@example.com"));
    assert!(!ok("us er@example.com"));
    assert!(!ok("user@example.com."));
    assert!(!ok(""));
}

#[test]
fn test_validate_password_boundaries() {
    // exactly 8 characters with all four categories passes
    assert!(request("validuser", "user@example.com", "Abcde1!x").validate().is_ok());
    // a control character counts as the non-alphanumeric category
    assert!(request("validuser", "user@example.com", "Abcdef1\u{7}").validate().is_ok());
    // 7 characters fails on length before complexity
    assert_eq!(
        request("validuser", "user@example.com", "Abcd1!x").validate().unwrap_err(),
        ValidationError::PasswordTooShort
    );
}

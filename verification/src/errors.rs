//! The error taxonomy of the registration pipeline.
//!
//! Validation failures, store failures and cache failures are kept apart;
//! the orchestrator maps store failures onto the caller-facing
//! [`RegistrationError`].

use vstd::prelude::*;

verus! {

/// The reason a registration request was rejected before any hashing or
/// store access took place.  The four rules are checked in this order and
/// the first failure wins.
#[derive(Clone, Copy, Debug, PartialEq, Eq, Structural)]
pub enum ValidationError {
    /// The username is shorter than 3 or longer than 30 characters.
    UsernameLength,
    /// The email does not match the required pattern.
    EmailFormat,
    /// The password is shorter than 8 characters.
    PasswordTooShort,
    /// The password misses an uppercase letter, a lowercase letter, a
    /// decimal digit, or a character that is neither letter nor digit.
    PasswordComplexity,
}

impl ValidationError {
    /// What [`ValidationError::message`] returns, as a sequence of characters.
    pub open spec fn message_spec(&self) -> Seq<char> {
        match *self {
            ValidationError::UsernameLength => "Username must be between 3 and 30 characters."@,
            ValidationError::EmailFormat => "Invalid email format."@,
            ValidationError::PasswordTooShort => "Password must be at least 8 characters long."@,
            ValidationError::PasswordComplexity => "Password must contain uppercase, lowercase, digit, and special character."@,
        }
    }

    /// The human-readable rule that was violated.
    pub fn message(&self) -> (r: String)
        ensures
            r@ == self.message_spec(),
    {
        match self {
            ValidationError::UsernameLength => "Username must be between 3 and 30 characters.".to_owned(),
            ValidationError::EmailFormat => "Invalid email format.".to_owned(),
            ValidationError::PasswordTooShort => "Password must be at least 8 characters long.".to_owned(),
            ValidationError::PasswordComplexity => "Password must contain uppercase, lowercase, digit, and special character.".to_owned(),
        }
    }
}

/// A failure reported by the user store.
#[derive(Clone, Copy, Debug, PartialEq, Eq, Structural)]
pub enum StoreError {
    /// An insert would violate the uniqueness of usernames or emails.
    Conflict,
    /// The backend could not be reached; transient.
    Unavailable,
    /// Any other backend failure.
    Internal,
}

/// A failure reported by the cache.  Cache failures are observed for
/// logging only and never change the outcome of a registration.
#[derive(Clone, Copy, Debug, PartialEq, Eq, Structural)]
pub enum CacheError {
    /// The cache could not be reached or refused the write.
    Unavailable,
}

/// The caller-facing failure of a registration.
#[derive(Clone, Copy, Debug, PartialEq, Eq, Structural)]
pub enum RegistrationError {
    /// One of the validation rules failed; carries the rule.
    InvalidInput(ValidationError),
    /// The username or the email is already taken.  Which of the two
    /// collided is deliberately not revealed.
    AlreadyExists,
    /// A hashing failure or an unclassified store failure.
    Internal,
}

/// How the orchestrator maps a store failure onto the caller-facing error:
/// a uniqueness conflict becomes [`RegistrationError::AlreadyExists`], every
/// other store failure becomes [`RegistrationError::Internal`].
pub open spec fn registration_error_of_store(e: StoreError) -> RegistrationError {
    match e {
        StoreError::Conflict => RegistrationError::AlreadyExists,
        StoreError::Unavailable => RegistrationError::Internal,
        StoreError::Internal => RegistrationError::Internal,
    }
}

impl RegistrationError {
    /// Maps a store failure onto the caller-facing error.
    pub fn from_store_error(e: StoreError) -> (r: RegistrationError)
        ensures
            r == registration_error_of_store(e),
    {
        match e {
            StoreError::Conflict => RegistrationError::AlreadyExists,
            StoreError::Unavailable => RegistrationError::Internal,
            StoreError::Internal => RegistrationError::Internal,
        }
    }

    /// The HTTP status code the transport layer answers with: a client
    /// error for rejected input and conflicts, a server error otherwise.
    pub fn status_code(&self) -> (r: u16)
        ensures
            r == (match *self {
                RegistrationError::InvalidInput(_) => 400u16,
                RegistrationError::AlreadyExists => 400u16,
                RegistrationError::Internal => 500u16,
            }),
    {
        match self {
            RegistrationError::InvalidInput(_) => 400,
            RegistrationError::AlreadyExists => 400,
            RegistrationError::Internal => 500,
        }
    }

    /// The message the transport layer surfaces.  A conflict is reported
    /// without revealing whether the username or the email collided, and
    /// an internal failure leaks no detail.
    pub fn message(&self) -> (r: String)
        ensures
            *self matches RegistrationError::InvalidInput(e) ==> r@ == e.message_spec(),
            *self == RegistrationError::AlreadyExists ==> r@ == "Username or email already exists."@,
            *self == RegistrationError::Internal ==> r@ == "Internal server error."@,
    {
        match self {
            RegistrationError::InvalidInput(e) => e.message(),
            RegistrationError::AlreadyExists => "Username or email already exists.".to_owned(),
            RegistrationError::Internal => "Internal server error.".to_owned(),
        }
    }
}

} // verus!

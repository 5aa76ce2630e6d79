//! The registration request and its validation rules.

use vstd::prelude::*;
use vstd::string::StrSliceExecFns;
use vstd::string::StringExecFns;
use crate::chars::{
    check_decimal_digit,
    is_alphanumeric_char,
    is_decimal_digit,
    is_lowercase_char,
    is_uppercase_char,
};
use crate::clock::now_utc_millis;
use crate::credential::{bcrypt_accepts, bcrypt_credential_wf, hash_password};
use crate::email::email_ok;
use crate::errors::{RegistrationError, ValidationError};
use crate::user::User;

verus! {

/// A candidate registration: username, email and plaintext password.  The
/// plaintext exists only until it is hashed or the request is rejected; it
/// is never persisted.
#[derive(Debug)]
pub struct CreateUserRequest {
    pub username: String,
    pub email: String,
    pub password: String,
}

/// The view of a [`CreateUserRequest`].
pub ghost struct RequestModel {
    pub username: Seq<char>,
    pub email: Seq<char>,
    pub password: Seq<char>,
}

impl View for CreateUserRequest {
    type V = RequestModel;

    open spec fn view(&self) -> RequestModel {
        RequestModel {
            username: self.username@,
            email: self.email@,
            password: self.password@,
        }
    }
}

/// The username rule: between 3 and 30 characters, inclusive.  Lengths
/// here and below count characters (Unicode scalar values), not bytes: a
/// deliberate choice, visible only on multi-byte input.
pub open spec fn username_ok(username: Seq<char>) -> bool {
    3 <= username.len() <= 30
}

/// The password length rule: at least 8 characters.
pub open spec fn password_length_ok(password: Seq<char>) -> bool {
    password.len() >= 8
}

/// The password complexity rule: at least one uppercase letter, one
/// lowercase letter, one decimal digit, and one character that is neither
/// letter nor digit.
pub open spec fn password_complex(password: Seq<char>) -> bool {
    &&& (exists|k: int| 0 <= k < password.len() && is_uppercase_char(#[trigger] password[k]))
    &&& (exists|k: int| 0 <= k < password.len() && is_lowercase_char(#[trigger] password[k]))
    &&& (exists|k: int| 0 <= k < password.len() && is_decimal_digit(#[trigger] password[k]))
    &&& (exists|k: int| 0 <= k < password.len() && !is_alphanumeric_char(#[trigger] password[k]))
}

/// The validation rules, applied in order; the first failure wins.
pub open spec fn validation_of(req: RequestModel) -> Result<(), ValidationError> {
    if !username_ok(req.username) {
        Err(ValidationError::UsernameLength)
    } else if !email_ok(req.email) {
        Err(ValidationError::EmailFormat)
    } else if !password_length_ok(req.password) {
        Err(ValidationError::PasswordTooShort)
    } else if !password_complex(req.password) {
        Err(ValidationError::PasswordComplexity)
    } else {
        Ok(())
    }
}

/// Scans the password once, recording whether each of the four required
/// character categories occurs.
fn check_password_complexity(password: &str) -> (r: bool)
    ensures
        r == password_complex(password@),
{
    let n = password.unicode_len();
    let mut has_upper = false;
    let mut has_lower = false;
    let mut has_digit = false;
    let mut has_special = false;
    let mut i: usize = 0;
    while i < n
        invariant
            n == password@.len(),
            i <= n,
            has_upper == (exists|k: int|
                0 <= k < i && is_uppercase_char(#[trigger] password@[k])),
            has_lower == (exists|k: int|
                0 <= k < i && is_lowercase_char(#[trigger] password@[k])),
            has_digit == (exists|k: int|
                0 <= k < i && is_decimal_digit(#[trigger] password@[k])),
            has_special == (exists|k: int|
                0 <= k < i && !is_alphanumeric_char(#[trigger] password@[k])),
        decreases n - i,
    {
        let c = password.get_char(i);
        if c.is_uppercase() {
            has_upper = true;
        }
        if c.is_lowercase() {
            has_lower = true;
        }
        if check_decimal_digit(c) {
            has_digit = true;
        }
        if !c.is_alphanumeric() {
            has_special = true;
        }
        i += 1;
    }
    has_upper && has_lower && has_digit && has_special
}

impl CreateUserRequest {
    /// Checks the request against the validation rules, in order, with the
    /// first failure winning.  A pure check: no hashing and no store
    /// access happens here or before this.
    pub fn validate(&self) -> (r: Result<(), ValidationError>)
        ensures
            r == validation_of(self@),
    {
        let username_len = self.username.as_str().unicode_len();
        if username_len < 3 || username_len > 30 {
            return Err(ValidationError::UsernameLength);
        }
        if !crate::email::check_email(self.email.as_str()) {
            return Err(ValidationError::EmailFormat);
        }
        if self.password.as_str().unicode_len() < 8 {
            return Err(ValidationError::PasswordTooShort);
        }
        if !check_password_complexity(self.password.as_str()) {
            return Err(ValidationError::PasswordComplexity);
        }
        Ok(())
    }

    /// Builds the user record to persist: the credential derived from the
    /// password, `id` left unset for the store to assign, status
    /// `"active"`, and both timestamps set to the same instant.  A hashing
    /// failure surfaces as [`RegistrationError::Internal`].
    pub fn model(&self) -> (r: Result<User, RegistrationError>)
        ensures
            r matches Ok(u) ==> {
                &&& u@.id == 0
                &&& u@.username == self@.username
                &&& u@.email == self@.email
                &&& u@.status == "active"@
                &&& bcrypt_accepts(self@.password, u@.password_hash)
                &&& bcrypt_credential_wf(u@.password_hash)
                &&& ((self@.password.len() != 60 || self@.password[0] != '$')
                    ==> u@.password_hash != self@.password)
                &&& u@.created_at == u@.updated_at
            },
            r matches Err(e) ==> e == RegistrationError::Internal,
    {
        let password_hash = match hash_password(self.password.as_str()) {
            Ok(h) => h,
            Err(e) => {
                return Err(e);
            },
        };
        let now = now_utc_millis();
        Ok(
            User {
                id: 0,
                username: self.username.clone(),
                email: self.email.clone(),
                status: String::from_str("active"),
                password_hash,
                created_at: now,
                updated_at: now,
            },
        )
    }
}

} // verus!

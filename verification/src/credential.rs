//! Derivation and verification of the password credential.
//!
//! The credential is a bcrypt string: it embeds the algorithm version, the
//! cost, a fresh random salt and the derived digest, so verification needs
//! no external parameter lookup.  Hashing is deliberately slow and one-way.

use vstd::prelude::*;
use crate::errors::RegistrationError;

verus! {

/// Whether `bcrypt::verify` accepts `password` against the credential
/// string `hash`: the digest recomputed from the password with the salt
/// and cost embedded in `hash` equals the digest embedded in `hash`.  A
/// function of the two arguments alone.
pub uninterp spec fn bcrypt_accepts(password: Seq<char>, hash: Seq<char>) -> bool;

/// Whether `hash` parses as a bcrypt credential: 60 ASCII characters of
/// `$`-separated version tag, two-digit cost in the allowed range, and
/// base64 salt and digest.  This is exactly the condition under which
/// `bcrypt::verify` returns a verdict rather than an error; a function of
/// `hash` alone.
pub uninterp spec fn bcrypt_credential_wf(hash: Seq<char>) -> bool;

#[verifier::external_type_specification]
#[verifier::external_body]
pub struct ExBcryptError(bcrypt::BcryptError);

/// Relies on `bcrypt::hash` with `bcrypt::DEFAULT_COST`: on success the
/// result is a well-formed 60-character credential over a fresh random
/// salt, prefixed by the version tag and the cost, and verifying the
/// password against it succeeds.  It fails only when the system randomness
/// source fails.
#[verifier::external_body]
fn bcrypt_hash(password: &str) -> (r: Result<String, bcrypt::BcryptError>)
    ensures
        r matches Ok(h) ==> {
            &&& bcrypt_accepts(password@, h@)
            &&& bcrypt_credential_wf(h@)
            &&& h@.len() == 60
            &&& h@[0] == '$'
            &&& h@.subrange(0, 7) == "$2b$12$"@
        },
{
    bcrypt::hash(password, bcrypt::DEFAULT_COST)
}

/// Relies on `bcrypt::verify`: recomputes the digest from the password and
/// the salt and cost embedded in `hash`; the result depends on the two
/// arguments alone.  It returns a verdict exactly when the credential
/// string is well-formed, and fails otherwise.
#[verifier::external_body]
fn bcrypt_verify(password: &str, hash: &str) -> (r: Result<bool, bcrypt::BcryptError>)
    ensures
        r is Ok <==> bcrypt_credential_wf(hash@),
        r matches Ok(b) ==> b == bcrypt_accepts(password@, hash@),
{
    bcrypt::verify(password, hash)
}

/// Derives the stored credential from a plaintext password.  A failure to
/// compute the hash is unrecoverable for the request and surfaces as
/// [`RegistrationError::Internal`].
pub fn hash_password(password: &str) -> (r: Result<String, RegistrationError>)
    ensures
        r matches Ok(h) ==> {
            &&& bcrypt_accepts(password@, h@)
            &&& bcrypt_credential_wf(h@)
            &&& h@.len() == 60
            &&& h@[0] == '$'
            &&& h@.subrange(0, 7) == "$2b$12$"@
        },
        // the credential is never the plaintext (passwords themselves
        // shaped like a 60-character `$`-prefixed credential are told
        // apart at runtime instead)
        r matches Ok(h) ==> ((password@.len() != 60 || password@[0] != '$') ==> h@ != password@),
        r matches Err(e) ==> e == RegistrationError::Internal,
{
    match bcrypt_hash(password) {
        Ok(h) => Ok(h),
        Err(_) => Err(RegistrationError::Internal),
    }
}

/// Checks a plaintext password against a stored credential.  A verdict
/// comes back exactly when the credential is well-formed — in particular
/// for everything [`hash_password`] produces; a malformed credential
/// string is reported as [`RegistrationError::Internal`].
pub fn verify_password(password: &str, hash: &str) -> (r: Result<bool, RegistrationError>)
    ensures
        r is Ok <==> bcrypt_credential_wf(hash@),
        r matches Ok(b) ==> b == bcrypt_accepts(password@, hash@),
        r matches Err(e) ==> e == RegistrationError::Internal,
{
    match bcrypt_verify(password, hash) {
        Ok(b) => Ok(b),
        Err(_) => Err(RegistrationError::Internal),
    }
}

} // verus!

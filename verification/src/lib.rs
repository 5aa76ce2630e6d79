//! A user-registration library: validation of a candidate
//! username/email/password, derivation of a salted one-way password
//! credential, and creation of the user record with uniqueness-conflict
//! handling, together with the error taxonomy surfaced to callers.

pub mod app;
pub mod auth;
pub mod cache;
pub mod chars;
pub mod clock;
pub mod credential;
pub mod email;
pub mod errors;
pub mod repository;
pub mod request;
pub mod text;
pub mod user;

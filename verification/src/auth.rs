//! The registration service: orchestrates the validator, the credential
//! hasher, the user store and the best-effort cache, and owns the error
//! mapping exposed to the transport layer.

use vstd::prelude::*;
use crate::cache::{cache_view, Cache};
use crate::credential::{bcrypt_accepts, bcrypt_credential_wf};
use crate::errors::{registration_error_of_store, CacheError, RegistrationError, StoreError, ValidationError};
use crate::repository::{has_email, has_username, UserRepository};
use crate::request::{validation_of, CreateUserRequest};
use crate::user::User;

verus! {

/// The service state: the persistence gateway and the cache, injected at
/// construction so callers can substitute their own instances.
pub struct AuthState {
    pub store: UserRepository,
    pub cache: Cache,
}

impl AuthState {
    /// Builds the service around its two collaborators.
    pub fn new(store: UserRepository, cache: Cache) -> (r: AuthState)
        ensures
            r.store == store,
            r.cache == cache,
    {
        AuthState { store, cache }
    }

    /// The service is well-formed when its store is.
    pub open spec fn wf(&self) -> bool {
        self.store.wf()
    }

    /// Inserts a user record through the store; the cache is untouched.
    pub fn create_user(&mut self, user: User) -> (r: Result<User, StoreError>)
        requires
            old(self).wf(),
        ensures
            final(self).wf(),
            final(self).cache == old(self).cache,
            final(self).store.fault is None,
            old(self).store.fault matches Some(e) ==> {
                &&& r == Err::<User, StoreError>(e)
                &&& final(self).store.records() == old(self).store.records()
                &&& final(self).store.next_id == old(self).store.next_id
            },
            old(self).store.fault is None && (has_username(
                old(self).store.records(),
                user@.username,
            ) || has_email(old(self).store.records(), user@.email)) ==> {
                &&& r == Err::<User, StoreError>(StoreError::Conflict)
                &&& final(self).store.records() == old(self).store.records()
                &&& final(self).store.next_id == old(self).store.next_id
            },
            old(self).store.fault is None && !has_username(
                old(self).store.records(),
                user@.username,
            ) && !has_email(old(self).store.records(), user@.email) && old(self).store.next_id
                == i32::MAX ==> {
                &&& r == Err::<User, StoreError>(StoreError::Internal)
                &&& final(self).store.records() == old(self).store.records()
                &&& final(self).store.next_id == old(self).store.next_id
            },
            old(self).store.fault is None && !has_username(
                old(self).store.records(),
                user@.username,
            ) && !has_email(old(self).store.records(), user@.email) && old(self).store.next_id
                < i32::MAX ==> (r matches Ok(nu) && {
                &&& nu@.id == old(self).store.next_id
                &&& nu@.username == user@.username
                &&& nu@.email == user@.email
                &&& nu@.status == user@.status
                &&& nu@.password_hash == user@.password_hash
                &&& nu@.created_at == nu@.updated_at
                &&& final(self).store.records() == old(self).store.records().push(nu@)
                &&& final(self).store.next_id == old(self).store.next_id + 1
            }),
    {
        self.store.create(&user)
    }

    /// Writes a value for a user id through the cache; the store is
    /// untouched.
    pub fn cache_user_data(&mut self, user_id: i32, data: String) -> (r: Result<(), CacheError>)
        ensures
            final(self).store == old(self).store,
            !final(self).cache.fail_next_set,
            old(self).cache.fail_next_set ==> {
                &&& r == Err::<(), CacheError>(CacheError::Unavailable)
                &&& final(self).cache.entries == old(self).cache.entries
            },
            !old(self).cache.fail_next_set ==> {
                &&& r == Ok::<(), CacheError>(())
                &&& cache_view(final(self).cache.entries@) == cache_view(
                    old(self).cache.entries@,
                ).push((user_id as int, data@))
            },
    {
        self.cache.set(user_id, data, None)
    }

    /// The durability step of a registration, taking the already-built
    /// record: inserts it through the store, maps store failures onto the
    /// caller-facing error, and on success warms the cache with the new
    /// user's username under its id — a best-effort write whose failure
    /// never changes the outcome.
    pub fn complete_registration(&mut self, user: User) -> (r: Result<User, RegistrationError>)
        requires
            old(self).wf(),
        ensures
            final(self).wf(),
            final(self).store.fault is None,
            r matches Err(e) ==> e == RegistrationError::AlreadyExists || e
                == RegistrationError::Internal,
            r is Err ==> {
                &&& final(self).store.records() == old(self).store.records()
                &&& final(self).store.next_id == old(self).store.next_id
                &&& final(self).cache == old(self).cache
            },
            old(self).store.fault matches Some(f) ==> r == Err::<User, RegistrationError>(
                registration_error_of_store(f),
            ),
            old(self).store.fault is None && (has_username(
                old(self).store.records(),
                user@.username,
            ) || has_email(old(self).store.records(), user@.email)) ==> r == Err::<
                User,
                RegistrationError,
            >(RegistrationError::AlreadyExists),
            old(self).store.fault is None && !has_username(
                old(self).store.records(),
                user@.username,
            ) && !has_email(old(self).store.records(), user@.email) && old(self).store.next_id
                == i32::MAX ==> r == Err::<User, RegistrationError>(RegistrationError::Internal),
            old(self).store.fault is None && !has_username(
                old(self).store.records(),
                user@.username,
            ) && !has_email(old(self).store.records(), user@.email) && old(self).store.next_id
                < i32::MAX ==> (r matches Ok(nu) && {
                &&& nu@.id == old(self).store.next_id
                &&& nu@.username == user@.username
                &&& nu@.email == user@.email
                &&& nu@.status == user@.status
                &&& nu@.password_hash == user@.password_hash
                &&& nu@.created_at == nu@.updated_at
                &&& final(self).store.records() == old(self).store.records().push(nu@)
                &&& final(self).store.next_id == old(self).store.next_id + 1
                &&& (!old(self).cache.fail_next_set ==> cache_view(final(self).cache.entries@)
                    == cache_view(old(self).cache.entries@).push((nu@.id, nu@.username)))
                &&& (old(self).cache.fail_next_set ==> cache_view(final(self).cache.entries@)
                    == cache_view(old(self).cache.entries@))
            }),
    {
        let created = match self.store.create(&user) {
            Ok(c) => c,
            Err(e) => {
                return Err(RegistrationError::from_store_error(e));
            },
        };
        // Best-effort cache warm: the result is observed for logging only
        // and never joins the caller's result.
        let _warmed = self.cache.set(created.id, created.username.clone(), None);
        Ok(created)
    }

    /// Registers a user: validates the request (returning immediately on
    /// failure, before any hashing or store access), derives the
    /// credential, builds the record, and persists it through
    /// [`AuthState::complete_registration`].
    pub fn register(&mut self, req: &CreateUserRequest) -> (r: Result<User, RegistrationError>)
        requires
            old(self).wf(),
        ensures
            final(self).wf(),
            validation_of(req@) matches Err(e) ==> {
                &&& r == Err::<User, RegistrationError>(RegistrationError::InvalidInput(e))
                &&& *final(self) == *old(self)
            },
            r matches Err(RegistrationError::InvalidInput(v)) ==> validation_of(req@) == Err::<
                (),
                ValidationError,
            >(v),
            r is Err ==> {
                &&& final(self).store.records() == old(self).store.records()
                &&& final(self).store.next_id == old(self).store.next_id
                &&& cache_view(final(self).cache.entries@) == cache_view(old(self).cache.entries@)
            },
            r == Err::<User, RegistrationError>(RegistrationError::AlreadyExists) ==> {
                &&& validation_of(req@) is Ok
                &&& (has_username(old(self).store.records(), req@.username) || has_email(
                    old(self).store.records(),
                    req@.email,
                ))
            },
            r == Err::<User, RegistrationError>(RegistrationError::Internal) ==> validation_of(
                req@,
            ) is Ok,
            // the durability step always consumes an injected fault, so a
            // resubmission's outcome is pinned by the records alone
            r is Ok || r == Err::<User, RegistrationError>(RegistrationError::AlreadyExists)
                ==> final(self).store.fault is None,
            r matches Ok(nu) ==> {
                &&& validation_of(req@) is Ok
                &&& old(self).store.fault is None
                &&& !has_username(old(self).store.records(), req@.username)
                &&& !has_email(old(self).store.records(), req@.email)
                &&& nu@.id == old(self).store.next_id
                &&& 1 <= nu@.id
                &&& nu@.username == req@.username
                &&& nu@.email == req@.email
                &&& nu@.status == "active"@
                &&& bcrypt_accepts(req@.password, nu@.password_hash)
                &&& bcrypt_credential_wf(nu@.password_hash)
                &&& ((req@.password.len() != 60 || req@.password[0] != '$')
                    ==> nu@.password_hash != req@.password)
                &&& nu@.created_at == nu@.updated_at
                &&& final(self).store.records() == old(self).store.records().push(nu@)
                &&& final(self).store.next_id == old(self).store.next_id + 1
                &&& (!old(self).cache.fail_next_set ==> cache_view(final(self).cache.entries@)
                    == cache_view(old(self).cache.entries@).push((nu@.id, nu@.username)))
                &&& (old(self).cache.fail_next_set ==> cache_view(final(self).cache.entries@)
                    == cache_view(old(self).cache.entries@))
            },
    {
        if let Err(e) = req.validate() {
            return Err(RegistrationError::InvalidInput(e));
        }
        let user = match req.model() {
            Ok(u) => u,
            Err(e) => {
                return Err(e);
            },
        };
        self.complete_registration(user)
    }
}

} // verus!

//! The transport layer's state: the persistence gateway alone, for hosts
//! that wire the cache elsewhere.

use vstd::prelude::*;
use crate::errors::StoreError;
use crate::repository::{has_email, has_username, UserRepository};
use crate::user::User;

verus! {

/// State holding the store injected at construction.
pub struct AppState {
    pub store: UserRepository,
}

impl AppState {
    /// Builds the state around its store.
    pub fn new(store: UserRepository) -> (r: AppState)
        ensures
            r.store == store,
    {
        AppState { store }
    }

    /// Inserts a user record through the store.
    pub fn create_user(&mut self, user: User) -> (r: Result<User, StoreError>)
        requires
            old(self).store.wf(),
        ensures
            final(self).store.wf(),
            final(self).store.fault is None,
            old(self).store.fault matches Some(e) ==> {
                &&& r == Err::<User, StoreError>(e)
                &&& final(self).store.records() == old(self).store.records()
                &&& final(self).store.next_id == old(self).store.next_id
            },
            old(self).store.fault is None && (has_username(
                old(self).store.records(),
                user@.username,
            ) || has_email(old(self).store.records(), user@.email)) ==> {
                &&& r == Err::<User, StoreError>(StoreError::Conflict)
                &&& final(self).store.records() == old(self).store.records()
                &&& final(self).store.next_id == old(self).store.next_id
            },
            old(self).store.fault is None && !has_username(
                old(self).store.records(),
                user@.username,
            ) && !has_email(old(self).store.records(), user@.email) && old(self).store.next_id
                == i32::MAX ==> {
                &&& r == Err::<User, StoreError>(StoreError::Internal)
                &&& final(self).store.records() == old(self).store.records()
                &&& final(self).store.next_id == old(self).store.next_id
            },
            old(self).store.fault is None && !has_username(
                old(self).store.records(),
                user@.username,
            ) && !has_email(old(self).store.records(), user@.email) && old(self).store.next_id
                < i32::MAX ==> (r matches Ok(nu) && {
                &&& nu@.id == old(self).store.next_id
                &&& nu@.username == user@.username
                &&& nu@.email == user@.email
                &&& nu@.status == user@.status
                &&& nu@.password_hash == user@.password_hash
                &&& nu@.created_at == nu@.updated_at
                &&& final(self).store.records() == old(self).store.records().push(nu@)
                &&& final(self).store.next_id == old(self).store.next_id + 1
            }),
    {
        self.store.create(&user)
    }
}

} // verus!

//! The persisted user record and its mathematical view.

use vstd::prelude::*;

verus! {

/// A user record.  `id` is `0` before persistence and store-assigned
/// afterwards; `username` and `email` are globally unique across records;
/// `password_hash` is an opaque credential produced by the hasher;
/// `created_at` and `updated_at` are UTC timestamps in milliseconds since
/// the Unix epoch, both set at creation.
#[derive(Debug)]
pub struct User {
    pub id: i32,
    pub username: String,
    pub email: String,
    pub status: String,
    pub password_hash: String,
    pub created_at: i64,
    pub updated_at: i64,
}

/// The view of a [`User`]: the same record over mathematical values.
pub ghost struct UserModel {
    pub id: int,
    pub username: Seq<char>,
    pub email: Seq<char>,
    pub status: Seq<char>,
    pub password_hash: Seq<char>,
    pub created_at: int,
    pub updated_at: int,
}

impl View for User {
    type V = UserModel;

    open spec fn view(&self) -> UserModel {
        UserModel {
            id: self.id as int,
            username: self.username@,
            email: self.email@,
            status: self.status@,
            password_hash: self.password_hash@,
            created_at: self.created_at as int,
            updated_at: self.updated_at as int,
        }
    }
}

impl Clone for User {
    fn clone(&self) -> (r: Self)
        ensures
            r@ == self@,
    {
        User {
            id: self.id,
            username: self.username.clone(),
            email: self.email.clone(),
            status: self.status.clone(),
            password_hash: self.password_hash.clone(),
            created_at: self.created_at,
            updated_at: self.updated_at,
        }
    }
}

} // verus!

//! The user store: insert-returning creation with uniqueness-conflict
//! handling, point lookup by id, and credential rotation.
//!
//! The store enforces the uniqueness invariant itself, atomically at
//! insert time: a create either persists the full record and returns it,
//! or persists nothing and reports why.  A transient backend failure can
//! be injected for the next create, so callers' failure handling can be
//! exercised.

use vstd::prelude::*;
use crate::clock::now_utc_millis;
use crate::errors::StoreError;
use crate::user::{User, UserModel};

verus! {

/// Whether some record in `users` has this username.
pub open spec fn has_username(users: Seq<UserModel>, username: Seq<char>) -> bool {
    exists|i: int| 0 <= i < users.len() && (#[trigger] users[i]).username == username
}

/// Whether some record in `users` has this email.
pub open spec fn has_email(users: Seq<UserModel>, email: Seq<char>) -> bool {
    exists|i: int| 0 <= i < users.len() && (#[trigger] users[i]).email == email
}

/// Whether some record in `users` has this id.
pub open spec fn has_id(users: Seq<UserModel>, id: int) -> bool {
    exists|i: int| 0 <= i < users.len() && (#[trigger] users[i]).id == id
}

/// The store's invariant: every id is positive and below the next free
/// one, and no two records share an id, a username or an email.
pub open spec fn store_wf(users: Seq<UserModel>, next_id: int) -> bool {
    &&& 1 <= next_id <= i32::MAX
    &&& (forall|i: int| 0 <= i < users.len() ==> 1 <= (#[trigger] users[i]).id < next_id)
    &&& (forall|i: int, j: int|
        0 <= i < j < users.len() ==> (#[trigger] users[i]).id != (#[trigger] users[j]).id
            && users[i].username != users[j].username && users[i].email != users[j].email)
}

/// In a well-formed store no two distinct records share an id, a username
/// or an email: a registration that succeeded cannot have left a
/// duplicate row behind.
pub proof fn lemma_no_duplicate_rows(users: Seq<UserModel>, next_id: int, i: int, j: int)
    requires
        store_wf(users, next_id),
        0 <= i < users.len(),
        0 <= j < users.len(),
        i != j,
    ensures
        users[i].id != users[j].id,
        users[i].username != users[j].username,
        users[i].email != users[j].email,
{
    if i < j {
        assert(users[i].id != users[j].id);
    } else {
        assert(users[j].id != users[i].id);
    }
}

/// Once a create has appended its record, the new username and email are
/// taken: of two registrations racing on the same username (or email),
/// the one serialized second finds the name taken and meets the
/// uniqueness conflict, so exactly one of the two can succeed.
pub proof fn lemma_created_user_is_taken(users: Seq<UserModel>, created: UserModel)
    ensures
        has_username(users.push(created), created.username),
        has_email(users.push(created), created.email),
{
    let extended = users.push(created);
    assert(extended[users.len() as int] == created);
}

/// The persistence gateway, holding the user records.
pub struct UserRepository {
    /// The persisted records, in insertion order.
    pub users: Vec<User>,
    /// The id the next created record receives.
    pub next_id: i32,
    /// An injected failure, reported by (and consumed at) the next create.
    pub fault: Option<StoreError>,
    /// How many times create was called.
    pub create_calls: u64,
}

impl UserRepository {
    /// The records as mathematical values, in insertion order.
    pub open spec fn records(&self) -> Seq<UserModel> {
        self.users@.map_values(|u: User| u@)
    }

    /// Well-formedness: the records satisfy the store invariant, and an
    /// injected fault is never a conflict (conflicts only arise from the
    /// records themselves).
    pub open spec fn wf(&self) -> bool {
        &&& store_wf(self.records(), self.next_id as int)
        &&& (self.fault matches Some(e) ==> e != StoreError::Conflict)
    }

    /// An empty store.
    pub fn new() -> (r: UserRepository)
        ensures
            r.wf(),
            r.records() == Seq::<UserModel>::empty(),
            r.next_id == 1i32,
            r.fault is None,
            r.create_calls == 0u64,
    {
        let r = UserRepository { users: Vec::new(), next_id: 1, fault: None, create_calls: 0 };
        proof {
            assert(r.records() =~= Seq::<UserModel>::empty());
        }
        r
    }

    /// Injects a backend failure to be reported by the next create.
    pub fn inject_fault(&mut self, e: StoreError)
        requires
            old(self).wf(),
            e != StoreError::Conflict,
        ensures
            final(self).wf(),
            *final(self) == (UserRepository { fault: Some(e), ..*old(self) }),
    {
        self.fault = Some(e);
    }

    /// Inserts a new record.  The store assigns `id`, `created_at` and
    /// `updated_at`; the caller-supplied values for those fields are
    /// ignored.  Exactly one of these happens: the full record is
    /// persisted and returned, or nothing is persisted and the error says
    /// why — a conflict when the username or the email is already taken,
    /// the injected fault when one was set, and an internal failure when
    /// the id space is exhausted.
    pub fn create(&mut self, user: &User) -> (r: Result<User, StoreError>)
        requires
            old(self).wf(),
        ensures
            final(self).wf(),
            final(self).fault is None,
            old(self).create_calls < u64::MAX ==> final(self).create_calls == old(self).create_calls + 1,
            old(self).fault matches Some(e) ==> {
                &&& r == Err::<User, StoreError>(e)
                &&& final(self).records() == old(self).records()
                &&& final(self).next_id == old(self).next_id
            },
            old(self).fault is None && (has_username(old(self).records(), user@.username)
                || has_email(old(self).records(), user@.email)) ==> {
                &&& r == Err::<User, StoreError>(StoreError::Conflict)
                &&& final(self).records() == old(self).records()
                &&& final(self).next_id == old(self).next_id
            },
            old(self).fault is None && !has_username(old(self).records(), user@.username)
                && !has_email(old(self).records(), user@.email) && old(self).next_id == i32::MAX
                ==> {
                &&& r == Err::<User, StoreError>(StoreError::Internal)
                &&& final(self).records() == old(self).records()
                &&& final(self).next_id == old(self).next_id
            },
            old(self).fault is None && !has_username(old(self).records(), user@.username)
                && !has_email(old(self).records(), user@.email) && old(self).next_id < i32::MAX
                ==> (r matches Ok(nu) && {
                &&& nu@.id == old(self).next_id
                &&& nu@.username == user@.username
                &&& nu@.email == user@.email
                &&& nu@.status == user@.status
                &&& nu@.password_hash == user@.password_hash
                &&& nu@.created_at == nu@.updated_at
                &&& final(self).records() == old(self).records().push(nu@)
                &&& final(self).next_id == old(self).next_id + 1
            }),
    {
        if self.create_calls < u64::MAX {
            self.create_calls = self.create_calls + 1;
        }
        match self.fault {
            Some(e) => {
                self.fault = None;
                return Err(e);
            },
            None => {},
        }
        let ghost pre = self.records();
        let mut i: usize = 0;
        while i < self.users.len()
            invariant
                self.wf(),
                self.fault is None,
                old(self).fault is None,
                self.next_id == old(self).next_id,
                old(self).create_calls < u64::MAX ==> self.create_calls == old(self).create_calls
                    + 1,
                pre == self.records(),
                pre == old(self).records(),
                i <= self.users.len(),
                forall|k: int|
                    0 <= k < i ==> (#[trigger] pre[k]).username != user@.username && pre[k].email
                        != user@.email,
            decreases self.users.len() - i,
        {
            if self.users[i].username.eq(&user.username) || self.users[i].email.eq(&user.email) {
                proof {
                    assert(pre[i as int].username == user@.username || pre[i as int].email
                        == user@.email);
                }
                return Err(StoreError::Conflict);
            }
            i += 1;
        }
        if self.next_id == i32::MAX {
            return Err(StoreError::Internal);
        }
        let now = now_utc_millis();
        let id = self.next_id;
        self.next_id = self.next_id + 1;
        let created = User {
            id,
            username: user.username.clone(),
            email: user.email.clone(),
            status: user.status.clone(),
            password_hash: user.password_hash.clone(),
            created_at: now,
            updated_at: now,
        };
        let returned = created.clone();
        self.users.push(created);
        proof {
            assert(self.records() =~= pre.push(returned@));
        }
        Ok(returned)
    }

    /// Looks up a record by id.  Absence is not an error.
    pub fn by_id(&self, id: i32) -> (r: Result<Option<User>, StoreError>)
        requires
            self.wf(),
        ensures
            r is Ok,
            r matches Ok(Some(u)) ==> u@.id == id && has_id(self.records(), id as int) && (
            exists|i: int| 0 <= i < self.records().len() && (#[trigger] self.records()[i]) == u@),
            r matches Ok(None) ==> !has_id(self.records(), id as int),
    {
        let mut i: usize = 0;
        while i < self.users.len()
            invariant
                self.wf(),
                i <= self.users.len(),
                forall|k: int| 0 <= k < i ==> (#[trigger] self.records()[k]).id != id,
            decreases self.users.len() - i,
        {
            if self.users[i].id == id {
                let found = self.users[i].clone();
                proof {
                    assert(self.records()[i as int] == found@);
                }
                return Ok(Some(found));
            }
            i += 1;
        }
        Ok(None)
    }

    /// Replaces the credential of the record with this id and refreshes its
    /// `updated_at`; every other field and every other record is untouched.
    /// An absent id changes nothing; absence is not an error.
    pub fn change_password(&mut self, id: i32, new_password_hash: String) -> (r: Result<
        (),
        StoreError,
    >)
        requires
            old(self).wf(),
        ensures
            final(self).wf(),
            r is Ok,
            final(self).next_id == old(self).next_id,
            final(self).fault == old(self).fault,
            final(self).create_calls == old(self).create_calls,
            final(self).records().len() == old(self).records().len(),
            forall|i: int|
                0 <= i < old(self).records().len() && (#[trigger] old(self).records()[i]).id != id
                    ==> final(self).records()[i] == old(self).records()[i],
            forall|i: int|
                0 <= i < old(self).records().len() && (#[trigger] old(self).records()[i]).id == id
                    ==> final(self).records()[i] == (UserModel {
                    password_hash: new_password_hash@,
                    updated_at: final(self).records()[i].updated_at,
                    ..old(self).records()[i]
                }),
    {
        let now = now_utc_millis();
        let ghost pre = self.records();
        let mut updated: Vec<User> = Vec::new();
        let mut i: usize = 0;
        while i < self.users.len()
            invariant
                pre == self.records(),
                old(self).wf(),
                pre == old(self).records(),
                i <= self.users.len(),
                updated@.len() == i,
                forall|k: int|
                    0 <= k < i && (#[trigger] pre[k]).id != id ==> updated@.map_values(
                        |u: User| u@,
                    )[k] == pre[k],
                forall|k: int|
                    0 <= k < i && (#[trigger] pre[k]).id == id ==> updated@.map_values(
                        |u: User| u@,
                    )[k] == (UserModel {
                        password_hash: new_password_hash@,
                        updated_at: now as int,
                        ..pre[k]
                    }),
            decreases self.users.len() - i,
        {
            let record = &self.users[i];
            if record.id == id {
                updated.push(
                    User {
                        id: record.id,
                        username: record.username.clone(),
                        email: record.email.clone(),
                        status: record.status.clone(),
                        password_hash: new_password_hash.clone(),
                        created_at: record.created_at,
                        updated_at: now,
                    },
                );
            } else {
                updated.push(record.clone());
            }
            i += 1;
        }
        self.users = updated;
        proof {
            let fin = self.records();
            assert forall|k: int|
                0 <= k < fin.len() implies (#[trigger] fin[k]).id == pre[k].id && fin[k].username
                == pre[k].username && fin[k].email == pre[k].email by {
                assert(pre[k].id == id as int || pre[k].id != id as int);
            }
        }
        Ok(())
    }
}

} // verus!

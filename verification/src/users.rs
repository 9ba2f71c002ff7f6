//! Credential store: user records, registration, password verification and
//! login accounting.
//!
//! The store keeps usernames and ids unique, never hands out a password in
//! the clear, and answers `verify_password` uniformly with
//! `InvalidCredentials` whether the user is unknown or the password is wrong.

use vstd::prelude::*;

verus! {

use vstd::utf8::is_ascii_chars;

use crate::crypto::{
    digest_matches, fresh_salt, hash_salted, nul_free, password_within_limit, verify_salted,
};
use crate::errors::ApiError;
use crate::models::{CreateUser, User};

/// The credential store: user records with unique ids and unique usernames.
pub struct UserRepository {
    pub users: Vec<User>,
    pub next_id: i64,
}

/// How a successful login changes a user record: the accounting fields are
/// set, everything else stays.
pub open spec fn login_accounted(o: User, n: User, ip: Seq<char>, now: i64) -> bool {
    &&& n.id == o.id
    &&& n.username == o.username
    &&& n.email == o.email
    &&& n.password_hash == o.password_hash
    &&& n.salt == o.salt
    &&& n.status == o.status
    &&& n.created_at == o.created_at
    &&& n.updated_at == o.updated_at
    &&& n.last_login_at == Some(now)
    &&& n.last_login_ip matches Some(s) && s@ == ip
    &&& n.login_count as int == (if o.login_count == i32::MAX {
        o.login_count as int
    } else {
        o.login_count as int + 1
    })
}

impl UserRepository {
    /// Well-formedness: ids are unique and below `next_id`, usernames are
    /// unique.
    pub open spec fn wf(self) -> bool {
        &&& 1 <= self.next_id
        &&& forall|i: int|
            0 <= i < self.users@.len() ==> 1 <= #[trigger] self.users@[i].id < self.next_id
        &&& forall|i: int, j: int|
            #![trigger self.users@[i], self.users@[j]]
            0 <= i < j < self.users@.len() ==> self.users@[i].id != self.users@[j].id
                && self.users@[i].username@ != self.users@[j].username@
    }

    /// The record is one of the stored users.
    pub open spec fn contains_user(self, u: User) -> bool {
        self.users@.contains(u)
    }

    /// Some stored user carries this username.
    pub open spec fn has_username(self, name: Seq<char>) -> bool {
        exists|u: User| #[trigger] self.users@.contains(u) && u.username@ == name
    }

    /// Some stored user carries this id.
    pub open spec fn has_user_id(self, id: int) -> bool {
        exists|u: User| #[trigger] self.users@.contains(u) && u.id == id
    }

    /// Some stored user carries this username and its digest matches the
    /// password. This is exactly the success condition of `verify_password`.
    pub open spec fn credentials_match(self, name: Seq<char>, password: Seq<char>) -> bool {
        exists|u: User|
            #[trigger] self.users@.contains(u) && u.username@ == name && digest_matches(
                password,
                u.salt@,
                u.password_hash@,
            )
    }

    /// Some stored user carries this username and is not disabled.
    pub open spec fn enabled_user(self, name: Seq<char>) -> bool {
        exists|u: User| #[trigger] self.users@.contains(u) && u.username@ == name && u.status != 0
    }

    /// Under well-formedness, a username determines the record: two stored
    /// users with the same username are the same user.
    pub proof fn lemma_username_unique(self, a: User, b: User)
        requires
            self.wf(),
            self.contains_user(a),
            self.contains_user(b),
            a.username@ == b.username@,
        ensures
            a == b,
    {
        let i = choose|i: int| 0 <= i < self.users@.len() && self.users@[i] == a;
        let j = choose|j: int| 0 <= j < self.users@.len() && self.users@[j] == b;
        if i < j {
            assert(self.users@[i].username@ != self.users@[j].username@);
        } else if j < i {
            assert(self.users@[j].username@ != self.users@[i].username@);
        }
    }

    /// An empty store.
    pub fn new() -> (r: UserRepository)
        ensures
            r.wf(),
            r.users@.len() == 0,
            r.next_id == 1,
    {
        UserRepository { users: Vec::new(), next_id: 1 }
    }

    /// Looks a user up by exact username. `NotFound` exactly when no stored
    /// user carries the name.
    pub fn find_by_username(&self, username: &str) -> (r: Result<User, ApiError>)
        ensures
            r matches Ok(u) ==> self.contains_user(u) && u.username@ == username@,
            r is Err <==> !self.has_username(username@),
            r matches Err(e) ==> e == ApiError::NotFound,
    {
        let name: String = username.to_owned();
        let n = self.users.len();
        let mut i: usize = 0;
        while i < n
            invariant
                n == self.users@.len(),
                i <= n,
                name@ == username@,
                forall|j: int| 0 <= j < i ==> #[trigger] self.users@[j].username@ != username@,
            decreases n - i,
        {
            if self.users[i].username == name {
                proof {
                    assert(self.users@.contains(self.users@[i as int]));
                }
                return Ok(self.users[i].duplicate());
            }
            i = i + 1;
        }
        proof {
            assert forall|u: User| self.users@.contains(u) implies u.username@ != username@ by {
                let j = choose|j: int| 0 <= j < self.users@.len() && self.users@[j] == u;
            }
        }
        Err(ApiError::NotFound)
    }

    /// Looks a user up by id. `NotFound` exactly when no stored user carries
    /// the id.
    pub fn find_by_id(&self, id: i64) -> (r: Result<User, ApiError>)
        ensures
            r matches Ok(u) ==> self.contains_user(u) && u.id == id,
            r is Err <==> !self.has_user_id(id as int),
            r matches Err(e) ==> e == ApiError::NotFound,
    {
        let n = self.users.len();
        let mut i: usize = 0;
        while i < n
            invariant
                n == self.users@.len(),
                i <= n,
                forall|j: int| 0 <= j < i ==> #[trigger] self.users@[j].id != id,
            decreases n - i,
        {
            if self.users[i].id == id {
                proof {
                    assert(self.users@.contains(self.users@[i as int]));
                }
                return Ok(self.users[i].duplicate());
            }
            i = i + 1;
        }
        proof {
            assert forall|u: User| self.users@.contains(u) implies u.id != id by {
                let j = choose|j: int| 0 <= j < self.users@.len() && self.users@[j] == u;
            }
        }
        Err(ApiError::NotFound)
    }

    /// Creates a user: fresh random salt, adaptive hash of password and
    /// salt, a new record appended with the next id, enabled, with zeroed
    /// login accounting. Fails with `DuplicateUsername` exactly when the
    /// username is taken (the store's own uniqueness net), and with
    /// `InternalFailure` only when the hash primitive fails or the id space
    /// is exhausted; on any failure the store is unchanged.
    pub fn create_user(&mut self, user_data: &CreateUser, now: i64) -> (r: Result<User, ApiError>)
        requires
            old(self).wf(),
        ensures
            final(self).wf(),
            old(self).has_username(user_data.username@) ==> r == Err::<User, ApiError>(
                ApiError::DuplicateUsername,
            ),
            r is Err ==> *final(self) == *old(self),
            r matches Err(e) ==> (e == ApiError::DuplicateUsername && old(self).has_username(
                user_data.username@,
            )) || e == ApiError::InternalFailure,
            r matches Ok(u) ==> {
                &&& !old(self).has_username(user_data.username@)
                &&& final(self).users@ == old(self).users@.push(u)
                &&& final(self).next_id == old(self).next_id + 1
                &&& u.id == old(self).next_id
                &&& u.username@ == user_data.username@
                &&& u.email@ == user_data.email@
                &&& u.status == 1
                &&& u.login_count == 0
                &&& u.last_login_at is None
                &&& u.last_login_ip is None
                &&& u.created_at == now
                &&& u.updated_at == now
                &&& u.salt@.len() == 36
                &&& is_ascii_chars(u.salt@)
                &&& nul_free(u.salt@)
                &&& digest_matches(user_data.password@, u.salt@, u.password_hash@)
                &&& (password_within_limit(user_data.password@) ==> forall|q: Seq<char>|
                    #![trigger digest_matches(q, u.salt@, u.password_hash@)]
                    password_within_limit(q) && q != user_data.password@ ==> !digest_matches(
                        q,
                        u.salt@,
                        u.password_hash@,
                    ))
            },
    {
        let n = self.users.len();
        let mut i: usize = 0;
        while i < n
            invariant
                old(self).wf(),
                *self == *old(self),
                n == self.users@.len(),
                i <= n,
                forall|j: int|
                    0 <= j < i ==> #[trigger] self.users@[j].username@ != user_data.username@,
            decreases n - i,
        {
            if self.users[i].username == user_data.username {
                proof {
                    assert(self.users@.contains(self.users@[i as int]));
                }
                return Err(ApiError::DuplicateUsername);
            }
            i = i + 1;
        }
        proof {
            assert forall|u: User| self.users@.contains(u) implies u.username@
                != user_data.username@ by {
                let j = choose|j: int| 0 <= j < self.users@.len() && self.users@[j] == u;
            }
        }
        if self.next_id == i64::MAX {
            return Err(ApiError::InternalFailure);
        }
        let salt = fresh_salt();
        let digest = match hash_salted(user_data.password.as_str(), salt.as_str()) {
            Some(d) => d,
            None => {
                return Err(ApiError::InternalFailure);
            },
        };
        let u = User {
            id: self.next_id,
            username: user_data.username.clone(),
            email: user_data.email.clone(),
            password_hash: digest,
            salt,
            status: 1,
            last_login_at: None,
            last_login_ip: None,
            login_count: 0,
            created_at: now,
            updated_at: now,
        };
        let result = u.duplicate();
        self.users.push(u);
        self.next_id = self.next_id + 1;
        Ok(result)
    }

    /// Recomputes the salted hash of the presented password and compares it
    /// against the stored digest. Succeeds exactly when some stored user
    /// carries the username and the digest matches; an unknown user and a
    /// wrong password fail with the same `InvalidCredentials`.
    pub fn verify_password(&self, username: &str, password: &str) -> (r: Result<User, ApiError>)
        requires
            self.wf(),
        ensures
            r matches Ok(u) ==> self.contains_user(u) && u.username@ == username@
                && digest_matches(password@, u.salt@, u.password_hash@),
            r is Ok <==> self.credentials_match(username@, password@),
            r matches Err(e) ==> e == ApiError::InvalidCredentials,
    {
        let name: String = username.to_owned();
        let n = self.users.len();
        let mut i: usize = 0;
        while i < n
            invariant
                n == self.users@.len(),
                i <= n,
                name@ == username@,
                self.wf(),
                forall|j: int| 0 <= j < i ==> #[trigger] self.users@[j].username@ != username@,
            decreases n - i,
        {
            if self.users[i].username == name {
                let ok = verify_salted(
                    password,
                    self.users[i].salt.as_str(),
                    self.users[i].password_hash.as_str(),
                );
                proof {
                    assert(self.users@.contains(self.users@[i as int]));
                }
                if ok {
                    return Ok(self.users[i].duplicate());
                } else {
                    proof {
                        assert forall|u: User|
                            self.users@.contains(u) && u.username@ == username@ implies
                            !digest_matches(password@, u.salt@, u.password_hash@) by {
                            let j = choose|j: int|
                                0 <= j < self.users@.len() && self.users@[j] == u;
                            assert(j == i as int);
                        }
                    }
                    return Err(ApiError::InvalidCredentials);
                }
            }
            i = i + 1;
        }
        proof {
            assert forall|u: User| self.users@.contains(u) implies u.username@ != username@ by {
                let j = choose|j: int| 0 <= j < self.users@.len() && self.users@[j] == u;
            }
        }
        Err(ApiError::InvalidCredentials)
    }

    /// Best-effort login accounting: bumps the login counter (saturating at
    /// its maximum) and records the instant and source address on every
    /// record with the given id; everything else is untouched.
    pub fn update_login_info(&mut self, user_id: i64, ip: &str, now: i64)
        requires
            old(self).wf(),
        ensures
            final(self).wf(),
            final(self).next_id == old(self).next_id,
            final(self).users@.len() == old(self).users@.len(),
            forall|i: int|
                #![trigger final(self).users@[i]]
                0 <= i < old(self).users@.len() ==> if old(self).users@[i].id == user_id {
                    login_accounted(old(self).users@[i], final(self).users@[i], ip@, now)
                } else {
                    final(self).users@[i] == old(self).users@[i]
                },
    {
        let n = self.users.len();
        let mut i: usize = 0;
        while i < n
            invariant
                n == old(self).users@.len(),
                i <= n,
                self.next_id == old(self).next_id,
                self.users@.len() == old(self).users@.len(),
                forall|j: int|
                    #![trigger self.users@[j]]
                    i <= j < n ==> self.users@[j] == old(self).users@[j],
                forall|j: int|
                    #![trigger self.users@[j]]
                    0 <= j < i ==> if old(self).users@[j].id == user_id {
                        login_accounted(old(self).users@[j], self.users@[j], ip@, now)
                    } else {
                        self.users@[j] == old(self).users@[j]
                    },
            decreases n - i,
        {
            if self.users[i].id == user_id {
                self.users[i].last_login_at = Some(now);
                self.users[i].last_login_ip = Some(ip.to_owned());
                if self.users[i].login_count < i32::MAX {
                    let c = self.users[i].login_count;
                    self.users[i].login_count = c + 1;
                }
            }
            i = i + 1;
        }
        proof {
            assert forall|i: int, j: int|
                #![trigger self.users@[i], self.users@[j]]
                0 <= i < j < self.users@.len() implies self.users@[i].id != self.users@[j].id
                && self.users@[i].username@ != self.users@[j].username@ by {
                assert(self.users@[i].id == old(self).users@[i].id);
                assert(self.users@[j].id == old(self).users@[j].id);
                assert(self.users@[i].username == old(self).users@[i].username);
                assert(self.users@[j].username == old(self).users@[j].username);
            }
        }
    }
}

} // verus!

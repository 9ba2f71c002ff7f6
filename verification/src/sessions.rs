//! Session store: one record per issued login, keyed by the two opaque token
//! strings, with separate expiry horizons for authentication and refresh.
//!
//! A session authenticates a protected request only while
//! `now < expires_at`; it authorizes a refresh only while
//! `now < refresh_expires_at`; an expired record answers exactly like a
//! missing one. Deletion by access token is idempotent.

use vstd::prelude::*;

verus! {

use crate::errors::ApiError;
use crate::models::UserSession;
use crate::token::live_at;

/// The session store: session records with unique ids and unique token
/// strings in each column.
pub struct SessionRepository {
    pub sessions: Vec<UserSession>,
    pub next_id: i64,
}

impl SessionRepository {
    /// Well-formedness: ids are unique and below `next_id`; access tokens
    /// are pairwise distinct; refresh tokens are pairwise distinct.
    pub open spec fn wf(self) -> bool {
        &&& 1 <= self.next_id
        &&& forall|i: int|
            0 <= i < self.sessions@.len() ==> 1 <= #[trigger] self.sessions@[i].id < self.next_id
        &&& forall|i: int, j: int|
            #![trigger self.sessions@[i], self.sessions@[j]]
            0 <= i < j < self.sessions@.len() ==> self.sessions@[i].id != self.sessions@[j].id
                && self.sessions@[i].token@ != self.sessions@[j].token@
                && self.sessions@[i].refresh_token@ != self.sessions@[j].refresh_token@
    }

    /// The record is one of the stored sessions.
    pub open spec fn contains_session(self, s: UserSession) -> bool {
        self.sessions@.contains(s)
    }

    /// Some stored session carries this access token, live or not.
    pub open spec fn has_access_token(self, t: Seq<char>) -> bool {
        exists|s: UserSession| #[trigger] self.sessions@.contains(s) && s.token@ == t
    }

    /// Some stored session carries this refresh token, live or not.
    pub open spec fn has_refresh_token(self, t: Seq<char>) -> bool {
        exists|s: UserSession| #[trigger] self.sessions@.contains(s) && s.refresh_token@ == t
    }

    /// Some stored session authenticates this access token at `now`.
    pub open spec fn has_live_access(self, t: Seq<char>, now: int) -> bool {
        exists|s: UserSession|
            #[trigger] self.sessions@.contains(s) && s.token@ == t && live_at(
                s.expires_at as int,
                now,
            )
    }

    /// Some stored session authorizes a refresh with this token at `now`.
    pub open spec fn has_live_refresh(self, t: Seq<char>, now: int) -> bool {
        exists|s: UserSession|
            #[trigger] self.sessions@.contains(s) && s.refresh_token@ == t && live_at(
                s.refresh_expires_at as int,
                now,
            )
    }

    /// An empty store.
    pub fn new() -> (r: SessionRepository)
        ensures
            r.wf(),
            r.sessions@.len() == 0,
            r.next_id == 1,
    {
        SessionRepository { sessions: Vec::new(), next_id: 1 }
    }

    /// Inserts one session record for a login issued at `now`. The tokens
    /// are assumed unguessable, but uniqueness is still enforced here as a
    /// safety net: a colliding token (or an exhausted id space) fails with
    /// `InternalFailure` and leaves the store unchanged.
    pub fn create_session(
        &mut self,
        user_id: i64,
        token: &str,
        refresh_token: &str,
        expires_at: i64,
        refresh_expires_at: i64,
        ip: &str,
        device_info: Option<String>,
        now: i64,
    ) -> (r: Result<UserSession, ApiError>)
        requires
            old(self).wf(),
        ensures
            final(self).wf(),
            r is Err <==> (old(self).has_access_token(token@) || old(self).has_refresh_token(
                refresh_token@,
            ) || old(self).next_id == i64::MAX),
            r matches Err(e) ==> e == ApiError::InternalFailure && *final(self) == *old(self),
            r matches Ok(s) ==> {
                &&& final(self).sessions@ == old(self).sessions@.push(s)
                &&& final(self).next_id == old(self).next_id + 1
                &&& s.id == old(self).next_id
                &&& s.user_id == user_id
                &&& s.token@ == token@
                &&& s.refresh_token@ == refresh_token@
                &&& s.expires_at == expires_at
                &&& s.refresh_expires_at == refresh_expires_at
                &&& s.ip_address matches Some(p) && p@ == ip@
                &&& s.device_info == device_info
                &&& s.created_at == now
            },
    {
        let tok: String = token.to_owned();
        let rtok: String = refresh_token.to_owned();
        let n = self.sessions.len();
        let mut i: usize = 0;
        while i < n
            invariant
                old(self).wf(),
                *self == *old(self),
                n == self.sessions@.len(),
                i <= n,
                tok@ == token@,
                rtok@ == refresh_token@,
                forall|j: int|
                    #![trigger self.sessions@[j]]
                    0 <= j < i ==> self.sessions@[j].token@ != token@
                        && self.sessions@[j].refresh_token@ != refresh_token@,
            decreases n - i,
        {
            if self.sessions[i].token == tok || self.sessions[i].refresh_token == rtok {
                proof {
                    assert(self.sessions@.contains(self.sessions@[i as int]));
                }
                return Err(ApiError::InternalFailure);
            }
            i = i + 1;
        }
        proof {
            assert forall|s: UserSession| self.sessions@.contains(s) implies s.token@ != token@
                && s.refresh_token@ != refresh_token@ by {
                let j = choose|j: int| 0 <= j < self.sessions@.len() && self.sessions@[j] == s;
            }
        }
        if self.next_id == i64::MAX {
            return Err(ApiError::InternalFailure);
        }
        let s = UserSession {
            id: self.next_id,
            user_id,
            token: tok,
            refresh_token: rtok,
            expires_at,
            refresh_expires_at,
            device_info,
            ip_address: Some(ip.to_owned()),
            created_at: now,
        };
        let result = s.duplicate();
        self.sessions.push(s);
        self.next_id = self.next_id + 1;
        Ok(result)
    }

    /// Looks a session up by id, live or not.
    pub fn find_by_id(&self, id: i64) -> (r: Result<UserSession, ApiError>)
        ensures
            r matches Ok(s) ==> self.contains_session(s) && s.id == id,
            r is Err <==> !(exists|s: UserSession|
                #[trigger] self.sessions@.contains(s) && s.id == id),
            r matches Err(e) ==> e == ApiError::NotFound,
    {
        let n = self.sessions.len();
        let mut i: usize = 0;
        while i < n
            invariant
                n == self.sessions@.len(),
                i <= n,
                forall|j: int| 0 <= j < i ==> #[trigger] self.sessions@[j].id != id,
            decreases n - i,
        {
            if self.sessions[i].id == id {
                proof {
                    assert(self.sessions@.contains(self.sessions@[i as int]));
                }
                return Ok(self.sessions[i].duplicate());
            }
            i = i + 1;
        }
        proof {
            assert forall|s: UserSession| self.sessions@.contains(s) implies s.id != id by {
                let j = choose|j: int| 0 <= j < self.sessions@.len() && self.sessions@[j] == s;
            }
        }
        Err(ApiError::NotFound)
    }

    /// The lookup the authentication gate uses: matches the access-token
    /// column and additionally requires `now < expires_at`. An expired
    /// record answers exactly like a missing one.
    pub fn find_by_token(&self, token: &str, now: i64) -> (r: Result<UserSession, ApiError>)
        ensures
            r matches Ok(s) ==> self.contains_session(s) && s.token@ == token@ && live_at(
                s.expires_at as int,
                now as int,
            ),
            r is Err <==> !self.has_live_access(token@, now as int),
            r matches Err(e) ==> e == ApiError::SessionNotFound,
    {
        let tok: String = token.to_owned();
        let n = self.sessions.len();
        let mut i: usize = 0;
        while i < n
            invariant
                n == self.sessions@.len(),
                i <= n,
                tok@ == token@,
                forall|j: int|
                    #![trigger self.sessions@[j]]
                    0 <= j < i ==> !(self.sessions@[j].token@ == token@ && live_at(
                        self.sessions@[j].expires_at as int,
                        now as int,
                    )),
            decreases n - i,
        {
            if self.sessions[i].token == tok && now < self.sessions[i].expires_at {
                proof {
                    assert(self.sessions@.contains(self.sessions@[i as int]));
                }
                return Ok(self.sessions[i].duplicate());
            }
            i = i + 1;
        }
        proof {
            assert forall|s: UserSession| self.sessions@.contains(s) implies !(s.token@ == token@
                && live_at(s.expires_at as int, now as int)) by {
                let j = choose|j: int| 0 <= j < self.sessions@.len() && self.sessions@[j] == s;
            }
        }
        Err(ApiError::SessionNotFound)
    }

    /// The lookup the refresh flow uses: matches the refresh-token column
    /// and additionally requires `now < refresh_expires_at`.
    pub fn find_by_refresh_token(&self, token: &str, now: i64) -> (r: Result<UserSession, ApiError>)
        ensures
            r matches Ok(s) ==> self.contains_session(s) && s.refresh_token@ == token@ && live_at(
                s.refresh_expires_at as int,
                now as int,
            ),
            r is Err <==> !self.has_live_refresh(token@, now as int),
            r matches Err(e) ==> e == ApiError::SessionNotFound,
    {
        let tok: String = token.to_owned();
        let n = self.sessions.len();
        let mut i: usize = 0;
        while i < n
            invariant
                n == self.sessions@.len(),
                i <= n,
                tok@ == token@,
                forall|j: int|
                    #![trigger self.sessions@[j]]
                    0 <= j < i ==> !(self.sessions@[j].refresh_token@ == token@ && live_at(
                        self.sessions@[j].refresh_expires_at as int,
                        now as int,
                    )),
            decreases n - i,
        {
            if self.sessions[i].refresh_token == tok && now < self.sessions[i].refresh_expires_at {
                proof {
                    assert(self.sessions@.contains(self.sessions@[i as int]));
                }
                return Ok(self.sessions[i].duplicate());
            }
            i = i + 1;
        }
        proof {
            assert forall|s: UserSession| self.sessions@.contains(s) implies !(s.refresh_token@
                == token@ && live_at(s.refresh_expires_at as int, now as int)) by {
                let j = choose|j: int| 0 <= j < self.sessions@.len() && self.sessions@[j] == s;
            }
        }
        Err(ApiError::SessionNotFound)
    }

    /// How deletion by access token changes the store: the matching record
    /// is gone, every other record is retained, nothing new appears, and an
    /// unknown token leaves the store untouched.
    pub open spec fn deleted_token(pre: SessionRepository, post: SessionRepository, t: Seq<char>) -> bool {
        &&& post.next_id == pre.next_id
        &&& !post.has_access_token(t)
        &&& forall|i: int|
            #![trigger pre.sessions@[i]]
            0 <= i < pre.sessions@.len() && pre.sessions@[i].token@ != t
                ==> post.contains_session(pre.sessions@[i])
        &&& forall|i: int|
            #![trigger post.sessions@[i]]
            0 <= i < post.sessions@.len() ==> pre.contains_session(post.sessions@[i])
        &&& (pre.has_access_token(t) ==> post.sessions@.len() == pre.sessions@.len() - 1)
        &&& (!pre.has_access_token(t) ==> post == pre)
    }

    /// Deletes the session whose access token matches, if any: idempotent,
    /// deleting an unknown token is not an error. Afterwards no stored
    /// session carries the token, and every other session is retained.
    pub fn delete_session(&mut self, token: &str)
        requires
            old(self).wf(),
        ensures
            final(self).wf(),
            SessionRepository::deleted_token(*old(self), *final(self), token@),
    {
        let tok: String = token.to_owned();
        let n = self.sessions.len();
        let mut i: usize = 0;
        while i < n
            invariant
                old(self).wf(),
                *self == *old(self),
                n == self.sessions@.len(),
                i <= n,
                tok@ == token@,
                forall|j: int|
                    #![trigger self.sessions@[j]]
                    0 <= j < i ==> self.sessions@[j].token@ != token@,
            decreases n - i,
        {
            if self.sessions[i].token == tok {
                proof {
                    assert(self.sessions@.contains(self.sessions@[i as int]));
                }
                let ghost pre = self.sessions@;
                let ghost k = i as int;
                self.sessions.remove(i);
                proof {
                    assert forall|m: int| 0 <= m < pre.len() - 1 implies self.sessions@[m] == (
                    if m < k {
                        pre[m]
                    } else {
                        pre[m + 1]
                    }) by {}
                    assert forall|s: UserSession| self.sessions@.contains(s) implies s.token@
                        != token@ by {
                        let m = choose|m: int|
                            0 <= m < self.sessions@.len() && self.sessions@[m] == s;
                        if m < k {
                            assert(s == pre[m]);
                        } else {
                            assert(s == pre[m + 1]);
                        }
                    }
                    assert forall|m: int|
                        0 <= m < pre.len() && pre[m].token@ != token@ implies
                        self.sessions@.contains(pre[m]) by {
                        if m < k {
                            assert(self.sessions@[m] == pre[m]);
                        } else {
                            assert(m != k);
                            assert(self.sessions@[m - 1] == pre[m]);
                        }
                    }
                    assert forall|m: int|
                        0 <= m < self.sessions@.len() implies old(self).contains_session(
                        self.sessions@[m]) by {
                        if m < k {
                            assert(self.sessions@[m] == pre[m]);
                        } else {
                            assert(self.sessions@[m] == pre[m + 1]);
                        }
                    }
                }
                return;
            }
            i = i + 1;
        }
        proof {
            assert forall|s: UserSession| self.sessions@.contains(s) implies s.token@ != token@ by {
                let j = choose|j: int| 0 <= j < self.sessions@.len() && self.sessions@[j] == s;
            }
        }
    }
}

} // verus!

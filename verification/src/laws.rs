//! The library's headline guarantees, proved once and for all from the
//! store and flow contracts.

use vstd::prelude::*;

verus! {

use crate::crypto::{digest_matches, password_within_limit};
use crate::models::{User, UserSession};
use crate::sessions::SessionRepository;
use crate::token::live_at;
use crate::users::UserRepository;

/// A registered (username, password) pair verifies exactly once per
/// matching pair: for a record stored by a successful registration of
/// `(name, p)` — which guarantees the digest facts assumed here — the
/// credentials `(name, p)` match, and `(name, q)` fails for every other
/// password inside the hash primitive's input window. Passwords outside
/// that window (non-ASCII, containing NUL, or longer than 36 characters)
/// are excluded: past 72 bytes of password and salt the primitive
/// truncates its input, and it terminates its key with a NUL and cycles
/// it, so inputs differing only in NUL padding can collide.
pub proof fn lemma_password_verification_exact(
    users: UserRepository,
    u: User,
    name: Seq<char>,
    p: Seq<char>,
    q: Seq<char>,
)
    requires
        users.wf(),
        users.contains_user(u),
        u.username@ == name,
        digest_matches(p, u.salt@, u.password_hash@),
        forall|q2: Seq<char>|
            #![trigger digest_matches(q2, u.salt@, u.password_hash@)]
            password_within_limit(q2) && q2 != p ==> !digest_matches(
                q2,
                u.salt@,
                u.password_hash@,
            ),
        password_within_limit(p),
        password_within_limit(q),
        q != p,
    ensures
        users.credentials_match(name, p),
        !users.credentials_match(name, q),
{
    assert(users.credentials_match(name, p));
    if users.credentials_match(name, q) {
        let v = choose|v: User|
            #[trigger] users.users@.contains(v) && v.username@ == name && digest_matches(
                q,
                v.salt@,
                v.password_hash@,
            );
        users.lemma_username_unique(v, u);
    }
}

/// A session whose access horizon was set `ttl` seconds after issuance —
/// as `login` sets it — authenticates at `issued + ttl - 1` and no longer
/// at `issued + ttl` or any later instant: the boundary instant itself is
/// consistently excluded, here and in the token codec's own expiry rule.
pub proof fn lemma_session_access_window(s: UserSession, issued: int, ttl: int)
    requires
        s.expires_at == issued + ttl,
        0 < ttl,
    ensures
        live_at(s.expires_at as int, issued + ttl - 1),
        !live_at(s.expires_at as int, issued + ttl),
        !live_at(s.expires_at as int, issued + ttl + 1),
{
}

/// Logout is immediate revocation: once the session carrying an access
/// token is deleted (`deleted_token` is what `logout` guarantees), no
/// live session remains for that token, and `auth` admits a request only
/// when a live session backs its token, however far away the token's own
/// embedded expiry still is.
pub proof fn lemma_logout_revokes_token(
    pre: SessionRepository,
    post: SessionRepository,
    t: Seq<char>,
    now: int,
)
    requires
        SessionRepository::deleted_token(pre, post, t),
    ensures
        !post.has_live_access(t, now),
{
    if post.has_live_access(t, now) {
        let s = choose|s: UserSession|
            #[trigger] post.sessions@.contains(s) && s.token@ == t && live_at(
                s.expires_at as int,
                now,
            );
        assert(post.has_access_token(t));
    }
}

/// An expired refresh token authorizes nothing: when every stored session
/// carrying the token has passed its refresh horizon, no live refresh
/// exists at `now`, so the refresh flow — which cannot even write the
/// session store — answers with an authentication failure and issues no
/// access token.
pub proof fn lemma_expired_refresh_rejected(sessions: SessionRepository, t: Seq<char>, now: int)
    requires
        forall|s: UserSession|
            #[trigger] sessions.sessions@.contains(s) && s.refresh_token@ == t
                ==> s.refresh_expires_at <= now,
    ensures
        !sessions.has_live_refresh(t, now),
{
    if sessions.has_live_refresh(t, now) {
        let s = choose|s: UserSession|
            #[trigger] sessions.sessions@.contains(s) && s.refresh_token@ == t && live_at(
                s.refresh_expires_at as int,
                now,
            );
    }
}

/// A stored record makes its username taken: any further registration of
/// that name must answer `DuplicateUsername` and leave the store — the
/// first record included — exactly as it was, which is what `register` and
/// `create_user` guarantee for a taken name.
pub proof fn lemma_registration_takes_name(users: UserRepository, u: User, name: Seq<char>)
    requires
        users.contains_user(u),
        u.username@ == name,
    ensures
        users.has_username(name),
{
}

} // verus!

//! The authentication flows and the per-request gate.
//!
//! `register`, `login`, `refresh_token`, `logout` and `get_me` are the
//! endpoint cores; [`auth`] is the middleware that every protected request
//! passes. Transport concerns (HTTP parsing, JSON encoding, the clock) stay
//! with the caller, which hands in plain values: the request body, the raw
//! `Authorization` header if any, the source address, and the instant `now`.

use vstd::prelude::*;

verus! {

use crate::config::Config;
use crate::errors::ApiError;
use crate::crypto::{digest_matches, nul_free, password_within_limit};
use vstd::utf8::is_ascii_chars;
use crate::models::{
    sanitize_user, spec_sanitized, ApiResponse, CreateUser, HealthCheck, LoginResponse, LoginUser,
    RefreshResponse, User, UserInfo, UserSession,
};
use crate::sessions::SessionRepository;
use crate::token::{issue_token, jwt_decode, live_at, token_claims_of, token_of};
use crate::users::{login_accounted, UserRepository};

/// The token hidden in one header value: present exactly when the value is
/// `Bearer <token>` — the prefix is case-sensitive, with a single space.
pub open spec fn spec_bearer_token(h: Seq<char>) -> Option<Seq<char>> {
    if h.len() >= 7 && h.subrange(0, 7) == "Bearer "@ {
        Some(h.subrange(7, h.len() as int))
    } else {
        None
    }
}

/// The token carried by an optional `Authorization` header.
pub open spec fn header_token(header: Option<&str>) -> Option<Seq<char>> {
    match header {
        Some(h) => spec_bearer_token(h@),
        None => None,
    }
}

/// The source address recorded for a login: the caller's address, or
/// `"unknown"` when none was available.
pub open spec fn spec_effective_ip(ip: Option<&str>) -> Seq<char> {
    match ip {
        Some(p) => p@,
        None => "unknown"@,
    }
}

/// Extracts the bearer token from an `Authorization` header value: exactly
/// the text after the `Bearer ` prefix, or nothing for any other shape.
pub fn extract_token_from_header(header: Option<&str>) -> (r: Option<String>)
    ensures
        match header_token(header) {
            Some(t) => r matches Some(s) && s@ == t,
            None => r is None,
        },
{
    let h = match header {
        Some(h) => h,
        None => {
            return None;
        },
    };
    let len = h.unicode_len();
    if len < 7 {
        return None;
    }
    if h.get_char(0) == 'B' && h.get_char(1) == 'e' && h.get_char(2) == 'a' && h.get_char(3) == 'r'
        && h.get_char(4) == 'e' && h.get_char(5) == 'r' && h.get_char(6) == ' ' {
        proof {
            reveal_strlit("Bearer ");
            assert(h@.subrange(0, 7) =~= "Bearer "@);
        }
        Some(h.substring_char(7, len).to_owned())
    } else {
        proof {
            reveal_strlit("Bearer ");
            if h@.subrange(0, 7) == "Bearer "@ {
                assert(h@[0] == h@.subrange(0, 7)[0]);
                assert(h@[1] == h@.subrange(0, 7)[1]);
                assert(h@[2] == h@.subrange(0, 7)[2]);
                assert(h@[3] == h@.subrange(0, 7)[3]);
                assert(h@[4] == h@.subrange(0, 7)[4]);
                assert(h@[5] == h@.subrange(0, 7)[5]);
                assert(h@[6] == h@.subrange(0, 7)[6]);
                assert(false);
            }
        }
        None
    }
}

/// The authentication gate. A request is authorized only when the header
/// carries a well-formed bearer token, a live session backs that exact
/// token at `now` (which is what makes logout an immediate revocation), and
/// the token's signature verifies under the configured secret; the resolved
/// user id is the token's own subject claim. Each failure is reported as
/// its own error, and all of them map to status 401.
pub fn auth(
    sessions: &SessionRepository,
    config: &Config,
    auth_header: Option<&str>,
    now: i64,
) -> (r: Result<i64, ApiError>)
    ensures
        header_token(auth_header) is None ==> r == Err::<i64, ApiError>(ApiError::TokenMalformed),
        (header_token(auth_header) matches Some(t) && !sessions.has_live_access(t, now as int))
            ==> r == Err::<i64, ApiError>(ApiError::SessionNotFound),
        r matches Ok(uid) ==> ({
            &&& header_token(auth_header) matches Some(t)
            &&& sessions.has_live_access(t, now as int)
            &&& token_claims_of(t, config.jwt_secret@) matches Some(c)
            &&& c.0 == uid as int
        }),
        r matches Err(e) ==> (e == ApiError::TokenMalformed || e == ApiError::SessionNotFound
            || e == ApiError::TokenInvalid),
        header_token(auth_header) is Some ==> r != Err::<i64, ApiError>(ApiError::TokenMalformed),
        (header_token(auth_header) matches Some(t) && sessions.has_live_access(t, now as int)) ==> r
            != Err::<i64, ApiError>(ApiError::SessionNotFound),
{
    let token = match extract_token_from_header(auth_header) {
        Some(t) => t,
        None => {
            return Err(ApiError::TokenMalformed);
        },
    };
    match sessions.find_by_token(token.as_str(), now) {
        Ok(_) => {},
        Err(_) => {
            return Err(ApiError::SessionNotFound);
        },
    }
    match jwt_decode(token.as_str(), config.jwt_secret.as_str()) {
        Some(claims) => Ok(claims.sub),
        None => Err(ApiError::TokenInvalid),
    }
}

/// Registration: refuses a taken username with `DuplicateUsername` and
/// leaves the store untouched on any failure; otherwise creates the user
/// and returns the sanitized record (no digest, no salt). The stored
/// record's digest matches exactly the registered password within the hash
/// primitive's input window, which is what makes a later login verifiable.
pub fn register(users: &mut UserRepository, user_data: &CreateUser, now: i64) -> (r: Result<
    UserInfo,
    ApiError,
>)
    requires
        old(users).wf(),
    ensures
        final(users).wf(),
        old(users).has_username(user_data.username@) ==> r == Err::<UserInfo, ApiError>(
            ApiError::DuplicateUsername,
        ),
        r is Err ==> *final(users) == *old(users),
        r matches Err(e) ==> (e == ApiError::DuplicateUsername && old(users).has_username(
            user_data.username@,
        )) || e == ApiError::InternalFailure,
        r matches Ok(info) ==> {
            &&& !old(users).has_username(user_data.username@)
            &&& final(users).users@.len() == old(users).users@.len() + 1
            &&& final(users).users@ == old(users).users@.push(final(users).users@.last())
            &&& info == spec_sanitized(final(users).users@.last())
            &&& info.id == old(users).next_id
            &&& info.username@ == user_data.username@
            &&& info.email@ == user_data.email@
            &&& info.status == 1
            &&& info.login_count == 0
            &&& info.last_login_at is None
            &&& info.created_at == now
            &&& ({
                let u = final(users).users@.last();
                &&& digest_matches(user_data.password@, u.salt@, u.password_hash@)
                &&& u.salt@.len() == 36
                &&& is_ascii_chars(u.salt@)
                &&& nul_free(u.salt@)
                &&& (password_within_limit(user_data.password@) ==> forall|q: Seq<char>|
                    #![trigger digest_matches(q, u.salt@, u.password_hash@)]
                    password_within_limit(q) && q != user_data.password@ ==> !digest_matches(
                        q,
                        u.salt@,
                        u.password_hash@,
                    ))
            })
        },
{
    match users.find_by_username(user_data.username.as_str()) {
        Ok(_) => {
            return Err(ApiError::DuplicateUsername);
        },
        Err(_) => {},
    }
    match users.create_user(user_data, now) {
        Ok(u) => Ok(sanitize_user(&u)),
        Err(_) => Err(ApiError::InternalFailure),
    }
}

/// Login: verifies the credentials, refuses disabled users, issues an
/// access token and a refresh token over the configured secret, records one
/// new session holding both, applies best-effort login accounting, and
/// returns both tokens with the sanitized user record. Bad credentials and
/// a disabled account change nothing. Success is owed whenever the two
/// tokens to be issued collide with no stored one and the id space is not
/// exhausted; `InternalFailure` covers exactly the remaining cases (the
/// same user logging in twice at one instant reuses the same deterministic
/// token strings and trips the store's uniqueness net) and also changes
/// nothing.
pub fn login(
    users: &mut UserRepository,
    sessions: &mut SessionRepository,
    config: &Config,
    login_data: &LoginUser,
    ip: Option<&str>,
    device_info: Option<String>,
    now: i64,
) -> (r: Result<LoginResponse, ApiError>)
    requires
        old(users).wf(),
        old(sessions).wf(),
        config.wf(),
        0 <= now <= 0x2000_0000_0000_0000,
    ensures
        final(users).wf(),
        final(sessions).wf(),
        !old(users).credentials_match(login_data.username@, login_data.password@) ==> r
            == Err::<LoginResponse, ApiError>(ApiError::InvalidCredentials),
        (old(users).credentials_match(login_data.username@, login_data.password@) && !old(
            users,
        ).enabled_user(login_data.username@)) ==> r == Err::<LoginResponse, ApiError>(
            ApiError::UserDisabled,
        ),
        (old(users).credentials_match(login_data.username@, login_data.password@) && old(
            users,
        ).enabled_user(login_data.username@)) ==> (r is Ok || r == Err::<LoginResponse, ApiError>(
            ApiError::InternalFailure,
        )),
        (forall|u: User|
            #![trigger old(users).contains_user(u)]
            old(users).contains_user(u) && u.username@ == login_data.username@ && digest_matches(
                login_data.password@,
                u.salt@,
                u.password_hash@,
            ) && u.status != 0 && !old(sessions).has_access_token(
                token_of(
                    u.id as int,
                    now as int,
                    (now + config.jwt_expires_in) as int,
                    config.jwt_secret@,
                ),
            ) && !old(sessions).has_refresh_token(
                token_of(
                    u.id as int,
                    now as int,
                    (now + config.jwt_refresh_expires_in) as int,
                    config.jwt_secret@,
                ),
            ) && old(sessions).next_id < i64::MAX ==> r is Ok),
        r is Err ==> *final(users) == *old(users) && *final(sessions) == *old(sessions),
        r matches Err(e) ==> (e == ApiError::InvalidCredentials || e == ApiError::UserDisabled
            || e == ApiError::InternalFailure),
        r matches Ok(lr) ==> {
            &&& old(users).credentials_match(login_data.username@, login_data.password@)
            &&& old(users).enabled_user(login_data.username@)
            &&& (exists|u: User|
                #[trigger] old(users).contains_user(u) && u.username@ == login_data.username@
                    && digest_matches(login_data.password@, u.salt@, u.password_hash@) && u.status
                    != 0 && lr.user == spec_sanitized(u))
            &&& lr.expires_in == config.jwt_expires_in
            &&& lr.access_token@ == token_of(
                lr.user.id as int,
                now as int,
                (now + config.jwt_expires_in) as int,
                config.jwt_secret@,
            )
            &&& lr.refresh_token@ == token_of(
                lr.user.id as int,
                now as int,
                (now + config.jwt_refresh_expires_in) as int,
                config.jwt_secret@,
            )
            &&& token_claims_of(lr.access_token@, config.jwt_secret@) == Some(
                (lr.user.id as int, now as int, (now + config.jwt_expires_in) as int),
            )
            &&& token_claims_of(lr.refresh_token@, config.jwt_secret@) == Some(
                (lr.user.id as int, now as int, (now + config.jwt_refresh_expires_in) as int),
            )
            &&& lr.access_token@.len() > 0
            &&& lr.refresh_token@.len() > 0
            &&& final(sessions).sessions@.len() == old(sessions).sessions@.len() + 1
            &&& final(sessions).sessions@ == old(sessions).sessions@.push(
                final(sessions).sessions@.last(),
            )
            &&& ({
                let s = final(sessions).sessions@.last();
                &&& s.user_id == lr.user.id
                &&& s.token@ == lr.access_token@
                &&& s.refresh_token@ == lr.refresh_token@
                &&& s.expires_at == now + config.jwt_expires_in
                &&& s.refresh_expires_at == now + config.jwt_refresh_expires_in
                &&& s.ip_address matches Some(p) && p@ == spec_effective_ip(ip)
                &&& s.device_info == device_info
                &&& s.created_at == now
            })
            &&& final(users).users@.len() == old(users).users@.len()
            &&& (forall|i: int|
                #![trigger final(users).users@[i]]
                0 <= i < old(users).users@.len() ==> if old(users).users@[i].id == lr.user.id {
                    login_accounted(
                        old(users).users@[i],
                        final(users).users@[i],
                        spec_effective_ip(ip),
                        now,
                    )
                } else {
                    final(users).users@[i] == old(users).users@[i]
                })
        },
{
    let ip_str: &str = match ip {
        Some(p) => p,
        None => "unknown",
    };
    let user = match users.verify_password(
        login_data.username.as_str(),
        login_data.password.as_str(),
    ) {
        Ok(u) => u,
        Err(_) => {
            return Err(ApiError::InvalidCredentials);
        },
    };
    if user.status == 0 {
        proof {
            assert forall|v: User|
                old(users).contains_user(v) && v.username@ == login_data.username@ implies v.status
                == 0 by {
                old(users).lemma_username_unique(v, user);
            }
        }
        return Err(ApiError::UserDisabled);
    }
    let access_expires_at = now + config.jwt_expires_in;
    let refresh_expires_at = now + config.jwt_refresh_expires_in;
    let token = issue_token(user.id, now, config.jwt_expires_in, config.jwt_secret.as_str());
    let refresh = issue_token(
        user.id,
        now,
        config.jwt_refresh_expires_in,
        config.jwt_secret.as_str(),
    );
    match sessions.create_session(
        user.id,
        token.as_str(),
        refresh.as_str(),
        access_expires_at,
        refresh_expires_at,
        ip_str,
        device_info,
        now,
    ) {
        Ok(_) => {},
        Err(_) => {
            proof {
                assert forall|u: User|
                    old(users).contains_user(u) && u.username@ == login_data.username@
                        && digest_matches(
                        login_data.password@,
                        u.salt@,
                        u.password_hash@,
                    ) implies u == user by {
                    old(users).lemma_username_unique(u, user);
                }
            }
            return Err(ApiError::InternalFailure);
        },
    }
    users.update_login_info(user.id, ip_str, now);
    Ok(
        LoginResponse {
            user: sanitize_user(&user),
            access_token: token,
            refresh_token: refresh,
            expires_in: config.jwt_expires_in,
        },
    )
}

/// Refresh: the bearer token of the `Authorization` header must match a
/// stored session's refresh token that is still inside its refresh horizon;
/// only a new access token is issued, under the same subject, and a live
/// refresh token is always answered with one. The session store is read,
/// never written: refresh tokens are not rotated, and an expired refresh
/// token gets `TokenInvalid` and no token at all.
pub fn refresh_token(
    sessions: &SessionRepository,
    config: &Config,
    auth_header: Option<&str>,
    now: i64,
) -> (r: Result<RefreshResponse, ApiError>)
    requires
        config.wf(),
        0 <= now <= 0x2000_0000_0000_0000,
    ensures
        header_token(auth_header) is None ==> r == Err::<RefreshResponse, ApiError>(
            ApiError::TokenMalformed,
        ),
        (header_token(auth_header) matches Some(t) && !sessions.has_live_refresh(t, now as int))
            ==> r == Err::<RefreshResponse, ApiError>(ApiError::TokenInvalid),
        (header_token(auth_header) matches Some(t) && sessions.has_live_refresh(t, now as int))
            ==> r is Ok,
        r matches Err(e) ==> (e == ApiError::TokenMalformed || e == ApiError::TokenInvalid),
        r matches Ok(rr) ==> {
            &&& header_token(auth_header) matches Some(t) && sessions.has_live_refresh(
                t,
                now as int,
            ) && (exists|s: UserSession|
                #[trigger] sessions.contains_session(s) && s.refresh_token@ == t && live_at(
                    s.refresh_expires_at as int,
                    now as int,
                ) && rr.access_token@ == token_of(
                    s.user_id as int,
                    now as int,
                    (now + config.jwt_expires_in) as int,
                    config.jwt_secret@,
                ) && token_claims_of(rr.access_token@, config.jwt_secret@) == Some(
                    (s.user_id as int, now as int, (now + config.jwt_expires_in) as int),
                ))
            &&& rr.expires_in == config.jwt_expires_in
            &&& rr.token_type@ == "Bearer"@
            &&& rr.access_token@.len() > 0
        },
{
    let token = match extract_token_from_header(auth_header) {
        Some(t) => t,
        None => {
            return Err(ApiError::TokenMalformed);
        },
    };
    let session = match sessions.find_by_refresh_token(token.as_str(), now) {
        Ok(s) => s,
        Err(_) => {
            return Err(ApiError::TokenInvalid);
        },
    };
    let new_token = issue_token(
        session.user_id,
        now,
        config.jwt_expires_in,
        config.jwt_secret.as_str(),
    );
    Ok(
        RefreshResponse {
            access_token: new_token,
            expires_in: config.jwt_expires_in,
            token_type: "Bearer".to_owned(),
        },
    )
}

/// Logout: deletes the session matching the bearer access token. Success is
/// reported whether or not a session matched (deletion is idempotent); only
/// a missing or malformed header is an error, and it changes nothing.
pub fn logout(sessions: &mut SessionRepository, auth_header: Option<&str>) -> (r: Result<
    (),
    ApiError,
>)
    requires
        old(sessions).wf(),
    ensures
        final(sessions).wf(),
        header_token(auth_header) is None ==> (r == Err::<(), ApiError>(ApiError::TokenMalformed)
            && *final(sessions) == *old(sessions)),
        r matches Err(e) ==> e == ApiError::TokenMalformed,
        header_token(auth_header) matches Some(t) ==> (r is Ok
            && SessionRepository::deleted_token(*old(sessions), *final(sessions), t)),
{
    let token = match extract_token_from_header(auth_header) {
        Some(t) => t,
        None => {
            return Err(ApiError::TokenMalformed);
        },
    };
    sessions.delete_session(token.as_str());
    Ok(())
}

/// The gated "who am I" endpoint: the sanitized record of the resolved
/// user, or `NotFound` when the user has vanished since the token was
/// issued.
pub fn get_me(users: &UserRepository, user_id: i64) -> (r: Result<UserInfo, ApiError>)
    ensures
        r matches Ok(info) ==> (exists|u: User|
            #[trigger] users.contains_user(u) && u.id == user_id && info == spec_sanitized(u)),
        r is Err <==> !users.has_user_id(user_id as int),
        r matches Err(e) ==> e == ApiError::NotFound,
{
    match users.find_by_id(user_id) {
        Ok(u) => Ok(sanitize_user(&u)),
        Err(_) => Err(ApiError::NotFound),
    }
}

/// The health report: a success envelope with a healthy status when the
/// store answered, a 503 error envelope otherwise. The store probe itself
/// is the caller's business; no raw cause ever reaches the client.
pub fn health_check(db_ok: bool, now: i64) -> (r: Result<
    ApiResponse<HealthCheck>,
    (u16, ApiResponse<()>),
>)
    ensures
        db_ok ==> (r matches Ok(resp) && resp.status@ == "success"@ && (resp.data matches Some(h)
            && h.status@ == "healthy"@ && h.database@ == "connected"@ && h.timestamp == now)),
        !db_ok ==> (r matches Err(p) && p.0 == 503 && p.1.status@ == "error"@ && p.1.data is None),
{
    if db_ok {
        let report = HealthCheck {
            status: "healthy".to_owned(),
            database: "connected".to_owned(),
            timestamp: now,
        };
        Ok(ApiResponse::success(report, "service is running and the store is reachable"))
    } else {
        Err((503, ApiResponse::error("store connection failed")))
    }
}

} // verus!

//! Data model: users, sessions, clips, request bodies and response shapes.
//!
//! Instants are Unix seconds (`i64`). User and session records carry their
//! password digest and salt internally; everything that leaves the service
//! goes through [`UserInfo`], which has no password fields at all.

use vstd::prelude::*;

verus! {

/// An identity record. `status == 0` means the account is disabled and must
/// be rejected at login; any other value means enabled.
#[derive(Debug)]
pub struct User {
    pub id: i64,
    pub username: String,
    pub email: String,
    pub password_hash: String,
    pub salt: String,
    pub status: i8,
    pub last_login_at: Option<i64>,
    pub last_login_ip: Option<String>,
    pub login_count: i32,
    pub created_at: i64,
    pub updated_at: i64,
}

/// Registration request body.
#[derive(Debug)]
pub struct CreateUser {
    pub username: String,
    pub email: String,
    pub password: String,
}

/// Login request body.
#[derive(Debug)]
pub struct LoginUser {
    pub username: String,
    pub password: String,
}

/// A single issued login: one row per successful login, deleted on logout.
/// The session authenticates protected requests while `now < expires_at`
/// and authorizes refresh while `now < refresh_expires_at`.
#[derive(Debug)]
pub struct UserSession {
    pub id: i64,
    pub user_id: i64,
    pub token: String,
    pub refresh_token: String,
    pub expires_at: i64,
    pub refresh_expires_at: i64,
    pub device_info: Option<String>,
    pub ip_address: Option<String>,
    pub created_at: i64,
}

/// A stored text snippet. `deleted_at` implements soft deletion: a clip with
/// `deleted_at` set is invisible to every lookup.
#[derive(Debug)]
pub struct ClipContent {
    pub id: i64,
    pub user_id: i64,
    pub title: Option<String>,
    pub content: String,
    pub content_type: String,
    pub language: Option<String>,
    pub is_encrypted: i8,
    pub encryption_key: Option<String>,
    pub access_type: String,
    pub view_count: i32,
    pub expires_at: Option<i64>,
    pub short_url: Option<String>,
    pub tags: Option<Vec<String>>,
    pub created_at: i64,
    pub updated_at: i64,
    pub deleted_at: Option<i64>,
}

/// Clip creation request body.
#[derive(Debug)]
pub struct CreateClip {
    pub title: Option<String>,
    pub content: String,
    pub content_type: Option<String>,
    pub language: Option<String>,
    pub is_encrypted: Option<bool>,
    pub access_type: Option<String>,
    pub expires_at: Option<i64>,
    pub tags: Option<Vec<String>>,
}

/// Clip update request body. `title`, `content`, `content_type`,
/// `access_type` and `tags` keep the stored value when absent; `language`
/// and `expires_at` overwrite the stored value unconditionally.
#[derive(Debug)]
pub struct UpdateClip {
    pub title: Option<String>,
    pub content: Option<String>,
    pub content_type: Option<String>,
    pub language: Option<String>,
    pub access_type: Option<String>,
    pub expires_at: Option<i64>,
    pub tags: Option<Vec<String>>,
}

/// The sanitized user record that responses carry: no digest, no salt.
#[derive(Debug)]
pub struct UserInfo {
    pub id: i64,
    pub username: String,
    pub email: String,
    pub status: i8,
    pub last_login_at: Option<i64>,
    pub login_count: i32,
    pub created_at: i64,
}

/// The response envelope of every endpoint:
/// `{status: "success"|"error", data?, message}`.
#[derive(Debug)]
pub struct ApiResponse<T> {
    pub status: String,
    pub data: Option<T>,
    pub message: String,
}

/// Successful login payload: both tokens plus the sanitized user record.
#[derive(Debug)]
pub struct LoginResponse {
    pub user: UserInfo,
    pub access_token: String,
    pub refresh_token: String,
    pub expires_in: i64,
}

/// Successful refresh payload: a fresh access token only.
#[derive(Debug)]
pub struct RefreshResponse {
    pub access_token: String,
    pub expires_in: i64,
    pub token_type: String,
}

/// Health report: service status, store status, and the instant it was taken.
#[derive(Debug)]
pub struct HealthCheck {
    pub status: String,
    pub database: String,
    pub timestamp: i64,
}

/// Pagination query parameters; absent values take defaults (page 1, 20 per
/// page).
#[derive(Debug)]
pub struct Pagination {
    pub page: Option<i64>,
    pub page_size: Option<i64>,
}

/// The sanitized projection of a user record.
pub open spec fn spec_sanitized(u: User) -> UserInfo {
    UserInfo {
        id: u.id,
        username: u.username,
        email: u.email,
        status: u.status,
        last_login_at: u.last_login_at,
        login_count: u.login_count,
        created_at: u.created_at,
    }
}

/// Strips the password digest and salt from a user record. Sensitive fields
/// never appear in a response.
pub fn sanitize_user(u: &User) -> (r: UserInfo)
    ensures
        r == spec_sanitized(*u),
{
    UserInfo {
        id: u.id,
        username: u.username.clone(),
        email: u.email.clone(),
        status: u.status,
        last_login_at: u.last_login_at,
        login_count: u.login_count,
        created_at: u.created_at,
    }
}

/// An owned copy of an optional string, equal to the original.
pub fn clone_opt_string(o: &Option<String>) -> (r: Option<String>)
    ensures
        r == *o,
{
    match o {
        Some(s) => Some(s.clone()),
        None => None,
    }
}

/// An owned copy of a string vector, with the same view.
pub fn clone_string_vec(v: &Vec<String>) -> (r: Vec<String>)
    ensures
        r@ == v@,
{
    let mut r: Vec<String> = Vec::new();
    let mut i: usize = 0;
    while i < v.len()
        invariant
            i <= v.len(),
            r@ == v@.subrange(0, i as int),
        decreases v.len() - i,
    {
        r.push(v[i].clone());
        proof {
            assert(v@.subrange(0, i as int + 1) =~= v@.subrange(0, i as int).push(v@[i as int]));
        }
        i = i + 1;
    }
    proof {
        assert(v@.subrange(0, v@.len() as int) =~= v@);
    }
    r
}

/// An owned copy of an optional string vector, equal to the original.
pub fn clone_opt_string_vec(o: &Option<Vec<String>>) -> (r: Option<Vec<String>>)
    ensures
        match (o, &r) {
            (Some(v), Some(w)) => v@ == w@,
            (None, None) => true,
            _ => false,
        },
{
    match o {
        Some(v) => Some(clone_string_vec(v)),
        None => None,
    }
}

impl User {
    /// An owned copy, field for field equal to `self`.
    pub fn duplicate(&self) -> (r: User)
        ensures
            r == *self,
    {
        User {
            id: self.id,
            username: self.username.clone(),
            email: self.email.clone(),
            password_hash: self.password_hash.clone(),
            salt: self.salt.clone(),
            status: self.status,
            last_login_at: self.last_login_at,
            last_login_ip: clone_opt_string(&self.last_login_ip),
            login_count: self.login_count,
            created_at: self.created_at,
            updated_at: self.updated_at,
        }
    }
}

impl UserSession {
    /// An owned copy, field for field equal to `self`.
    pub fn duplicate(&self) -> (r: UserSession)
        ensures
            r == *self,
    {
        UserSession {
            id: self.id,
            user_id: self.user_id,
            token: self.token.clone(),
            refresh_token: self.refresh_token.clone(),
            expires_at: self.expires_at,
            refresh_expires_at: self.refresh_expires_at,
            device_info: clone_opt_string(&self.device_info),
            ip_address: clone_opt_string(&self.ip_address),
            created_at: self.created_at,
        }
    }
}

/// Field-for-field equality of clip records; the tag lists are compared by
/// content (an owned copy of a tag list is equal in this sense).
pub open spec fn same_clip(a: ClipContent, b: ClipContent) -> bool {
    &&& a.id == b.id
    &&& a.user_id == b.user_id
    &&& a.title == b.title
    &&& a.content == b.content
    &&& a.content_type == b.content_type
    &&& a.language == b.language
    &&& a.is_encrypted == b.is_encrypted
    &&& a.encryption_key == b.encryption_key
    &&& a.access_type == b.access_type
    &&& a.view_count == b.view_count
    &&& a.expires_at == b.expires_at
    &&& a.short_url == b.short_url
    &&& (match (a.tags, b.tags) {
        (Some(x), Some(y)) => x@ == y@,
        (None, None) => true,
        _ => false,
    })
    &&& a.created_at == b.created_at
    &&& a.updated_at == b.updated_at
    &&& a.deleted_at == b.deleted_at
}

impl ClipContent {
    /// An owned copy; equal to `self` in the sense of [`same_clip`].
    pub fn duplicate(&self) -> (r: ClipContent)
        ensures
            same_clip(*self, r),
    {
        ClipContent {
            id: self.id,
            user_id: self.user_id,
            title: clone_opt_string(&self.title),
            content: self.content.clone(),
            content_type: self.content_type.clone(),
            language: clone_opt_string(&self.language),
            is_encrypted: self.is_encrypted,
            encryption_key: clone_opt_string(&self.encryption_key),
            access_type: self.access_type.clone(),
            view_count: self.view_count,
            expires_at: self.expires_at,
            short_url: clone_opt_string(&self.short_url),
            tags: clone_opt_string_vec(&self.tags),
            created_at: self.created_at,
            updated_at: self.updated_at,
            deleted_at: self.deleted_at,
        }
    }
}

impl<T> ApiResponse<T> {
    /// The success envelope around a payload.
    pub fn success(data: T, message: &str) -> (r: Self)
        ensures
            r.status@ == "success"@,
            r.data == Some(data),
            r.message@ == message@,
    {
        ApiResponse {
            status: "success".to_owned(),
            data: Some(data),
            message: message.to_owned(),
        }
    }

    /// The error envelope: no payload, only a message.
    pub fn error(message: &str) -> (r: Self)
        ensures
            r.status@ == "error"@,
            r.data is None,
            r.message@ == message@,
    {
        ApiResponse { status: "error".to_owned(), data: None, message: message.to_owned() }
    }
}

} // verus!

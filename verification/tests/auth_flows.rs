//! End-to-end exercises of the authentication core with the real hashing
//! and signing primitives linked in.
//!
//! The token primitive checks the embedded expiry against the real clock,
//! so every scenario anchors its instants to the current time.

use std::time::{SystemTime, UNIX_EPOCH};

use clipboard_server::config::Config;
use clipboard_server::errors::{error_message, error_status, ApiError};
use clipboard_server::handlers::{
    auth, extract_token_from_header, get_me, health_check, login, logout, refresh_token, register,
};
use clipboard_server::models::{ApiResponse, CreateUser, LoginUser};
use clipboard_server::sessions::SessionRepository;
use clipboard_server::users::UserRepository;

fn real_now() -> i64 {
    SystemTime::now().duration_since(UNIX_EPOCH).unwrap().as_secs() as i64
}

fn test_config() -> Config {
    Config::from_values(String::new(), None, Some("test_signing_secret".to_string()), None, None)
}

fn create_user_body(username: &str, email: &str, password: &str) -> CreateUser {
    CreateUser {
        username: username.to_string(),
        email: email.to_string(),
        password: password.to_string(),
    }
}

fn login_body(username: &str, password: &str) -> LoginUser {
    LoginUser { username: username.to_string(), password: password.to_string() }
}

#[test]
fn config_defaults() {
    let c = Config::from_values("db".to_string(), None, None, None, None);
    assert_eq!(c.database_url, "db");
    assert_eq!(c.server_port, 3000);
    assert_eq!(c.jwt_secret, "default_secret_key");
    assert_eq!(c.jwt_expires_in, 3600);
    assert_eq!(c.jwt_refresh_expires_in, 2592000);
    assert!(c.is_wf());
    let c = Config::from_values("db".to_string(), Some(8080), Some("s".to_string()), Some(60), Some(120));
    assert_eq!(c.server_port, 8080);
    assert_eq!(c.jwt_secret, "s");
    assert_eq!(c.jwt_expires_in, 60);
    assert_eq!(c.jwt_refresh_expires_in, 120);
}

#[test]
fn register_login_me_logout_roundtrip() {
    let config = test_config();
    let mut users = UserRepository::new();
    let mut sessions = SessionRepository::new();
    let now = real_now();

    let registered = register(&mut users, &create_user_body("alice", "a@x.com", "secret123"), now)
        .expect("registration succeeds");
    assert_eq!(registered.username, "alice");
    assert_eq!(registered.email, "a@x.com");
    assert_eq!(registered.status, 1);
    assert_eq!(registered.login_count, 0);

    let lr = login(
        &mut users,
        &mut sessions,
        &config,
        &login_body("alice", "secret123"),
        Some("127.0.0.1"),
        Some("test agent".to_string()),
        now,
    )
    .expect("login succeeds");
    assert!(!lr.access_token.is_empty());
    assert!(!lr.refresh_token.is_empty());
    assert_eq!(lr.expires_in, 3600);
    assert_eq!(lr.user.username, "alice");
    assert_eq!(sessions.sessions.len(), 1);

    let header = format!("Bearer {}", lr.access_token);
    let uid = auth(&sessions, &config, Some(header.as_str()), now + 10).expect("gate admits");
    assert_eq!(uid, lr.user.id);

    let me = get_me(&users, uid).expect("user still there");
    assert_eq!(me.username, "alice");
    assert_eq!(me.email, "a@x.com");
    assert_eq!(me.login_count, 1);

    logout(&mut sessions, Some(header.as_str())).expect("logout succeeds");
    assert_eq!(sessions.sessions.len(), 0);

    let rejected = auth(&sessions, &config, Some(header.as_str()), now + 20)
        .expect_err("revoked token is rejected");
    assert_eq!(error_status(&rejected), 401);
}

#[test]
fn login_wrong_password_creates_no_session() {
    let config = test_config();
    let mut users = UserRepository::new();
    let mut sessions = SessionRepository::new();
    let now = real_now();

    register(&mut users, &create_user_body("alice", "a@x.com", "secret123"), now).unwrap();
    let e = login(
        &mut users,
        &mut sessions,
        &config,
        &login_body("alice", "wrongpass"),
        None,
        None,
        now,
    )
    .expect_err("wrong password fails");
    assert_eq!(e, ApiError::InvalidCredentials);
    assert_eq!(error_status(&e), 401);
    assert_eq!(sessions.sessions.len(), 0);
}

#[test]
fn duplicate_registration_keeps_first_record() {
    let mut users = UserRepository::new();
    let now = real_now();

    register(&mut users, &create_user_body("alice", "a@x.com", "secret123"), now).unwrap();
    let e = register(&mut users, &create_user_body("alice", "b@y.org", "otherpass"), now + 5)
        .expect_err("second registration fails");
    assert_eq!(e, ApiError::DuplicateUsername);
    assert_eq!(error_status(&e), 400);
    assert_eq!(users.users.len(), 1);

    let first = get_me(&users, 1).unwrap();
    assert_eq!(first.email, "a@x.com");
    assert!(users.verify_password("alice", "secret123").is_ok());
    assert!(users.verify_password("alice", "otherpass").is_err());
}

#[test]
fn password_verification_exact() {
    let mut users = UserRepository::new();
    let now = real_now();
    register(&mut users, &create_user_body("alice", "a@x.com", "secret123"), now).unwrap();

    assert!(users.verify_password("alice", "secret123").is_ok());
    for wrong in ["secret124", "Secret123", "secret123 ", "", "s"] {
        let e = users.verify_password("alice", wrong).unwrap_err();
        assert_eq!(e, ApiError::InvalidCredentials);
    }
    let e = users.verify_password("bob", "secret123").unwrap_err();
    assert_eq!(e, ApiError::InvalidCredentials);
}

#[test]
fn disabled_user_cannot_login() {
    let config = test_config();
    let mut users = UserRepository::new();
    let mut sessions = SessionRepository::new();
    let now = real_now();

    register(&mut users, &create_user_body("alice", "a@x.com", "secret123"), now).unwrap();
    users.users[0].status = 0;
    let e = login(
        &mut users,
        &mut sessions,
        &config,
        &login_body("alice", "secret123"),
        None,
        None,
        now,
    )
    .expect_err("disabled user is refused");
    assert_eq!(e, ApiError::UserDisabled);
    assert_eq!(error_status(&e), 403);
    assert_eq!(sessions.sessions.len(), 0);
}

#[test]
fn access_window_boundaries() {
    let config = test_config();
    let mut users = UserRepository::new();
    let mut sessions = SessionRepository::new();
    let now = real_now();

    register(&mut users, &create_user_body("alice", "a@x.com", "secret123"), now).unwrap();
    let lr = login(
        &mut users,
        &mut sessions,
        &config,
        &login_body("alice", "secret123"),
        None,
        None,
        now,
    )
    .unwrap();
    let header = format!("Bearer {}", lr.access_token);

    assert!(auth(&sessions, &config, Some(header.as_str()), now + 3599).is_ok());
    let at_boundary = auth(&sessions, &config, Some(header.as_str()), now + 3600).unwrap_err();
    assert_eq!(at_boundary, ApiError::SessionNotFound);
    let past_boundary = auth(&sessions, &config, Some(header.as_str()), now + 3601).unwrap_err();
    assert_eq!(error_status(&past_boundary), 401);
}

#[test]
fn refresh_issues_new_access_token() {
    let config = test_config();
    let mut users = UserRepository::new();
    let mut sessions = SessionRepository::new();
    let now = real_now();

    register(&mut users, &create_user_body("alice", "a@x.com", "secret123"), now).unwrap();
    let lr = login(
        &mut users,
        &mut sessions,
        &config,
        &login_body("alice", "secret123"),
        None,
        None,
        now,
    )
    .unwrap();
    let header = format!("Bearer {}", lr.refresh_token);

    let rr = refresh_token(&sessions, &config, Some(header.as_str()), now + 50)
        .expect("live refresh token is accepted");
    assert!(!rr.access_token.is_empty());
    assert_eq!(rr.expires_in, 3600);
    assert_eq!(rr.token_type, "Bearer");
    assert_eq!(sessions.sessions.len(), 1);
}

#[test]
fn expired_refresh_token_rejected() {
    let config = test_config();
    let mut users = UserRepository::new();
    let mut sessions = SessionRepository::new();
    let now = real_now();

    register(&mut users, &create_user_body("alice", "a@x.com", "secret123"), now).unwrap();
    let lr = login(
        &mut users,
        &mut sessions,
        &config,
        &login_body("alice", "secret123"),
        None,
        None,
        now,
    )
    .unwrap();
    let header = format!("Bearer {}", lr.refresh_token);

    let e = refresh_token(&sessions, &config, Some(header.as_str()), now + 2592000)
        .expect_err("refresh token at its horizon is dead");
    assert_eq!(e, ApiError::TokenInvalid);
    assert_eq!(error_status(&e), 401);
    let e = refresh_token(&sessions, &config, Some(header.as_str()), now + 2592001).unwrap_err();
    assert_eq!(error_status(&e), 401);
}

#[test]
fn token_signed_with_other_secret_rejected() {
    let config = test_config();
    let other = Config::from_values(String::new(), None, Some("another_secret".to_string()), None, None);
    let mut users = UserRepository::new();
    let mut sessions = SessionRepository::new();
    let now = real_now();

    register(&mut users, &create_user_body("alice", "a@x.com", "secret123"), now).unwrap();
    let lr = login(
        &mut users,
        &mut sessions,
        &config,
        &login_body("alice", "secret123"),
        None,
        None,
        now,
    )
    .unwrap();
    let header = format!("Bearer {}", lr.access_token);

    // the session row exists, so only the signature check can refuse this
    let e = auth(&sessions, &other, Some(header.as_str()), now + 10)
        .expect_err("foreign signature is refused");
    assert_eq!(e, ApiError::TokenInvalid);
    assert_eq!(error_status(&e), 401);
}

#[test]
fn gate_refuses_malformed_headers() {
    let config = test_config();
    let sessions = SessionRepository::new();
    let now = real_now();

    for header in [None, Some("bearer abc"), Some("Bearer"), Some("Token abc"), Some("")] {
        let e = auth(&sessions, &config, header, now).unwrap_err();
        assert_eq!(e, ApiError::TokenMalformed);
        assert_eq!(error_status(&e), 401);
    }
    let e = auth(&sessions, &config, Some("Bearer unknown-token"), now).unwrap_err();
    assert_eq!(e, ApiError::SessionNotFound);
}

#[test]
fn bearer_extraction_is_exact() {
    assert_eq!(extract_token_from_header(Some("Bearer abc")), Some("abc".to_string()));
    assert_eq!(extract_token_from_header(Some("Bearer  two")), Some(" two".to_string()));
    assert_eq!(extract_token_from_header(Some("Bearer ")), Some(String::new()));
    assert_eq!(extract_token_from_header(Some("bearer abc")), None);
    assert_eq!(extract_token_from_header(Some("Bearer")), None);
    assert_eq!(extract_token_from_header(Some("")), None);
    assert_eq!(extract_token_from_header(None), None);
}

#[test]
fn logout_is_idempotent() {
    let mut sessions = SessionRepository::new();
    assert!(logout(&mut sessions, Some("Bearer nothing-there")).is_ok());
    let e = logout(&mut sessions, None).unwrap_err();
    assert_eq!(e, ApiError::TokenMalformed);
    let e = logout(&mut sessions, Some("no-bearer")).unwrap_err();
    assert_eq!(error_status(&e), 401);
}

#[test]
fn get_me_unknown_user() {
    let users = UserRepository::new();
    let e = get_me(&users, 99).unwrap_err();
    assert_eq!(e, ApiError::NotFound);
    assert_eq!(error_status(&e), 404);
}

#[test]
fn id_exhaustion_is_internal_failure() {
    let mut users = UserRepository::new();
    users.next_id = i64::MAX;
    let e = register(&mut users, &create_user_body("alice", "a@x.com", "pw"), 0).unwrap_err();
    assert_eq!(e, ApiError::InternalFailure);
    assert_eq!(error_status(&e), 500);
    assert_eq!(users.users.len(), 0);
}

#[test]
fn health_report_shapes() {
    let ok = health_check(true, 42).expect("healthy store reports success");
    assert_eq!(ok.status, "success");
    let report = ok.data.unwrap();
    assert_eq!(report.status, "healthy");
    assert_eq!(report.database, "connected");
    assert_eq!(report.timestamp, 42);

    let (code, body) = health_check(false, 42).expect_err("dead store reports an error");
    assert_eq!(code, 503);
    assert_eq!(body.status, "error");
    assert!(body.data.is_none());
}

#[test]
fn response_envelope_shapes() {
    let ok: ApiResponse<i64> = ApiResponse::success(7, "fine");
    assert_eq!(ok.status, "success");
    assert_eq!(ok.data, Some(7));
    assert_eq!(ok.message, "fine");

    let err: ApiResponse<i64> = ApiResponse::error("broken");
    assert_eq!(err.status, "error");
    assert!(err.data.is_none());
    assert_eq!(err.message, "broken");
}

#[test]
fn error_messages_are_generic() {
    assert_eq!(error_message(&ApiError::InvalidCredentials), "invalid username or password");
    assert_eq!(error_message(&ApiError::SessionNotFound), "token is expired or invalid");
    assert_eq!(error_status(&ApiError::NotFound), 404);
    assert_eq!(error_status(&ApiError::InvalidPagination), 400);
    assert_eq!(error_status(&ApiError::StoreUnavailable), 500);
}

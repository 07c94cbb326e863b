use blog001::auth::{
    admin_user, authenticate, login, login_redirect_target, logout, require_auth, session_status,
    LoginOutcome, LoginRequest,
};
use blog001::cookie::extract_session_cookie;
use blog001::reply::ApiError;
use blog001::session::SessionStore;

const SECOND: u128 = 1_000_000_000;

fn request(user: &str, password: &str) -> LoginRequest {
    LoginRequest { username: user.to_string(), password: password.to_string() }
}

fn logged_in(store: &mut SessionStore, now: u128) -> String {
    match login(store, request("admin", "changeme"), now) {
        LoginOutcome::Accepted { set_cookie, .. } => {
            let token = extract_session_cookie(&set_cookie).unwrap();
            format!("blog001_session={token}")
        }
        _ => panic!("login refused"),
    }
}

#[test]
fn login_with_wrong_password_is_refused() {
    let mut store = SessionStore::new(60 * SECOND);
    let outcome = login(&mut store, request("admin", "wrong"), 0);
    assert!(matches!(outcome, LoginOutcome::BadCredentials));
    assert_eq!(outcome.status(), 401);
    let body = outcome.body();
    assert!(!body.authenticated);
    assert_eq!(body.username, None);
}

#[test]
fn login_with_wrong_user_is_refused() {
    let mut store = SessionStore::new(60 * SECOND);
    assert!(matches!(login(&mut store, request("root", "changeme"), 0), LoginOutcome::BadCredentials));
}

#[test]
fn login_accepts_configured_credentials() {
    let mut store = SessionStore::new(60 * SECOND);
    let outcome = login(&mut store, request("admin", "changeme"), 0);
    assert_eq!(outcome.status(), 200);
    let body = outcome.body();
    assert!(body.authenticated);
    assert_eq!(body.username, Some("admin".to_string()));
    match outcome {
        LoginOutcome::Accepted { username, set_cookie } => {
            assert_eq!(username, "admin");
            assert!(set_cookie.starts_with("blog001_session="));
            assert!(set_cookie.ends_with("; HttpOnly; Path=/; Max-Age=86400; SameSite=Lax"));
        }
        _ => panic!("expected acceptance"),
    }
}

#[test]
fn login_fails_when_expiry_is_out_of_range() {
    let mut store = SessionStore::new(u128::MAX);
    let outcome = login(&mut store, request("admin", "changeme"), 1);
    assert!(matches!(outcome, LoginOutcome::SessionUnavailable));
    assert_eq!(outcome.status(), 500);
    assert!(!outcome.body().authenticated);
}

#[test]
fn login_cookie_authenticates_later_requests() {
    let mut store = SessionStore::new(60 * SECOND);
    let header = logged_in(&mut store, 0);
    assert_eq!(authenticate(&mut store, Some(&header), 30 * SECOND), Some("admin".to_string()));
    let status = session_status(&mut store, Some(&header), 60 * SECOND);
    assert!(status.authenticated);
    assert_eq!(status.username, Some("admin".to_string()));
}

#[test]
fn session_status_without_cookie() {
    let mut store = SessionStore::new(60 * SECOND);
    let status = session_status(&mut store, None, 0);
    assert!(!status.authenticated);
    assert_eq!(status.username, None);
    let status = session_status(&mut store, Some("other=1"), 0);
    assert!(!status.authenticated);
}

#[test]
fn expired_cookie_is_refused() {
    let mut store = SessionStore::new(60 * SECOND);
    let header = logged_in(&mut store, 0);
    assert_eq!(authenticate(&mut store, Some(&header), 61 * SECOND), None);
}

#[test]
fn logout_ends_the_session() {
    let mut store = SessionStore::new(60 * SECOND);
    let header = logged_in(&mut store, 0);
    let (body, clear) = logout(&mut store, Some(&header));
    assert!(!body.authenticated);
    assert_eq!(body.username, None);
    assert_eq!(clear, "blog001_session=; HttpOnly; Path=/; Max-Age=0; SameSite=Lax");
    assert_eq!(authenticate(&mut store, Some(&header), 1), None);
}

#[test]
fn logout_without_session_still_clears_cookie() {
    let mut store = SessionStore::new(60 * SECOND);
    let (body, clear) = logout(&mut store, None);
    assert!(!body.authenticated);
    assert!(clear.contains("Max-Age=0"));
}

#[test]
fn admin_pages_need_a_session() {
    let mut store = SessionStore::new(60 * SECOND);
    assert!(admin_user(&mut store, None, 0).is_none());
    assert_eq!(login_redirect_target(), "/login");
    let header = logged_in(&mut store, 0);
    let user = admin_user(&mut store, Some(&header), 1).unwrap();
    assert_eq!(user.username, "admin");
}

#[test]
fn json_endpoints_need_a_session() {
    let mut store = SessionStore::new(60 * SECOND);
    let err = require_auth(&mut store, Some("blog001_session=bogus"), 0).unwrap_err();
    assert_eq!(err, ApiError::AuthenticationRequired);
    assert_eq!(err.status(), 401);
    assert_eq!(err.message(), "authentication required");
    let header = logged_in(&mut store, 0);
    assert_eq!(require_auth(&mut store, Some(&header), 0), Ok("admin".to_string()));
}

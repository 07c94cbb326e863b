use blog001::session::SessionStore;

const SECOND: u128 = 1_000_000_000;

fn is_uuid_v4_text(s: &str) -> bool {
    let b: Vec<char> = s.chars().collect();
    b.len() == 36
        && b.iter().enumerate().all(|(i, c)| {
            if i == 8 || i == 13 || i == 18 || i == 23 {
                *c == '-'
            } else {
                c.is_ascii_digit() || ('a'..='f').contains(c)
            }
        })
        && b[14] == '4'
        && matches!(b[19], '8' | '9' | 'a' | 'b')
}

#[test]
fn created_session_validates_until_expiry() {
    let mut store = SessionStore::new(10 * SECOND);
    let token = store.create_session("admin".to_string(), 100 * SECOND).unwrap();
    assert!(is_uuid_v4_text(&token));
    assert_eq!(store.validate_session(&token, 100 * SECOND), Some("admin".to_string()));
    assert_eq!(store.validate_session(&token, 110 * SECOND), Some("admin".to_string()));
}

#[test]
fn lapsed_session_is_refused_and_dropped() {
    let mut store = SessionStore::new(10 * SECOND);
    let token = store.create_session("admin".to_string(), 0).unwrap();
    assert_eq!(store.validate_session(&token, 10 * SECOND + 1), None);
    // dropped: even an earlier instant no longer finds it
    assert_eq!(store.validate_session(&token, 0), None);
    assert!(!store.invalidate_session(&token));
}

#[test]
fn unknown_token_is_refused() {
    let mut store = SessionStore::new(SECOND);
    assert_eq!(store.validate_session("nope", 0), None);
}

#[test]
fn invalidated_session_is_refused() {
    let mut store = SessionStore::new(60 * SECOND);
    let token = store.create_session("admin".to_string(), 0).unwrap();
    assert!(store.invalidate_session(&token));
    assert!(!store.invalidate_session(&token));
    assert_eq!(store.validate_session(&token, 1), None);
}

#[test]
fn sessions_are_independent() {
    let mut store = SessionStore::new(60 * SECOND);
    let a = store.create_session("alice".to_string(), 0).unwrap();
    let b = store.create_session("bob".to_string(), 0).unwrap();
    assert_ne!(a, b);
    assert!(store.invalidate_session(&a));
    assert_eq!(store.validate_session(&b, 1), Some("bob".to_string()));
}

#[test]
fn explicit_token_session() {
    let mut store = SessionStore::new(5);
    let r = store.create_session_with_token("t1".to_string(), "u".to_string(), 7);
    assert_eq!(r, Some("t1".to_string()));
    assert_eq!(store.validate_session("t1", 12), Some("u".to_string()));
    assert_eq!(store.validate_session("t1", 13), None);
}

#[test]
fn expiry_beyond_clock_range_fails() {
    let latest = blog001::session::LATEST_INSTANT_NANOS;
    let mut store = SessionStore::new(10);
    assert_eq!(store.create_session("admin".to_string(), latest - 5), None);
    assert_eq!(
        store.create_session_with_token("t".to_string(), "admin".to_string(), latest - 10),
        Some("t".to_string())
    );
    let mut huge = SessionStore::new(u128::MAX);
    assert_eq!(huge.create_session("admin".to_string(), 1), None);
}

use blog001::cookie::{build_clear_cookie_value, build_set_cookie_value, extract_session_cookie};

#[test]
fn extracts_lone_session_cookie() {
    assert_eq!(extract_session_cookie("blog001_session=abc"), Some("abc".to_string()));
}

#[test]
fn extracts_session_cookie_among_others() {
    let header = "theme=dark;  blog001_session=tok-1 ; lang=en";
    assert_eq!(extract_session_cookie(header), Some("tok-1".to_string()));
}

#[test]
fn first_session_cookie_wins() {
    let header = "blog001_session=first; blog001_session=second";
    assert_eq!(extract_session_cookie(header), Some("first".to_string()));
}

#[test]
fn missing_session_cookie_gives_none() {
    assert_eq!(extract_session_cookie("theme=dark; lang=en"), None);
    assert_eq!(extract_session_cookie(""), None);
    assert_eq!(extract_session_cookie(";;;"), None);
}

#[test]
fn cookie_name_must_match_exactly() {
    assert_eq!(extract_session_cookie("blog001_sessionx=abc"), None);
    assert_eq!(extract_session_cookie("Blog001_session=abc"), None);
    assert_eq!(extract_session_cookie("blog001_session abc"), None);
}

#[test]
fn value_keeps_later_equals_signs() {
    assert_eq!(extract_session_cookie("blog001_session=a=b=c"), Some("a=b=c".to_string()));
}

#[test]
fn empty_value_is_a_value() {
    assert_eq!(extract_session_cookie("blog001_session="), Some(String::new()));
}

#[test]
fn parts_are_trimmed_with_unicode_whitespace() {
    assert_eq!(
        extract_session_cookie("a=1;\u{a0}\tblog001_session=xyz\u{3000}"),
        Some("xyz".to_string())
    );
}

#[test]
fn set_cookie_value_shape() {
    assert_eq!(
        build_set_cookie_value("tok"),
        "blog001_session=tok; HttpOnly; Path=/; Max-Age=86400; SameSite=Lax"
    );
}

#[test]
fn clear_cookie_value_shape() {
    assert_eq!(
        build_clear_cookie_value(),
        "blog001_session=; HttpOnly; Path=/; Max-Age=0; SameSite=Lax"
    );
}

#[test]
fn set_cookie_round_trips_through_extraction() {
    let token = "67e55044-10b1-426f-9247-bb680e5fe0c8";
    let cookie = build_set_cookie_value(token);
    assert_eq!(extract_session_cookie(&cookie), Some(token.to_string()));
}

//! Login, logout and session checks, on top of the session store and the
//! session cookie.

use vstd::prelude::*;

use crate::cookie::{
    build_clear_cookie_value, build_set_cookie_value, extract_session_cookie,
    lemma_other_cookie_skipped, lemma_other_pair_not_session, lemma_session_pair_value,
    lemma_set_cookie_round_trip, session_clear_cookie, session_cookie_name, session_cookie_value,
    session_set_cookie,
};
use crate::reply::{status_of, ApiError};
use crate::router::LOGIN;
use crate::session::{
    after_validation, expiry_for, is_uuid_v4_text, lemma_uuid_text_is_cookie_safe, validated_user,
    SessionRecord, SessionStore,
};
use crate::text::{is_unicode_whitespace, opt_str_view, opt_string_view};

verus! {

/// The one account that may log in.
pub const LOGIN_USERNAME: &'static str = "admin";

/// Its password.
pub const LOGIN_PASSWORD: &'static str = "changeme";

/// Body of a login request.
#[derive(Debug)]
pub struct LoginRequest {
    pub username: String,
    pub password: String,
}

/// Body of every auth reply.
#[derive(Debug)]
pub struct AuthStatusResponse {
    pub authenticated: bool,
    pub username: Option<String>,
}

/// The user on whose behalf an admin request runs.
#[derive(Clone, Debug)]
pub struct AuthUser {
    pub username: String,
}

/// Whether a user name and password are the configured credentials.
pub open spec fn credentials_match(username: Seq<char>, password: Seq<char>) -> bool {
    username == "admin"@ && password == "changeme"@
}

/// The user that a request with the given `Cookie` header (if any) is
/// logged in as at instant `now`.
pub open spec fn authenticated_user(
    m: Map<Seq<char>, SessionRecord>,
    cookie_header: Option<Seq<char>>,
    now: u128,
) -> Option<Seq<char>> {
    match cookie_header {
        Some(h) => match session_cookie_value(h) {
            Some(token) => validated_user(m, token, now),
            None => None,
        },
        None => None,
    }
}

/// The sessions after a request with that header was checked.
pub open spec fn after_authentication(
    m: Map<Seq<char>, SessionRecord>,
    cookie_header: Option<Seq<char>>,
    now: u128,
) -> Map<Seq<char>, SessionRecord> {
    match cookie_header {
        Some(h) => match session_cookie_value(h) {
            Some(token) => after_validation(m, token, now),
            None => m,
        },
        None => m,
    }
}

/// The session token a request names, if any.
pub open spec fn named_token(cookie_header: Option<Seq<char>>) -> Option<Seq<char>> {
    match cookie_header {
        Some(h) => session_cookie_value(h),
        None => None,
    }
}

/// How a login attempt ends.
pub enum LoginOutcome {
    /// The credentials are not the configured ones.
    BadCredentials,
    /// No session could be opened.
    SessionUnavailable,
    /// A session was opened; `set_cookie` hands its token to the browser.
    Accepted { username: String, set_cookie: String },
}

impl LoginOutcome {
    /// HTTP status of the reply.
    pub fn status(&self) -> (r: u16)
        ensures
            r == match self {
                LoginOutcome::BadCredentials => 401u16,
                LoginOutcome::SessionUnavailable => 500u16,
                LoginOutcome::Accepted { .. } => 200u16,
            },
    {
        match self {
            LoginOutcome::BadCredentials => 401,
            LoginOutcome::SessionUnavailable => 500,
            LoginOutcome::Accepted { .. } => 200,
        }
    }

    /// JSON body of the reply.
    pub fn body(&self) -> (r: AuthStatusResponse)
        ensures
            match self {
                LoginOutcome::Accepted { username, .. } => r.authenticated && opt_string_view(
                    r.username,
                ) == Some(username@),
                _ => !r.authenticated && r.username is None,
            },
    {
        match self {
            LoginOutcome::Accepted { username, .. } => AuthStatusResponse {
                authenticated: true,
                username: Some(username.clone()),
            },
            _ => AuthStatusResponse { authenticated: false, username: None },
        }
    }
}

/// Checks the credentials and, when they match, opens a session at `now`.
pub fn login(store: &mut SessionStore, request: LoginRequest, now: u128) -> (r: LoginOutcome)
    ensures
        final(store).ttl_nanos() == old(store).ttl_nanos(),
        !credentials_match(request.username@, request.password@) ==> {
            &&& r is BadCredentials
            &&& final(store)@ == old(store)@
        },
        credentials_match(request.username@, request.password@) ==> match expiry_for(
            now,
            old(store).ttl_nanos(),
        ) {
            None => r is SessionUnavailable && final(store)@ == old(store)@,
            Some(exp) => exists|token: Seq<char>|
                {
                    &&& is_uuid_v4_text(token)
                    &&& final(store)@ == old(store)@.insert(token, (request.username@, exp))
                    &&& r matches LoginOutcome::Accepted { username, set_cookie }
                    &&& username@ == request.username@
                    &&& set_cookie@ == session_set_cookie(token)
                },
        },
{
    let expected_user = LOGIN_USERNAME.to_owned();
    let expected_password = LOGIN_PASSWORD.to_owned();
    if request.username != expected_user || request.password != expected_password {
        return LoginOutcome::BadCredentials;
    }
    let username = request.username.clone();
    match store.create_session(request.username, now) {
        Some(token) => {
            let set_cookie = build_set_cookie_value(token.as_str());
            LoginOutcome::Accepted { username, set_cookie }
        },
        None => LoginOutcome::SessionUnavailable,
    }
}

/// The user a request is logged in as; a lapsed session it names is dropped.
pub fn authenticate(store: &mut SessionStore, cookie_header: Option<&str>, now: u128) -> (r:
    Option<String>)
    ensures
        final(store).ttl_nanos() == old(store).ttl_nanos(),
        opt_string_view(r) == authenticated_user(old(store)@, opt_str_view(cookie_header), now),
        final(store)@ == after_authentication(old(store)@, opt_str_view(cookie_header), now),
{
    match cookie_header {
        Some(h) => match extract_session_cookie(h) {
            Some(token) => store.validate_session(token.as_str(), now),
            None => None,
        },
        None => None,
    }
}

/// Reply to "who am I": whether the request is logged in, and as whom.
pub fn session_status(store: &mut SessionStore, cookie_header: Option<&str>, now: u128) -> (r:
    AuthStatusResponse)
    ensures
        final(store).ttl_nanos() == old(store).ttl_nanos(),
        r.authenticated == (r.username is Some),
        opt_string_view(r.username) == authenticated_user(
            old(store)@,
            opt_str_view(cookie_header),
            now,
        ),
        final(store)@ == after_authentication(old(store)@, opt_str_view(cookie_header), now),
{
    let username = authenticate(store, cookie_header, now);
    AuthStatusResponse { authenticated: username.is_some(), username }
}

/// Ends the session the request names (if any) and gives the reply body and
/// the `Set-Cookie` value that clears the cookie.
pub fn logout(store: &mut SessionStore, cookie_header: Option<&str>) -> (r: (
    AuthStatusResponse,
    String,
))
    ensures
        final(store).ttl_nanos() == old(store).ttl_nanos(),
        !r.0.authenticated,
        r.0.username is None,
        r.1@ == session_clear_cookie(),
        final(store)@ == match named_token(opt_str_view(cookie_header)) {
            Some(token) => old(store)@.remove(token),
            None => old(store)@,
        },
{
    match cookie_header {
        Some(h) => match extract_session_cookie(h) {
            Some(token) => {
                let _ = store.invalidate_session(token.as_str());
            },
            None => {},
        },
        None => {},
    }
    (AuthStatusResponse { authenticated: false, username: None }, build_clear_cookie_value())
}

/// Admin pages: the user to run the request as, or `None` when the request
/// must be sent to the login page.
pub fn admin_user(store: &mut SessionStore, cookie_header: Option<&str>, now: u128) -> (r: Option<
    AuthUser,
>)
    ensures
        final(store).ttl_nanos() == old(store).ttl_nanos(),
        match r {
            Some(u) => authenticated_user(old(store)@, opt_str_view(cookie_header), now) == Some(
                u.username@,
            ),
            None => authenticated_user(old(store)@, opt_str_view(cookie_header), now) is None,
        },
        final(store)@ == after_authentication(old(store)@, opt_str_view(cookie_header), now),
{
    match authenticate(store, cookie_header, now) {
        Some(username) => Some(AuthUser { username }),
        None => None,
    }
}

/// Where an admin request without a session is sent.
pub fn login_redirect_target() -> (r: &'static str)
    ensures
        r == LOGIN,
{
    LOGIN
}

/// JSON endpoints: the logged-in user, or the "authentication required" error.
pub fn require_auth(store: &mut SessionStore, cookie_header: Option<&str>, now: u128) -> (r: Result<
    String,
    ApiError,
>)
    ensures
        final(store).ttl_nanos() == old(store).ttl_nanos(),
        match authenticated_user(old(store)@, opt_str_view(cookie_header), now) {
            Some(u) => r is Ok && r->Ok_0@ == u,
            None => r == Err::<String, ApiError>(ApiError::AuthenticationRequired),
        },
        final(store)@ == after_authentication(old(store)@, opt_str_view(cookie_header), now),
        r matches Err(e) ==> status_of(e) == 401,
{
    match authenticate(store, cookie_header, now) {
        Some(username) => Ok(username),
        None => Err(ApiError::AuthenticationRequired),
    }
}

/// What a login writes, a later request reads: the cookie handed out for a
/// session opened under a generated token authenticates its user at every
/// instant up to the session's expiry.
pub proof fn lemma_login_cookie_authenticates(
    m: Map<Seq<char>, SessionRecord>,
    token: Seq<char>,
    user: Seq<char>,
    expires_at: u128,
    later: u128,
)
    requires
        is_uuid_v4_text(token),
        later <= expires_at,
    ensures
        authenticated_user(
            m.insert(token, (user, expires_at)),
            Some(session_set_cookie(token)),
            later,
        ) == Some(user),
{
    lemma_uuid_text_is_cookie_safe(token);
    lemma_set_cookie_round_trip(token);
}

/// After logout, the cookie that named the session no longer authenticates.
pub proof fn lemma_logout_ends_session(
    m: Map<Seq<char>, SessionRecord>,
    cookie_header: Seq<char>,
    now: u128,
)
    requires
        named_token(Some(cookie_header)) is Some,
    ensures
        authenticated_user(
            m.remove(named_token(Some(cookie_header))->0),
            Some(cookie_header),
            now,
        ) is None,
{
}

/// The session cookie is found wherever it stands in the header: a request
/// whose `Cookie` header first names another cookie `name=value` and then
/// the session cookie is logged in as the session's user.
pub proof fn lemma_session_cookie_after_other_cookie(
    m: Map<Seq<char>, SessionRecord>,
    name: Seq<char>,
    value: Seq<char>,
    token: Seq<char>,
    user: Seq<char>,
    expires_at: u128,
    now: u128,
)
    requires
        name.len() > 0,
        !is_unicode_whitespace(name[0]),
        !name.contains(';'),
        !name.contains('='),
        name != "blog001_session"@,
        !value.contains(';'),
        value.len() > 0 ==> !is_unicode_whitespace(value.last()),
        !token.contains(';'),
        token.len() > 0 ==> !is_unicode_whitespace(token.last()),
        now <= expires_at,
    ensures
        authenticated_user(
            m.insert(token, (user, expires_at)),
            Some(name + "="@ + value + "; blog001_session="@ + token),
            now,
        ) == Some(user),
        named_token(Some(name + "="@ + value + "; blog001_session="@ + token)) == Some(token),
{
    header_names_token(name, value, token);
}

/// Logging out with such a header ends the session it names, however many
/// cookies come before it: afterwards the token is gone from the store and
/// the same header no longer authenticates.
pub proof fn lemma_logout_after_other_cookie(
    m: Map<Seq<char>, SessionRecord>,
    name: Seq<char>,
    value: Seq<char>,
    token: Seq<char>,
    now: u128,
)
    requires
        name.len() > 0,
        !is_unicode_whitespace(name[0]),
        !name.contains(';'),
        !name.contains('='),
        name != "blog001_session"@,
        !value.contains(';'),
        value.len() > 0 ==> !is_unicode_whitespace(value.last()),
        !token.contains(';'),
        token.len() > 0 ==> !is_unicode_whitespace(token.last()),
    ensures
        ({
            let h = name + "="@ + value + "; blog001_session="@ + token;
            let after = match named_token(Some(h)) {
                Some(t) => m.remove(t),
                None => m,
            };
            &&& !after.contains_key(token)
            &&& authenticated_user(after, Some(h), now) is None
        }),
{
    header_names_token(name, value, token);
}

/// A cookie of another name in front of the session cookie is passed over:
/// the request is logged in as whatever the rest of the header says.
pub proof fn lemma_other_cookie_ignored(
    m: Map<Seq<char>, SessionRecord>,
    name: Seq<char>,
    value: Seq<char>,
    rest: Seq<char>,
    now: u128,
)
    requires
        name.len() > 0,
        !is_unicode_whitespace(name[0]),
        !name.contains(';'),
        !name.contains('='),
        name != "blog001_session"@,
        !value.contains(';'),
        value.len() > 0 ==> !is_unicode_whitespace(value.last()),
    ensures
        authenticated_user(m, Some(name + "="@ + value + ";"@ + rest), now) == authenticated_user(
            m,
            Some(rest),
            now,
        ),
        after_authentication(m, Some(name + "="@ + value + ";"@ + rest), now)
            == after_authentication(m, Some(rest), now),
{
    reveal_strlit("=");
    reveal_strlit(";");
    reveal_strlit("blog001_session");
    assert("blog001_session"@ =~= session_cookie_name());
    let part = name.push('=') + value;
    assert(name + "="@ + value + ";"@ + rest =~= part.push(';') + rest);
    assert(!part.contains(';')) by {
        if part.contains(';') {
            let k = choose|k: int| 0 <= k < part.len() && part[k] == ';';
            if k < name.len() {
                assert(name[k] == ';');
                assert(name.contains(';'));
            } else if k > name.len() {
                assert(value[k - name.len() - 1] == ';');
                assert(value.contains(';'));
            }
        }
    }
    lemma_other_pair_not_session(name, value);
    lemma_other_cookie_skipped(part, rest);
}

proof fn header_names_token(name: Seq<char>, value: Seq<char>, token: Seq<char>)
    requires
        name.len() > 0,
        !is_unicode_whitespace(name[0]),
        !name.contains(';'),
        !name.contains('='),
        name != "blog001_session"@,
        !value.contains(';'),
        value.len() > 0 ==> !is_unicode_whitespace(value.last()),
        !token.contains(';'),
        token.len() > 0 ==> !is_unicode_whitespace(token.last()),
    ensures
        session_cookie_value(name + "="@ + value + "; blog001_session="@ + token) == Some(token),
{
    reveal_strlit("=");
    reveal_strlit("; blog001_session=");
    reveal_strlit("blog001_session");
    assert("blog001_session"@ =~= session_cookie_name());
    let part = name.push('=') + value;
    let lead = seq![' '];
    let rest = lead + session_cookie_name().push('=') + token;
    assert(name + "="@ + value + "; blog001_session="@ + token =~= part.push(';') + rest);
    assert(!part.contains(';')) by {
        if part.contains(';') {
            let k = choose|k: int| 0 <= k < part.len() && part[k] == ';';
            if k < name.len() {
                assert(name[k] == ';');
                assert(name.contains(';'));
            } else if k > name.len() {
                assert(value[k - name.len() - 1] == ';');
                assert(value.contains(';'));
            }
        }
    }
    lemma_other_pair_not_session(name, value);
    lemma_other_cookie_skipped(part, rest);
    assert forall|k: int| 0 <= k < lead.len() implies is_unicode_whitespace(#[trigger] lead[k]) by {}
    lemma_session_pair_value(lead, token);
}

} // verus!

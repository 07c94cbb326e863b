//! In-memory session store: maps random session tokens to the user who
//! logged in and the instant at which the session lapses.
//!
//! Instants and durations are counted in nanoseconds since the Unix epoch.

use vstd::prelude::*;
use vstd::hash_map::StringHashMap;

use crate::text::{is_unicode_whitespace, opt_string_view};

verus! {

/// The latest instant a system clock reading can stand for: `i64::MAX`
/// whole seconds after the epoch, plus the last nanosecond of that second.
pub const LATEST_INSTANT_NANOS: u128 = 9_223_372_036_854_775_807_999_999_999;

/// A lower-case hexadecimal digit.
pub open spec fn is_lower_hex(c: char) -> bool {
    ('0' <= c && c <= '9') || ('a' <= c && c <= 'f')
}

/// The hyphenated text form of a version-4 UUID, e.g.
/// `67e55044-10b1-426f-9247-bb680e5fe0c8`.
pub open spec fn is_uuid_v4_text(s: Seq<char>) -> bool {
    &&& s.len() == 36
    &&& forall|k: int|
        0 <= k < 36 ==> if k == 8 || k == 13 || k == 18 || k == 23 {
            #[trigger] s[k] == '-'
        } else {
            is_lower_hex(s[k])
        }
    &&& s[14] == '4'
    &&& (s[19] == '8' || s[19] == '9' || s[19] == 'a' || s[19] == 'b')
}

/// A fresh random token: `uuid::Uuid::new_v4()` in its `to_string` form.
/// The contract states the text shape that `Uuid`'s `Display` writes (the
/// hyphenated lower-case form, version digit `4`, variant digit `8`-`b`);
/// which token comes out is left open, being random. The call panics only
/// when the operating system's random source fails, which no argument
/// can rule out.
#[verifier::external_body]
fn new_session_token() -> (token: String)
    ensures
        is_uuid_v4_text(token@),
{
    uuid::Uuid::new_v4().to_string()
}

/// A token in UUID form holds no `;` and ends in a hex digit.
pub proof fn lemma_uuid_text_is_cookie_safe(s: Seq<char>)
    requires
        is_uuid_v4_text(s),
    ensures
        !s.contains(';'),
        !is_unicode_whitespace(s.last()),
{
    assert(is_lower_hex(s[35]));
    if s.contains(';') {
        let k = choose|k: int| 0 <= k < s.len() && s[k] == ';';
        assert(s[k] == '-' || is_lower_hex(s[k]));
    }
}

/// One live session.
pub struct SessionEntry {
    pub username: String,
    pub expires_at: u128,
}

/// Sessions by token, with the lifetime given to each new one.
pub struct SessionStore {
    sessions: StringHashMap<SessionEntry>,
    ttl: u128,
}

/// What a session store knows of one token: user name and expiry instant.
pub type SessionRecord = (Seq<char>, u128);

/// The record that a stored entry stands for.
pub open spec fn record_of(e: SessionEntry) -> SessionRecord {
    (e.username@, e.expires_at)
}

/// Whether a session with expiry `expires_at` still counts at instant `now`
/// (it does up to and including its expiry instant).
pub open spec fn is_live(expires_at: u128, now: u128) -> bool {
    now <= expires_at
}

/// What validating `token` at `now` answers, given the sessions `m`.
pub open spec fn validated_user(
    m: Map<Seq<char>, SessionRecord>,
    token: Seq<char>,
    now: u128,
) -> Option<Seq<char>> {
    if m.contains_key(token) && is_live(m[token].1, now) {
        Some(m[token].0)
    } else {
        None
    }
}

/// The sessions after validating `token` at `now`: an absent or lapsed token
/// is dropped, everything else stays.
pub open spec fn after_validation(
    m: Map<Seq<char>, SessionRecord>,
    token: Seq<char>,
    now: u128,
) -> Map<Seq<char>, SessionRecord> {
    if m.contains_key(token) && is_live(m[token].1, now) {
        m
    } else {
        m.remove(token)
    }
}

/// The expiry a session opened at `now` gets, if the clock can represent it.
pub open spec fn expiry_for(now: u128, ttl: u128) -> Option<u128> {
    if now + ttl <= LATEST_INSTANT_NANOS {
        Some((now + ttl) as u128)
    } else {
        None
    }
}

impl View for SessionStore {
    type V = Map<Seq<char>, SessionRecord>;

    closed spec fn view(&self) -> Map<Seq<char>, SessionRecord> {
        self.sessions@.map_values(|e: SessionEntry| record_of(e))
    }
}

impl SessionStore {
    /// Lifetime of new sessions, in nanoseconds.
    pub closed spec fn ttl_nanos(&self) -> u128 {
        self.ttl
    }

    /// An empty store whose sessions last `ttl` nanoseconds.
    pub fn new(ttl: u128) -> (s: Self)
        ensures
            s@ == Map::<Seq<char>, SessionRecord>::empty(),
            s.ttl_nanos() == ttl,
    {
        let s = SessionStore { sessions: StringHashMap::new(), ttl };
        assert(s@ =~= Map::<Seq<char>, SessionRecord>::empty());
        s
    }

    /// Opens a session for `username` under the given `token` at instant
    /// `now`. Fails, changing nothing, when the expiry instant lies beyond
    /// what the clock can represent.
    pub fn create_session_with_token(&mut self, token: String, username: String, now: u128) -> (r:
        Option<String>)
        ensures
            final(self).ttl_nanos() == old(self).ttl_nanos(),
            match expiry_for(now, old(self).ttl_nanos()) {
                Some(exp) => {
                    &&& r == Some(token)
                    &&& final(self)@ == old(self)@.insert(token@, (username@, exp))
                },
                None => r is None && final(self)@ == old(self)@,
            },
    {
        let expires_at = match now.checked_add(self.ttl) {
            Some(t) => t,
            None => return None,
        };
        if expires_at > LATEST_INSTANT_NANOS {
            return None;
        }
        let ghost before = self.sessions@;
        let key = token.clone();
        self.sessions.insert(key, SessionEntry { username, expires_at });
        proof {
            assert(self.sessions@.map_values(|e: SessionEntry| record_of(e)) =~= before.map_values(
                |e: SessionEntry| record_of(e),
            ).insert(token@, (username@, expires_at)));
        }
        Some(token)
    }

    /// Opens a session for `username` at instant `now` under a fresh random
    /// token, and returns the token; `None` when the expiry instant lies
    /// beyond what the clock can represent.
    pub fn create_session(&mut self, username: String, now: u128) -> (r: Option<String>)
        ensures
            final(self).ttl_nanos() == old(self).ttl_nanos(),
            match expiry_for(now, old(self).ttl_nanos()) {
                Some(exp) => exists|t: String|
                    {
                        &&& r == Some(t)
                        &&& is_uuid_v4_text(t@)
                        &&& final(self)@ == old(self)@.insert(t@, (username@, exp))
                    },
                None => r is None && final(self)@ == old(self)@,
            },
    {
        let token = new_session_token();
        self.create_session_with_token(token, username, now)
    }

    /// The user of the session `token` at instant `now`. A token that is
    /// unknown or whose session has lapsed gives `None`, and a lapsed
    /// session is dropped from the store.
    pub fn validate_session(&mut self, token: &str, now: u128) -> (r: Option<String>)
        ensures
            final(self).ttl_nanos() == old(self).ttl_nanos(),
            opt_string_view(r) == validated_user(old(self)@, token@, now),
            final(self)@ == after_validation(old(self)@, token@, now),
    {
        let ghost before = self.sessions@;
        let live = match self.sessions.get(token) {
            Some(entry) => if now <= entry.expires_at {
                Some(entry.username.clone())
            } else {
                None
            },
            None => None,
        };
        if live.is_none() {
            self.sessions.remove(token);
            proof {
                assert(self.sessions@.map_values(|e: SessionEntry| record_of(e)) =~= before.map_values(
                    |e: SessionEntry| record_of(e),
                ).remove(token@));
            }
        }
        live
    }

    /// Ends the session `token`; tells whether there was one.
    pub fn invalidate_session(&mut self, token: &str) -> (r: bool)
        ensures
            final(self).ttl_nanos() == old(self).ttl_nanos(),
            r == old(self)@.contains_key(token@),
            final(self)@ == old(self)@.remove(token@),
    {
        let ghost before = self.sessions@;
        let present = self.sessions.contains_key(token);
        self.sessions.remove(token);
        proof {
            assert(self.sessions@.map_values(|e: SessionEntry| record_of(e)) =~= before.map_values(
                |e: SessionEntry| record_of(e),
            ).remove(token@));
        }
        present
    }
}

/// A session opened at `now` is recognised, with the user it was opened
/// for, at every instant up to its expiry, and validating it changes
/// nothing.
pub proof fn lemma_session_round_trip(
    m: Map<Seq<char>, SessionRecord>,
    token: Seq<char>,
    user: Seq<char>,
    now: u128,
    ttl: u128,
    later: u128,
)
    requires
        expiry_for(now, ttl) is Some,
        later <= now + ttl,
    ensures
        ({
            let opened = m.insert(token, (user, expiry_for(now, ttl)->0));
            &&& validated_user(opened, token, later) == Some(user)
            &&& after_validation(opened, token, later) == opened
        }),
{
}

/// Past its expiry a session is refused, and validating it removes it.
pub proof fn lemma_lapsed_session_dropped(
    m: Map<Seq<char>, SessionRecord>,
    token: Seq<char>,
    now: u128,
)
    requires
        m.contains_key(token),
        m[token].1 < now,
    ensures
        validated_user(m, token, now) is None,
        !after_validation(m, token, now).contains_key(token),
        after_validation(m, token, now) == m.remove(token),
{
}

/// Once a session is ended, its token is refused at every instant.
pub proof fn lemma_invalidated_session_refused(
    m: Map<Seq<char>, SessionRecord>,
    token: Seq<char>,
    now: u128,
)
    ensures
        validated_user(m.remove(token), token, now) is None,
{
}

/// Validating one token never touches the session of another.
pub proof fn lemma_validation_keeps_others(
    m: Map<Seq<char>, SessionRecord>,
    token: Seq<char>,
    other: Seq<char>,
    now: u128,
)
    requires
        other != token,
    ensures
        after_validation(m, token, now).contains_key(other) == m.contains_key(other),
        m.contains_key(other) ==> after_validation(m, token, now)[other] == m[other],
{
}

/// A token is refused exactly when it is unknown or lapsed, and a refused
/// token is never in the store afterwards.
pub proof fn lemma_refused_token_is_gone(
    m: Map<Seq<char>, SessionRecord>,
    token: Seq<char>,
    now: u128,
)
    ensures
        validated_user(m, token, now) is None <==> !(m.contains_key(token) && is_live(
            m[token].1,
            now,
        )),
        validated_user(m, token, now) is None ==> !after_validation(m, token, now).contains_key(
            token,
        ),
{
}

} // verus!

//! The session cookie: reading it out of a `Cookie` request header and
//! writing the `Set-Cookie` values that open and close a session.

use vstd::prelude::*;

use crate::text::{trim_start, opt_string_view, is_unicode_whitespace, chars_of, find_char, first_index, lemma_first_index, range_equals, string_from_range, trim, trim_bounds};

verus! {

/// Name of the cookie that carries the session token.
pub const SESSION_COOKIE_NAME: &'static str = "blog001_session";

/// Lifetime announced to the browser for a fresh session cookie.
pub const SESSION_MAX_AGE_SECONDS: u64 = 86400;

/// The characters of [`SESSION_COOKIE_NAME`].
pub open spec fn session_cookie_name() -> Seq<char> {
    seq!['b', 'l', 'o', 'g', '0', '0', '1', '_', 's', 'e', 's', 's', 'i', 'o', 'n']
}

/// Attributes that follow the token in a session-opening `Set-Cookie` value.
pub open spec fn open_attributes() -> Seq<char> {
    "; HttpOnly; Path=/; Max-Age=86400; SameSite=Lax"@
}

/// Attributes of the `Set-Cookie` value that ends a session.
pub open spec fn close_attributes() -> Seq<char> {
    "; HttpOnly; Path=/; Max-Age=0; SameSite=Lax"@
}

/// The value of a `name=value` cookie pair (split at its first `=`) when the
/// name is the session cookie's name.
pub open spec fn session_value_of_pair(pair: Seq<char>) -> Option<Seq<char>> {
    let j = first_index(pair, '=');
    if j < pair.len() && pair.take(j as int) == session_cookie_name() {
        Some(pair.skip(j + 1int))
    } else {
        None
    }
}

/// The session token in a `Cookie` header: the header is split at `;`, each
/// part is trimmed, and the first part `name=value` whose name is the
/// session cookie's name gives the value.
pub open spec fn session_cookie_value(header: Seq<char>) -> Option<Seq<char>>
    decreases header.len(),
{
    let i = first_index(header, ';');
    match session_value_of_pair(trim(header.take(i as int))) {
        Some(v) => Some(v),
        None => if i < header.len() {
            proof {
                lemma_first_index(header, ';');
            }
            session_cookie_value(header.skip(i + 1int))
        } else {
            None
        },
    }
}

/// The `Set-Cookie` value that hands the browser the session token `id`.
pub open spec fn session_set_cookie(id: Seq<char>) -> Seq<char> {
    session_cookie_name().push('=') + id + open_attributes()
}

/// The `Set-Cookie` value that clears the session cookie.
pub open spec fn session_clear_cookie() -> Seq<char> {
    session_cookie_name().push('=') + close_attributes()
}

fn session_cookie_name_chars() -> (v: Vec<char>)
    ensures
        v@ == session_cookie_name(),
{
    let v = vec!['b', 'l', 'o', 'g', '0', '0', '1', '_', 's', 'e', 's', 's', 'i', 'o', 'n'];
    assert(v@ =~= session_cookie_name());
    v
}

/// Finds the session token in a `Cookie` request header.
pub fn extract_session_cookie(cookie_header: &str) -> (r: Option<String>)
    ensures
        opt_string_view(r) == session_cookie_value(cookie_header@),
{
    let h = chars_of(cookie_header);
    let name = session_cookie_name_chars();
    let n = h.len();
    let mut start: usize = 0;
    assert(h@.skip(0) =~= h@);
    loop
        invariant
            n == h.len(),
            h@ == cookie_header@,
            name@ == session_cookie_name(),
            start <= n,
            session_cookie_value(h@) == session_cookie_value(h@.skip(start as int)),
        decreases n - start,
    {
        let end = find_char(&h, start, n, ';');
        let (a, b) = trim_bounds(&h, start, end);
        let eq = find_char(&h, a, b, '=');
        let ghost rest = h@.skip(start as int);
        let ghost part = h@.subrange(a as int, b as int);
        proof {
            assert(rest =~= h@.subrange(start as int, n as int));
            assert(rest.take(end - start) =~= h@.subrange(start as int, end as int));
            assert(part.take(eq - a) =~= h@.subrange(a as int, eq as int));
            if eq < b {
                assert(part.skip(eq - a + 1) =~= h@.subrange(eq + 1, b as int));
            }
        }
        if eq < b && range_equals(&h, a, eq, &name) {
            return Some(string_from_range(&h, eq + 1, b));
        }
        if end == n {
            return None;
        }
        proof {
            assert(rest.skip(end - start + 1) =~= h@.skip(end + 1));
        }
        start = end + 1;
    }
}

/// The `Set-Cookie` value that opens a session with token `session_id`.
pub fn build_set_cookie_value(session_id: &str) -> (r: String)
    ensures
        r@ == session_set_cookie(session_id@),
{
    let mut r = "blog001_session=".to_owned();
    r.append(session_id);
    r.append("; HttpOnly; Path=/; Max-Age=86400; SameSite=Lax");
    proof {
        reveal_strlit("blog001_session=");
        assert("blog001_session="@ =~= session_cookie_name().push('='));
    }
    r
}

/// The `Set-Cookie` value that ends the session on the browser's side.
pub fn build_clear_cookie_value() -> (r: String)
    ensures
        r@ == session_clear_cookie(),
{
    let mut r = "blog001_session=".to_owned();
    r.append("; HttpOnly; Path=/; Max-Age=0; SameSite=Lax");
    proof {
        reveal_strlit("blog001_session=");
        assert("blog001_session="@ =~= session_cookie_name().push('='));
    }
    r
}

/// A sequence that neither starts nor ends with whitespace is its own trim.
pub proof fn lemma_trim_unchanged(s: Seq<char>)
    requires
        s.len() > 0 ==> !is_unicode_whitespace(s[0]) && !is_unicode_whitespace(s.last()),
    ensures
        trim(s) == s,
{
}

/// Reading a session-opening `Set-Cookie` value back as a `Cookie` header
/// gives the token that was written into it, for every token that holds no
/// `;` and does not end in whitespace (as every generated token does).
pub proof fn lemma_set_cookie_round_trip(id: Seq<char>)
    requires
        !id.contains(';'),
        id.len() > 0 ==> !is_unicode_whitespace(id.last()),
    ensures
        session_cookie_value(session_set_cookie(id)) == Some(id),
{
    reveal_strlit("; HttpOnly; Path=/; Max-Age=86400; SameSite=Lax");
    let name = session_cookie_name();
    let pair = name.push('=') + id;
    let h = session_set_cookie(id);
    let p = pair.len() as int;
    assert(h =~= pair + open_attributes());
    assert(h[p] == ';');
    assert forall|k: int| 0 <= k < p implies h[k] != ';' by {
        assert(h[k] == pair[k]);
        if k >= 16 {
            assert(pair[k] == id[k - 16]);
            if id[k - 16] == ';' {
                assert(id.contains(';'));
            }
        }
    }
    lemma_first_index(h, ';');
    assert(first_index(h, ';') == p);
    assert(h.take(p) =~= pair);
    lemma_trim_unchanged(pair);
    assert(pair[15] == '=');
    assert forall|k: int| 0 <= k < 15 implies pair[k] != '=' by {}
    lemma_first_index(pair, '=');
    assert(first_index(pair, '=') == 15);
    assert(pair.take(15) =~= name);
    assert(pair.skip(16) =~= id);
}

/// Cookies that are not the session cookie do not disturb the lookup: a
/// part in front that names another cookie is passed over.
pub proof fn lemma_other_cookie_skipped(part: Seq<char>, rest: Seq<char>)
    requires
        !part.contains(';'),
        session_value_of_pair(trim(part)) is None,
    ensures
        session_cookie_value(part.push(';') + rest) == session_cookie_value(rest),
{
    let h = part.push(';') + rest;
    let p = part.len() as int;
    assert(h[p] == ';');
    assert forall|k: int| 0 <= k < p implies h[k] != ';' by {
        assert(h[k] == part[k]);
        if part[k] == ';' {
            assert(part.contains(';'));
        }
    }
    lemma_first_index(h, ';');
    assert(first_index(h, ';') == p);
    assert(h.take(p) =~= part);
    assert(h.skip(p + 1) =~= rest);
}

/// Leading whitespace does not change the trimmed form.
pub proof fn lemma_trim_start_skips_whitespace(lead: Seq<char>, x: Seq<char>)
    requires
        forall|k: int| 0 <= k < lead.len() ==> is_unicode_whitespace(#[trigger] lead[k]),
    ensures
        trim_start(lead + x) == trim_start(x),
    decreases lead.len(),
{
    if lead.len() > 0 {
        let rest = lead.drop_first();
        assert forall|k: int| 0 <= k < rest.len() implies is_unicode_whitespace(#[trigger] rest[k]) by {
            assert(rest[k] == lead[k + 1]);
        }
        lemma_trim_start_skips_whitespace(rest, x);
        assert((lead + x)[0] == lead[0]);
        assert((lead + x).drop_first() =~= rest + x);
    } else {
        assert(lead + x =~= x);
    }
}

/// A lone session pair, after any leading whitespace, gives its token.
pub proof fn lemma_session_pair_value(lead: Seq<char>, token: Seq<char>)
    requires
        forall|k: int| 0 <= k < lead.len() ==> is_unicode_whitespace(#[trigger] lead[k]),
        !token.contains(';'),
        token.len() > 0 ==> !is_unicode_whitespace(token.last()),
    ensures
        session_cookie_value(lead + session_cookie_name().push('=') + token) == Some(token),
{
    let name = session_cookie_name();
    let pair = name.push('=') + token;
    let h = lead + pair;
    assert(lead + name.push('=') + token =~= h);
    assert(!h.contains(';')) by {
        if h.contains(';') {
            let k = choose|k: int| 0 <= k < h.len() && h[k] == ';';
            if k < lead.len() {
                assert(is_unicode_whitespace(lead[k]));
            } else if k - lead.len() >= 16 {
                assert(h[k] == token[k - lead.len() - 16]);
                assert(token.contains(';'));
            } else {
                assert(h[k] == pair[k - lead.len()]);
            }
        }
    }
    lemma_first_index(h, ';');
    assert(h.take(h.len() as int) =~= h);
    lemma_trim_start_skips_whitespace(lead, pair);
    lemma_trim_unchanged(pair);
    assert(trim_start(pair) == pair);
    assert(pair[15] == '=');
    assert forall|k: int| 0 <= k < 15 implies pair[k] != '=' by {}
    lemma_first_index(pair, '=');
    assert(first_index(pair, '=') == 15);
    assert(pair.take(15) =~= name);
    assert(pair.skip(16) =~= token);
}

/// When the session cookie is given more than once, the first one counts:
/// whatever follows a leading session pair is not read.
pub proof fn lemma_first_session_cookie_wins(token: Seq<char>, rest: Seq<char>)
    requires
        !token.contains(';'),
        token.len() > 0 ==> !is_unicode_whitespace(token.last()),
    ensures
        session_cookie_value(session_cookie_name().push('=') + token + ";"@ + rest) == Some(
            token,
        ),
{
    let name = session_cookie_name();
    let pair = name.push('=') + token;
    let h = pair + ";"@ + rest;
    let p = pair.len() as int;
    reveal_strlit(";");
    assert(name.push('=') + token + ";"@ + rest =~= h);
    assert(h[p] == ';');
    assert forall|k: int| 0 <= k < p implies h[k] != ';' by {
        assert(h[k] == pair[k]);
        if k >= 16 {
            assert(pair[k] == token[k - 16]);
            if token[k - 16] == ';' {
                assert(token.contains(';'));
            }
        }
    }
    lemma_first_index(h, ';');
    assert(first_index(h, ';') == p);
    assert(h.take(p) =~= pair);
    lemma_trim_unchanged(pair);
    assert(pair[15] == '=');
    assert forall|k: int| 0 <= k < 15 implies pair[k] != '=' by {}
    lemma_first_index(pair, '=');
    assert(first_index(pair, '=') == 15);
    assert(pair.take(15) =~= name);
    assert(pair.skip(16) =~= token);
}

/// A pair `name=value` whose name is some other cookie's is no session pair.
pub proof fn lemma_other_pair_not_session(name: Seq<char>, value: Seq<char>)
    requires
        name.len() > 0,
        !is_unicode_whitespace(name[0]),
        !name.contains('='),
        name != session_cookie_name(),
        value.len() > 0 ==> !is_unicode_whitespace(value.last()),
    ensures
        session_value_of_pair(trim(name.push('=') + value)) is None,
{
    let pair = name.push('=') + value;
    lemma_trim_unchanged(pair);
    let j = name.len() as int;
    assert(pair[j] == '=');
    assert forall|k: int| 0 <= k < j implies pair[k] != '=' by {
        assert(pair[k] == name[k]);
        if name[k] == '=' {
            assert(name.contains('='));
        }
    }
    lemma_first_index(pair, '=');
    assert(first_index(pair, '=') == j);
    assert(pair.take(j) =~= name);
}

} // verus!

//! URL slugs for tags: lower-case ASCII letters and digits, with single
//! dashes between words.

use vstd::prelude::*;

use crate::text::{ascii_lower, ascii_lower_char, ascii_lowercase, chars_of, string_from_range};

verus! {

/// `char::is_ascii_alphanumeric`.
pub open spec fn is_ascii_alnum(c: char) -> bool {
    ('a' <= c && c <= 'z') || ('A' <= c && c <= 'Z') || ('0' <= c && c <= '9')
}

/// `char::is_ascii_whitespace`: space, tab, line feed, form feed, carriage return.
pub open spec fn is_ascii_space(c: char) -> bool {
    c == ' ' || c == '\t' || c == '\n' || c == '\u{c}' || c == '\r'
}

/// Characters that turn into a word separator.
pub open spec fn is_separator(c: char) -> bool {
    is_ascii_space(c) || c == '-' || c == '_'
}

/// One step of slug building: letters and digits are kept in lower case, a
/// separator adds a dash unless the output already ends in one, and every
/// other character is dropped.
pub open spec fn slug_step(out: Seq<char>, c: char) -> Seq<char> {
    if is_ascii_alnum(c) {
        out.push(ascii_lower(c))
    } else if is_separator(c) && !(out.len() > 0 && out.last() == '-') {
        out.push('-')
    } else {
        out
    }
}

/// The slug of `s` before its outer dashes are removed.
pub open spec fn slug_draft(s: Seq<char>) -> Seq<char>
    decreases s.len(),
{
    if s.len() == 0 {
        Seq::empty()
    } else {
        slug_step(slug_draft(s.drop_last()), s.last())
    }
}

/// `s` without its leading dashes.
pub open spec fn trim_start_dashes(s: Seq<char>) -> Seq<char>
    decreases s.len(),
{
    if s.len() > 0 && s[0] == '-' {
        trim_start_dashes(s.drop_first())
    } else {
        s
    }
}

/// `s` without its trailing dashes.
pub open spec fn trim_end_dashes(s: Seq<char>) -> Seq<char>
    decreases s.len(),
{
    if s.len() > 0 && s.last() == '-' {
        trim_end_dashes(s.drop_last())
    } else {
        s
    }
}

/// The slug of `s`: its draft with the dashes at both ends removed.
pub open spec fn slug_of(s: Seq<char>) -> Seq<char> {
    trim_end_dashes(trim_start_dashes(slug_draft(s)))
}

/// The shape of every slug: only `a-z`, `0-9` and `-`, no dash at either
/// end and never two dashes in a row.
pub open spec fn is_slug_shaped(t: Seq<char>) -> bool {
    &&& forall|k: int| 0 <= k < t.len() ==> is_slug_char(#[trigger] t[k])
    &&& forall|k: int| 0 <= k < t.len() - 1 ==> !(#[trigger] t[k] == '-' && t[k + 1] == '-')
    &&& t.len() > 0 ==> t[0] != '-' && t.last() != '-'
}

/// A character that may appear in a slug.
pub open spec fn is_slug_char(c: char) -> bool {
    ('a' <= c && c <= 'z') || ('0' <= c && c <= '9') || c == '-'
}

fn is_ascii_alnum_exec(c: char) -> (r: bool)
    ensures
        r == is_ascii_alnum(c),
{
    ('a' <= c && c <= 'z') || ('A' <= c && c <= 'Z') || ('0' <= c && c <= '9')
}

fn is_separator_exec(c: char) -> (r: bool)
    ensures
        r == is_separator(c),
{
    c == ' ' || c == '\t' || c == '\n' || c == '\u{c}' || c == '\r' || c == '-' || c == '_'
}

/// Turns free text into a slug (see [`slug_of`]).
pub fn slugify(input: &str) -> (r: String)
    ensures
        r@ == slug_of(input@),
{
    let chars = chars_of(input);
    let mut out: Vec<char> = Vec::new();
    let mut i: usize = 0;
    while i < chars.len()
        invariant
            i <= chars.len(),
            chars@ == input@,
            out@ == slug_draft(chars@.take(i as int)),
        decreases chars.len() - i,
    {
        let ch = chars[i];
        if is_ascii_alnum_exec(ch) {
            out.push(ascii_lower_char(ch));
        } else if is_separator_exec(ch) && !(out.len() > 0 && out[out.len() - 1] == '-') {
            out.push('-');
        }
        assert(chars@.take(i + 1).drop_last() =~= chars@.take(i as int));
        i = i + 1;
    }
    assert(chars@.take(i as int) =~= input@);
    assert(out@ == slug_draft(input@));
    let n = out.len();
    let mut a: usize = 0;
    assert(out@.subrange(0, n as int) =~= out@);
    while a < n && out[a] == '-'
        invariant
            a <= n == out.len(),
            trim_start_dashes(out@) == trim_start_dashes(out@.subrange(a as int, n as int)),
        decreases n - a,
    {
        assert(out@.subrange(a as int, n as int).drop_first() =~= out@.subrange(a + 1, n as int));
        a = a + 1;
    }
    assert(trim_start_dashes(out@.subrange(a as int, n as int)) == out@.subrange(a as int, n as int));
    let mut b = n;
    while b > a && out[b - 1] == '-'
        invariant
            a <= b <= n == out.len(),
            trim_end_dashes(out@.subrange(a as int, n as int)) == trim_end_dashes(
                out@.subrange(a as int, b as int),
            ),
        decreases b,
    {
        assert(out@.subrange(a as int, b as int).drop_last() =~= out@.subrange(a as int, b - 1));
        b = b - 1;
    }
    assert(trim_end_dashes(out@.subrange(a as int, b as int)) == out@.subrange(a as int, b as int));
    string_from_range(&out, a, b)
}

/// Every draft uses only slug characters and never holds two dashes in a row.
pub proof fn lemma_draft_shape(s: Seq<char>)
    ensures
        forall|k: int| 0 <= k < slug_draft(s).len() ==> is_slug_char(#[trigger] slug_draft(s)[k]),
        forall|k: int|
            0 <= k < slug_draft(s).len() - 1 ==> !(#[trigger] slug_draft(s)[k] == '-'
                && slug_draft(s)[k + 1] == '-'),
    decreases s.len(),
{
    if s.len() > 0 {
        lemma_draft_shape(s.drop_last());
        let prev = slug_draft(s.drop_last());
        let d = slug_draft(s);
        assert forall|k: int| 0 <= k < d.len() implies is_slug_char(#[trigger] d[k]) by {
            if k < prev.len() {
                assert(d[k] == prev[k]);
            }
        }
        assert forall|k: int| 0 <= k < d.len() - 1 implies !(#[trigger] d[k] == '-' && d[k + 1]
            == '-') by {
            if k + 1 < prev.len() {
                assert(d[k] == prev[k] && d[k + 1] == prev[k + 1]);
            } else if k + 1 == prev.len() && d.len() > prev.len() {
                assert(d[k] == prev.last());
            }
        }
    }
}

/// Removing leading dashes keeps a suffix that does not start with a dash.
pub proof fn lemma_trim_start_dashes(s: Seq<char>) -> (k: int)
    ensures
        0 <= k <= s.len(),
        trim_start_dashes(s) == s.skip(k),
        trim_start_dashes(s).len() > 0 ==> trim_start_dashes(s)[0] != '-',
    decreases s.len(),
{
    if s.len() > 0 && s[0] == '-' {
        let k = lemma_trim_start_dashes(s.drop_first());
        assert(s.drop_first().skip(k) =~= s.skip(k + 1));
        k + 1
    } else {
        assert(s.skip(0) =~= s);
        0
    }
}

/// Removing trailing dashes keeps a prefix that does not end with a dash.
pub proof fn lemma_trim_end_dashes(s: Seq<char>) -> (m: int)
    ensures
        0 <= m <= s.len(),
        trim_end_dashes(s) == s.take(m),
        trim_end_dashes(s).len() > 0 ==> trim_end_dashes(s).last() != '-',
    decreases s.len(),
{
    if s.len() > 0 && s.last() == '-' {
        let m = lemma_trim_end_dashes(s.drop_last());
        assert(s.drop_last().take(m) =~= s.take(m));
        m
    } else {
        assert(s.take(s.len() as int) =~= s);
        s.len() as int
    }
}

/// Every slug has the slug shape.
pub proof fn lemma_slug_shaped(s: Seq<char>)
    ensures
        is_slug_shaped(slug_of(s)),
{
    let d = slug_draft(s);
    lemma_draft_shape(s);
    let k = lemma_trim_start_dashes(d);
    let u = trim_start_dashes(d);
    let m = lemma_trim_end_dashes(u);
    let t = slug_of(s);
    assert forall|j: int| 0 <= j < t.len() implies is_slug_char(#[trigger] t[j]) by {
        assert(t[j] == d[j + k]);
    }
    assert forall|j: int| 0 <= j < t.len() - 1 implies !(#[trigger] t[j] == '-' && t[j + 1]
        == '-') by {
        assert(t[j] == d[j + k] && t[j + 1] == d[j + 1 + k]);
    }
    if t.len() > 0 {
        assert(t[0] == u[0]);
    }
}

/// A slug-shaped text is its own draft.
proof fn lemma_shaped_draft_prefix(t: Seq<char>, i: int)
    requires
        is_slug_shaped(t),
        0 <= i <= t.len(),
    ensures
        slug_draft(t.take(i)) == t.take(i),
    decreases i,
{
    if i > 0 {
        lemma_shaped_draft_prefix(t, i - 1);
        assert(t.take(i).drop_last() =~= t.take(i - 1));
        let c = t[i - 1];
        assert(is_slug_char(c));
        if c == '-' {
            assert(i - 1 > 0);
            assert(t[i - 2] != '-');
        }
        assert(t.take(i - 1).push(c) =~= t.take(i));
    }
}

/// A slug-shaped text is its own slug.
pub proof fn lemma_slug_of_shaped(t: Seq<char>)
    requires
        is_slug_shaped(t),
    ensures
        slug_of(t) == t,
{
    lemma_shaped_draft_prefix(t, t.len() as int);
    assert(t.take(t.len() as int) =~= t);
}

/// Slugifying a slug changes nothing: `slugify(slugify(s)) == slugify(s)`.
pub proof fn lemma_slug_idempotent(s: Seq<char>)
    ensures
        slug_of(slug_of(s)) == slug_of(s),
{
    lemma_slug_shaped(s);
    lemma_slug_of_shaped(slug_of(s));
}

/// One draft step does not see the case of an ASCII letter.
proof fn lemma_step_case_blind(out: Seq<char>, c: char)
    ensures
        slug_step(out, c) == slug_step(out, ascii_lower(c)),
{
}

/// The draft does not see ASCII case.
proof fn lemma_draft_case_blind(s: Seq<char>)
    ensures
        slug_draft(s) == slug_draft(ascii_lowercase(s)),
    decreases s.len(),
{
    if s.len() > 0 {
        lemma_draft_case_blind(s.drop_last());
        assert(ascii_lowercase(s).drop_last() =~= ascii_lowercase(s.drop_last()));
        assert(ascii_lowercase(s).last() == ascii_lower(s.last()));
        lemma_step_case_blind(slug_draft(s.drop_last()), s.last());
    }
}

/// Slugs are blind to ASCII case: upper- and lower-case spellings of a
/// name give the same slug (`slugify(s) == slugify(&s.to_ascii_lowercase())`).
pub proof fn lemma_slug_case_blind(s: Seq<char>)
    ensures
        slug_of(s) == slug_of(ascii_lowercase(s)),
{
    lemma_draft_case_blind(s);
}

/// Without whitespace, `-` or `_` in the draft's input, no dash is written.
proof fn lemma_draft_without_separators(s: Seq<char>)
    requires
        forall|k: int| 0 <= k < s.len() ==> !is_separator(#[trigger] s[k]),
    ensures
        !slug_draft(s).contains('-'),
    decreases s.len(),
{
    if s.len() > 0 {
        let prev = s.drop_last();
        assert forall|k: int| 0 <= k < prev.len() implies !is_separator(#[trigger] prev[k]) by {
            assert(prev[k] == s[k]);
        }
        lemma_draft_without_separators(prev);
        assert(!is_separator(s[s.len() - 1]));
        let d = slug_draft(s);
        let pd = slug_draft(prev);
        if d.contains('-') {
            let k = choose|k: int| 0 <= k < d.len() && d[k] == '-';
            if k < pd.len() {
                assert(pd[k] == '-');
                assert(pd.contains('-'));
            }
        }
    }
}

/// A dash enters a slug only from whitespace, `-` or `_` in the input: a
/// text without any of them has a slug without dashes (so `slugify("HTML")`
/// is `html`).
pub proof fn lemma_slug_dashes_need_separators(s: Seq<char>)
    requires
        forall|k: int| 0 <= k < s.len() ==> !is_separator(#[trigger] s[k]),
    ensures
        !slug_of(s).contains('-'),
{
    lemma_draft_without_separators(s);
    let d = slug_draft(s);
    let k = lemma_trim_start_dashes(d);
    let u = trim_start_dashes(d);
    let m = lemma_trim_end_dashes(u);
    let t = slug_of(s);
    if t.contains('-') {
        let j = choose|j: int| 0 <= j < t.len() && t[j] == '-';
        assert(t[j] == d[j + k]);
        assert(d.contains('-'));
    }
}

/// Every letter and digit of the input appears in the slug, lower-cased and
/// in order; everything else in the slug is a dash. Stated as: the slug with
/// its dashes removed is the input's letters and digits, lower-cased.
pub open spec fn kept_chars(s: Seq<char>) -> Seq<char>
    decreases s.len(),
{
    if s.len() == 0 {
        Seq::empty()
    } else if is_ascii_alnum(s.last()) {
        kept_chars(s.drop_last()).push(ascii_lower(s.last()))
    } else {
        kept_chars(s.drop_last())
    }
}

/// The non-dash characters of `t`, in order.
pub open spec fn without_dashes(t: Seq<char>) -> Seq<char>
    decreases t.len(),
{
    if t.len() == 0 {
        Seq::empty()
    } else if t.last() == '-' {
        without_dashes(t.drop_last())
    } else {
        without_dashes(t.drop_last()).push(t.last())
    }
}

proof fn lemma_without_dashes_push_dash(t: Seq<char>)
    ensures
        without_dashes(t.push('-')) == without_dashes(t),
{
    assert(t.push('-').drop_last() =~= t);
}

proof fn lemma_draft_keeps_alnum(s: Seq<char>)
    ensures
        without_dashes(slug_draft(s)) == kept_chars(s),
    decreases s.len(),
{
    if s.len() > 0 {
        lemma_draft_keeps_alnum(s.drop_last());
        let prev = slug_draft(s.drop_last());
        let c = s.last();
        if is_ascii_alnum(c) {
            assert(prev.push(ascii_lower(c)).drop_last() =~= prev);
        } else if is_separator(c) && !(prev.len() > 0 && prev.last() == '-') {
            lemma_without_dashes_push_dash(prev);
        }
    }
}

proof fn lemma_without_dashes_drop_leading(t: Seq<char>)
    requires
        t.len() > 0,
        t[0] == '-',
    ensures
        without_dashes(t) == without_dashes(t.drop_first()),
    decreases t.len(),
{
    if t.len() > 1 {
        lemma_without_dashes_drop_leading(t.drop_last());
        assert(t.drop_last().drop_first() =~= t.drop_first().drop_last());
    } else {
        assert(t.drop_first() =~= Seq::<char>::empty());
        assert(t.drop_last() =~= Seq::<char>::empty());
    }
}

proof fn lemma_without_dashes_trim_start(t: Seq<char>)
    ensures
        without_dashes(trim_start_dashes(t)) == without_dashes(t),
    decreases t.len(),
{
    if t.len() > 0 && t[0] == '-' {
        lemma_without_dashes_drop_leading(t);
        lemma_without_dashes_trim_start(t.drop_first());
    }
}

proof fn lemma_without_dashes_trim_end(t: Seq<char>)
    ensures
        without_dashes(trim_end_dashes(t)) == without_dashes(t),
    decreases t.len(),
{
    if t.len() > 0 && t.last() == '-' {
        lemma_without_dashes_trim_end(t.drop_last());
    }
}

/// The slug keeps exactly the input's ASCII letters and digits, lower-cased
/// and in order; every other slug character is a dash.
pub proof fn lemma_slug_keeps_alnum(s: Seq<char>)
    ensures
        without_dashes(slug_of(s)) == kept_chars(s),
{
    lemma_draft_keeps_alnum(s);
    lemma_without_dashes_trim_start(slug_draft(s));
    lemma_without_dashes_trim_end(trim_start_dashes(slug_draft(s)));
}

} // verus!

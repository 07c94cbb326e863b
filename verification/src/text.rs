//! Character classes and string helpers shared by the cookie parser and the
//! slug generator.

use vstd::prelude::*;

verus! {

/// Unicode `White_Space`, the set that `char::is_whitespace` tests.
pub open spec fn is_unicode_whitespace(c: char) -> bool {
    ||| c == ' '
    ||| ('\u{9}' <= c && c <= '\u{d}')
    ||| c == '\u{85}'
    ||| c == '\u{a0}'
    ||| c == '\u{1680}'
    ||| ('\u{2000}' <= c && c <= '\u{200a}')
    ||| c == '\u{2028}'
    ||| c == '\u{2029}'
    ||| c == '\u{202f}'
    ||| c == '\u{205f}'
    ||| c == '\u{3000}'
}

/// Same test as `char::is_whitespace`.
pub fn is_whitespace(c: char) -> (r: bool)
    ensures
        r == is_unicode_whitespace(c),
{
    c == ' ' || ('\u{9}' <= c && c <= '\u{d}') || c == '\u{85}' || c == '\u{a0}'
        || c == '\u{1680}' || ('\u{2000}' <= c && c <= '\u{200a}') || c == '\u{2028}'
        || c == '\u{2029}' || c == '\u{202f}' || c == '\u{205f}' || c == '\u{3000}'
}

/// The characters of `s`, in order.
pub fn chars_of(s: &str) -> (v: Vec<char>)
    ensures
        v@ == s@,
{
    let mut v: Vec<char> = Vec::new();
    for c in it: s.chars()
        invariant
            v@ == it.seq().take(it.index() as int),
    {
        v.push(c);
    }
    v
}


/// `s` without its leading Unicode whitespace.
pub open spec fn trim_start(s: Seq<char>) -> Seq<char>
    decreases s.len(),
{
    if s.len() > 0 && is_unicode_whitespace(s[0]) {
        trim_start(s.drop_first())
    } else {
        s
    }
}

/// `s` without its trailing Unicode whitespace.
pub open spec fn trim_end(s: Seq<char>) -> Seq<char>
    decreases s.len(),
{
    if s.len() > 0 && is_unicode_whitespace(s.last()) {
        trim_end(s.drop_last())
    } else {
        s
    }
}

/// `s` without leading and trailing whitespace, as `str::trim` gives it.
pub open spec fn trim(s: Seq<char>) -> Seq<char> {
    trim_end(trim_start(s))
}

/// Position of the first `c` in `s`, or `s.len()` when there is none.
pub open spec fn first_index(s: Seq<char>, c: char) -> nat
    decreases s.len(),
{
    if s.len() == 0 {
        0
    } else if s[0] == c {
        0
    } else {
        1 + first_index(s.drop_first(), c)
    }
}

pub proof fn lemma_first_index(s: Seq<char>, c: char)
    ensures
        first_index(s, c) <= s.len(),
        first_index(s, c) < s.len() ==> s[first_index(s, c) as int] == c,
        forall|k: int| 0 <= k < first_index(s, c) ==> s[k] != c,
        !s.contains(c) <==> first_index(s, c) == s.len(),
    decreases s.len(),
{
    if s.len() > 0 && s[0] != c {
        lemma_first_index(s.drop_first(), c);
        assert forall|k: int| 0 <= k < first_index(s, c) implies s[k] != c by {
            if k > 0 {
                assert(s[k] == s.drop_first()[k - 1]);
            }
        }
        if !s.contains(c) {
            assert(!s.drop_first().contains(c)) by {
                if s.drop_first().contains(c) {
                    let k = choose|k: int| 0 <= k < s.drop_first().len() && s.drop_first()[k] == c;
                    assert(s[k + 1] == c);
                }
            }
        }
        if first_index(s, c) == s.len() {
            assert(!s.contains(c)) by {
                if s.contains(c) {
                    let k = choose|k: int| 0 <= k < s.len() && s[k] == c;
                    assert(s[k] != c);
                }
            }
        }
    } else if s.len() > 0 {
        assert(s.contains(c)) by {
            assert(s[0] == c);
        }
    }
}

/// Index of the first `c` in `v[from..to]`, or `to` when there is none.
pub fn find_char(v: &Vec<char>, from: usize, to: usize, c: char) -> (r: usize)
    requires
        from <= to <= v.len(),
    ensures
        from <= r <= to,
        r - from == first_index(v@.subrange(from as int, to as int), c),
{
    let mut i = from;
    while i < to
        invariant
            from <= i <= to <= v.len(),
            first_index(v@.subrange(from as int, to as int), c) == (i - from) + first_index(
                v@.subrange(i as int, to as int),
                c,
            ),
        decreases to - i,
    {
        if v[i] == c {
            return i;
        }
        assert(v@.subrange(i as int, to as int).drop_first() =~= v@.subrange(
            i + 1,
            to as int,
        ));
        i = i + 1;
    }
    i
}

pub proof fn lemma_trim_start_step(v: Seq<char>, i: int, to: int)
    requires
        0 <= i < to <= v.len(),
        is_unicode_whitespace(v[i]),
    ensures
        trim_start(v.subrange(i, to)) == trim_start(v.subrange(i + 1, to)),
{
    assert(v.subrange(i, to).drop_first() =~= v.subrange(i + 1, to));
}

pub proof fn lemma_trim_end_step(v: Seq<char>, from: int, j: int)
    requires
        0 <= from < j <= v.len(),
        is_unicode_whitespace(v[j - 1]),
    ensures
        trim_end(v.subrange(from, j)) == trim_end(v.subrange(from, j - 1)),
{
    assert(v.subrange(from, j).drop_last() =~= v.subrange(from, j - 1));
}

/// Bounds `(a, b)` of the trimmed form of `v[from..to]`.
pub fn trim_bounds(v: &Vec<char>, from: usize, to: usize) -> (r: (usize, usize))
    requires
        from <= to <= v.len(),
    ensures
        from <= r.0 <= r.1 <= to,
        v@.subrange(r.0 as int, r.1 as int) == trim(v@.subrange(from as int, to as int)),
{
    let mut a = from;
    while a < to && is_whitespace(v[a])
        invariant
            from <= a <= to <= v.len(),
            trim_start(v@.subrange(from as int, to as int)) == trim_start(
                v@.subrange(a as int, to as int),
            ),
        decreases to - a,
    {
        proof {
            lemma_trim_start_step(v@, a as int, to as int);
        }
        a = a + 1;
    }
    assert(trim_start(v@.subrange(a as int, to as int)) == v@.subrange(a as int, to as int));
    let mut b = to;
    while b > a && is_whitespace(v[b - 1])
        invariant
            from <= a <= b <= to <= v.len(),
            trim_end(v@.subrange(a as int, to as int)) == trim_end(
                v@.subrange(a as int, b as int),
            ),
        decreases b,
    {
        proof {
            lemma_trim_end_step(v@, a as int, b as int);
        }
        b = b - 1;
    }
    assert(trim_end(v@.subrange(a as int, b as int)) == v@.subrange(a as int, b as int));
    (a, b)
}

/// `String::push`: the contract claims that the string afterwards is the
/// old one with `c` added at the end, as std documents.
#[verifier::external_body]
pub(crate) fn push_char(s: &mut String, c: char)
    ensures
        final(s)@ == old(s)@.push(c),
{
    s.push(c);
}

/// The string made of `v[from..to]`.
pub fn string_from_range(v: &Vec<char>, from: usize, to: usize) -> (s: String)
    requires
        from <= to <= v.len(),
    ensures
        s@ == v@.subrange(from as int, to as int),
{
    let mut s = String::new();
    let mut i = from;
    while i < to
        invariant
            from <= i <= to <= v.len(),
            s@ == v@.subrange(from as int, i as int),
        decreases to - i,
    {
        push_char(&mut s, v[i]);
        assert(v@.subrange(from as int, i + 1) =~= v@.subrange(from as int, i as int).push(v@[i as int]));
        i = i + 1;
    }
    s
}

/// Whether `v[from..to]` spells exactly `w`.
pub fn range_equals(v: &Vec<char>, from: usize, to: usize, w: &Vec<char>) -> (r: bool)
    requires
        from <= to <= v.len(),
    ensures
        r == (v@.subrange(from as int, to as int) == w@),
{
    if to - from != w.len() {
        return false;
    }
    let mut k: usize = 0;
    while k < w.len()
        invariant
            from <= to <= v.len(),
            to - from == w.len(),
            0 <= k <= w.len(),
            forall|t: int| 0 <= t < k ==> v@[from + t] == w@[t],
        decreases w.len() - k,
    {
        if v[from + k] != w[k] {
            assert(v@.subrange(from as int, to as int)[k as int] != w@[k as int]);
            return false;
        }
        k = k + 1;
    }
    assert(v@.subrange(from as int, to as int) =~= w@);
    true
}

/// The abstract value of an optional string.
pub open spec fn opt_string_view(o: Option<String>) -> Option<Seq<char>> {
    match o {
        Some(s) => Some(s@),
        None => None,
    }
}

/// The abstract value of an optional string slice.
pub open spec fn opt_str_view(o: Option<&str>) -> Option<Seq<char>> {
    match o {
        Some(s) => Some(s@),
        None => None,
    }
}

/// `s.trim()` as an owned string.
pub fn trim_to_string(s: &str) -> (r: String)
    ensures
        r@ == trim(s@),
{
    let v = chars_of(s);
    assert(v@.subrange(0, v.len() as int) =~= v@);
    let (a, b) = trim_bounds(&v, 0, v.len());
    string_from_range(&v, a, b)
}

/// `char::to_ascii_lowercase`: `A`-`Z` become `a`-`z`, all else stays.
pub open spec fn ascii_lower(c: char) -> char {
    if 'A' <= c && c <= 'Z' {
        ((c as int) + 32) as char
    } else {
        c
    }
}

/// `char::to_ascii_lowercase`.
pub fn ascii_lower_char(c: char) -> (r: char)
    ensures
        r == ascii_lower(c),
{
    if 'A' <= c && c <= 'Z' {
        let b = c as u8;
        (b + 32) as char
    } else {
        c
    }
}

/// `str::to_ascii_lowercase` on a character sequence.
pub open spec fn ascii_lowercase(s: Seq<char>) -> Seq<char> {
    Seq::new(s.len(), |i: int| ascii_lower(s[i]))
}

/// Whether `needle` occurs in `hay` as a contiguous run.
pub open spec fn contains_text(hay: Seq<char>, needle: Seq<char>) -> bool {
    exists|i: int| 0 <= i && i + needle.len() <= hay.len() && #[trigger] hay.subrange(i, i + needle.len()) == needle
}

/// The characters of `s` with `A`-`Z` lowered.
pub fn lowercase_chars(s: &str) -> (v: Vec<char>)
    ensures
        v@ == ascii_lowercase(s@),
{
    let src = chars_of(s);
    let mut v: Vec<char> = Vec::new();
    let mut i: usize = 0;
    while i < src.len()
        invariant
            i <= src.len(),
            src@ == s@,
            v@ == ascii_lowercase(s@).take(i as int),
        decreases src.len() - i,
    {
        v.push(ascii_lower_char(src[i]));
        assert(ascii_lowercase(s@).take(i + 1) =~= ascii_lowercase(s@).take(i as int).push(ascii_lower(src@[i as int])));
        i = i + 1;
    }
    assert(ascii_lowercase(s@).take(i as int) =~= ascii_lowercase(s@));
    v
}

/// Whether `needle` occurs in `hay`.
pub fn contains_chars(hay: &Vec<char>, needle: &Vec<char>) -> (r: bool)
    ensures
        r == contains_text(hay@, needle@),
{
    if needle.len() > hay.len() {
        return false;
    }
    if needle.len() == 0 {
        let ghost i0: int = 0;
        assert(hay@.subrange(i0, i0 + needle@.len()) =~= needle@);
        return true;
    }
    let last = hay.len() - needle.len();
    let mut i: usize = 0;
    while i <= last
        invariant
            last == hay.len() - needle.len(),
            0 < needle.len() <= hay.len(),
            i <= last + 1,
            forall|j: int| 0 <= j < i ==> #[trigger] hay@.subrange(j, j + needle.len()) != needle@,
        decreases last + 1 - i,
    {
        if range_equals(hay, i, i + needle.len(), needle) {
            return true;
        }
        i = i + 1;
    }
    false
}

} // verus!

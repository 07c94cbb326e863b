use blog001::slug::slugify;

#[test]
fn slugify_basic_words() {
    assert_eq!(slugify("Hello World"), "hello-world");
}

#[test]
fn slugify_collapses_separators() {
    assert_eq!(slugify("Rust  --  _ Verus"), "rust-verus");
}

#[test]
fn slugify_drops_punctuation_and_non_ascii() {
    assert_eq!(slugify("C++ & Ünïcode!"), "c-ncode");
    assert_eq!(slugify("a.b"), "ab");
}

#[test]
fn slugify_trims_outer_dashes() {
    assert_eq!(slugify("  -leading and trailing-  "), "leading-and-trailing");
}

#[test]
fn slugify_empty_and_symbol_only() {
    assert_eq!(slugify(""), "");
    assert_eq!(slugify("!!! ---"), "");
}

#[test]
fn slugify_keeps_digits() {
    assert_eq!(slugify("Top 10 Tips"), "top-10-tips");
}

#[test]
fn slugify_vertical_tab_is_not_a_separator() {
    assert_eq!(slugify("a\u{b}b"), "ab");
    assert_eq!(slugify("a\u{c}b"), "a-b");
}

#[test]
fn slugify_is_idempotent_on_examples() {
    for s in ["Hello World", "  -x_y-  ", "Top 10 Tips", "", "a--b"] {
        let once = slugify(s);
        assert_eq!(slugify(&once), once);
    }
}

#[test]
fn slug_output_shape() {
    let s = slugify("--Mixed__Case  Words--and 42--");
    assert_eq!(s, "mixed-case-words-and-42");
    assert!(!s.starts_with('-') && !s.ends_with('-') && !s.contains("--"));
}

use blog001::router::{admin_routes, public_routes};
use blog001::views::{
    admin_post_link, database_status_line, database_status_text, decimal_text, edit_post_link,
    editor_heading, editor_post_id_attr, editor_subheading, footer_text, is_tag_selected,
    joined_tag_slugs, last_updated_label, post_link, publish_label, publish_pill_class,
    selected_tag_or_all, signed_in_label, slug_path, tag_badge_class, tag_badge_label, tag_pairs,
    DRAFT_PILL_CLASS, PLAIN_BADGE_CLASS, PUBLISHED_PILL_CLASS, SELECTED_BADGE_CLASS,
};

#[test]
fn routes() {
    assert_eq!(public_routes(), ["/", "/post/:slug", "/tag/:tag"]);
    assert_eq!(admin_routes(), ["/admin", "/admin/posts", "/admin/editor", "/login"]);
}

#[test]
fn database_status() {
    assert_eq!(database_status_text(true), "configured");
    assert_eq!(database_status_text(false), "not configured");
    assert_eq!(database_status_line(true), "DATABASE_URL is configured.");
    assert_eq!(database_status_line(false), "DATABASE_URL is not configured.");
}

#[test]
fn labels_and_links() {
    assert_eq!(signed_in_label("admin"), "Signed in as admin");
    assert_eq!(footer_text(), "© 2026 blog001");
    assert_eq!(post_link("hello"), "/posts/hello");
    assert_eq!(admin_post_link("hello"), "/admin/posts/hello");
    assert_eq!(last_updated_label("2024-01-01"), "Last updated 2024-01-01");
    assert_eq!(slug_path("hello"), "/hello");
    assert_eq!(tag_badge_label("rust"), "#rust");
}

#[test]
fn joined_slugs() {
    let v: Vec<String> = vec!["a".into(), "b".into(), "c".into()];
    assert_eq!(joined_tag_slugs(&v), "a,b,c");
    assert_eq!(joined_tag_slugs(&vec![]), "");
    assert_eq!(joined_tag_slugs(&vec!["x".to_string()]), "x");
}

#[test]
fn pairs_stop_at_shorter_list() {
    let names: Vec<String> = vec!["A".into(), "B".into(), "C".into()];
    let slugs: Vec<String> = vec!["a".into(), "b".into()];
    let pairs = tag_pairs(&names, &slugs);
    assert_eq!(pairs.len(), 2);
    assert_eq!((pairs[1].name.as_str(), pairs[1].slug.as_str()), ("B", "b"));
}

#[test]
fn badge_and_filter_selection() {
    assert_eq!(tag_badge_class(Some(true)), SELECTED_BADGE_CLASS);
    assert_eq!(tag_badge_class(Some(false)), PLAIN_BADGE_CLASS);
    assert_eq!(tag_badge_class(None), PLAIN_BADGE_CLASS);
    assert_eq!(selected_tag_or_all(None), "all");
    assert_eq!(selected_tag_or_all(Some("rust".into())), "rust");
    assert!(is_tag_selected(&"rust".to_string(), &"rust".to_string()));
    assert!(!is_tag_selected(&"all".to_string(), &"rust".to_string()));
}

#[test]
fn publish_state() {
    assert_eq!(publish_label(true), "Published");
    assert_eq!(publish_label(false), "Draft");
    assert_eq!(publish_pill_class(true), PUBLISHED_PILL_CLASS);
    assert_eq!(publish_pill_class(false), DRAFT_PILL_CLASS);
}

#[test]
fn decimal_matches_display() {
    for n in [0i64, 7, 10, 42, -1, -305, 1_000_000, i64::MAX, i64::MIN] {
        assert_eq!(decimal_text(n), n.to_string());
    }
}

#[test]
fn editor_texts() {
    assert_eq!(editor_heading(Some(3)), "Edit Post");
    assert_eq!(editor_heading(None), "Create Post");
    assert_eq!(editor_subheading(Some(3)), "Update title, content, tags, and publish state.");
    assert_eq!(editor_subheading(None), "Write a new post, manage tags, then save as draft or publish.");
    assert_eq!(editor_post_id_attr(Some(12)), "12");
    assert_eq!(editor_post_id_attr(None), "");
    assert_eq!(edit_post_link(12), "/admin/posts/12/edit");
}

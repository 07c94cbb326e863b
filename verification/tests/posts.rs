use blog001::posts::{
    create_post_reply, delete_post_reply, get_post_reply, include_drafts, list_posts_reply,
    map_post, set_publish_reply, update_post_reply, validate_new_post, validate_post_changes,
    CreatePostRequest, ListPostsQuery, PostRow, UpdatePostRequest,
};
use blog001::reply::{is_unique_violation, ApiError, DbFailure};

fn row(id: i64, slug: &str) -> PostRow {
    PostRow {
        id,
        slug: slug.to_string(),
        title: format!("Title {id}"),
        body: "# body".to_string(),
        is_published: id % 2 == 0,
        created_at: "2024-01-01T00:00:00Z".to_string(),
        updated_at: "2024-01-02T00:00:00Z".to_string(),
    }
}

fn db_error(message: &str) -> DbFailure {
    DbFailure { database_message: Some(message.to_string()) }
}

fn other_error() -> DbFailure {
    DbFailure { database_message: None }
}

fn create(slug: &str, title: &str, markdown: &str, published: Option<bool>) -> CreatePostRequest {
    CreatePostRequest {
        slug: slug.to_string(),
        title: title.to_string(),
        markdown: markdown.to_string(),
        is_published: published,
    }
}

#[test]
fn new_post_is_trimmed_and_draft_by_default() {
    let p = validate_new_post(create("  my-post ", "\tTitle ", "  body  ", None)).ok().unwrap();
    assert_eq!(p.slug, "my-post");
    assert_eq!(p.title, "Title");
    assert_eq!(p.markdown, "  body  ");
    assert!(!p.is_published);
    let p = validate_new_post(create("s", "t", "m", Some(true))).ok().unwrap();
    assert!(p.is_published);
}

#[test]
fn new_post_needs_slug_and_title() {
    let e = validate_new_post(create("  ", "t", "m", None)).err().unwrap();
    assert_eq!(e, ApiError::SlugAndTitleRequired);
    assert_eq!(e.status(), 400);
    assert_eq!(e.message(), "slug and title are required");
    assert_eq!(validate_new_post(create("s", "", "", None)).err(), Some(ApiError::SlugAndTitleRequired));
}

#[test]
fn new_post_needs_markdown() {
    let e = validate_new_post(create("s", "t", " \n ", None)).err().unwrap();
    assert_eq!(e, ApiError::MarkdownRequired);
    assert_eq!(e.message(), "markdown is required");
}

#[test]
fn post_changes_trim_given_fields() {
    let c = validate_post_changes(UpdatePostRequest {
        slug: Some(" new ".to_string()),
        title: None,
        markdown: Some(" md ".to_string()),
        is_published: Some(false),
    })
    .ok()
    .unwrap();
    assert_eq!(c.slug, Some("new".to_string()));
    assert_eq!(c.title, None);
    assert_eq!(c.markdown, Some(" md ".to_string()));
    assert_eq!(c.is_published, Some(false));
}

#[test]
fn post_changes_refuse_blank_slug_or_title() {
    let e = validate_post_changes(UpdatePostRequest {
        slug: None,
        title: Some("   ".to_string()),
        markdown: None,
        is_published: None,
    })
    .err()
    .unwrap();
    assert_eq!(e, ApiError::SlugAndTitleEmpty);
    assert_eq!(e.message(), "slug and title cannot be empty");
}

#[test]
fn drafts_are_listed_unless_excluded() {
    assert!(include_drafts(&ListPostsQuery { include_drafts: None }));
    assert!(include_drafts(&ListPostsQuery { include_drafts: Some(true) }));
    assert!(!include_drafts(&ListPostsQuery { include_drafts: Some(false) }));
}

#[test]
fn map_post_renames_body() {
    let p = map_post(row(4, "four"));
    assert_eq!(p.id, 4);
    assert_eq!(p.slug, "four");
    assert_eq!(p.title, "Title 4");
    assert_eq!(p.markdown, "# body");
    assert!(p.is_published);
    assert_eq!(p.created_at, "2024-01-01T00:00:00Z");
    assert_eq!(p.updated_at, "2024-01-02T00:00:00Z");
}

#[test]
fn unique_violation_detection() {
    assert!(is_unique_violation(&db_error("UNIQUE constraint failed: posts.slug")));
    assert!(is_unique_violation(&db_error("CHECK Constraint failed")));
    assert!(!is_unique_violation(&db_error("database is locked")));
    assert!(!is_unique_violation(&other_error()));
}

#[test]
fn create_reply_cases() {
    let ok = create_post_reply(Ok(row(1, "one"))).ok().unwrap();
    assert_eq!(ok.slug, "one");
    let e = create_post_reply(Err(db_error("UNIQUE constraint failed: posts.slug"))).err().unwrap();
    assert_eq!(e, ApiError::SlugAlreadyExists);
    assert_eq!(e.status(), 409);
    assert_eq!(e.message(), "slug already exists");
    let e = create_post_reply(Err(other_error())).err().unwrap();
    assert_eq!(e, ApiError::CreatePostFailed);
    assert_eq!(e.status(), 500);
    assert_eq!(e.message(), "failed to create post");
}

#[test]
fn list_reply_keeps_order() {
    let posts = list_posts_reply(Ok(vec![row(3, "c"), row(1, "a"), row(2, "b")])).ok().unwrap();
    let slugs: Vec<&str> = posts.iter().map(|p| p.slug.as_str()).collect();
    assert_eq!(slugs, vec!["c", "a", "b"]);
    assert!(list_posts_reply(Ok(vec![])).ok().unwrap().is_empty());
    let e = list_posts_reply(Err(other_error())).err().unwrap();
    assert_eq!(e, ApiError::ListPostsFailed);
    assert_eq!(e.message(), "failed to list posts");
}

#[test]
fn get_reply_cases() {
    assert_eq!(get_post_reply(Ok(Some(row(9, "nine")))).ok().unwrap().id, 9);
    let e = get_post_reply(Ok(None)).err().unwrap();
    assert_eq!(e, ApiError::PostNotFound);
    assert_eq!(e.status(), 404);
    assert_eq!(e.message(), "post not found");
    let e = get_post_reply(Err(other_error())).err().unwrap();
    assert_eq!(e, ApiError::ReadPostFailed);
    assert_eq!(e.message(), "failed to read post");
}

#[test]
fn update_reply_cases() {
    assert_eq!(update_post_reply(Ok(Some(row(2, "two")))).ok().unwrap().slug, "two");
    assert_eq!(update_post_reply(Ok(None)).err(), Some(ApiError::PostNotFound));
    assert_eq!(
        update_post_reply(Err(db_error("unique index violated"))).err(),
        Some(ApiError::SlugAlreadyExists)
    );
    let e = update_post_reply(Err(db_error("disk I/O error"))).err().unwrap();
    assert_eq!(e, ApiError::UpdatePostFailed);
    assert_eq!(e.message(), "failed to update post");
}

#[test]
fn publish_reply_cases() {
    assert!(set_publish_reply(Ok(Some(row(2, "two")))).is_ok());
    assert_eq!(set_publish_reply(Ok(None)).err(), Some(ApiError::PostNotFound));
    let e = set_publish_reply(Err(db_error("UNIQUE"))).err().unwrap();
    assert_eq!(e, ApiError::TogglePublishFailed);
    assert_eq!(e.message(), "failed to toggle publish status");
}

#[test]
fn delete_reply_cases() {
    assert_eq!(delete_post_reply(Ok(1)), Ok(()));
    assert_eq!(delete_post_reply(Ok(0)), Err(ApiError::PostNotFound));
    let e = delete_post_reply(Err(other_error())).err().unwrap();
    assert_eq!(e, ApiError::DeletePostFailed);
    assert_eq!(e.message(), "failed to delete post");
}

use blog001::reply::{ApiError, DbFailure};
use blog001::tag_ids::TagIdSet;
use blog001::tags::{
    create_tag_reply, delete_tag_reply, list_tags_reply, map_tag, post_exists_from_count,
    tags_for_post_reply, validate_new_tag, CreateTagRequest, TagRow,
};

fn tag_row(id: i64, name: &str) -> TagRow {
    TagRow {
        id,
        name: name.to_string(),
        slug: name.to_lowercase(),
        created_at: "2024-03-01T00:00:00Z".to_string(),
    }
}

fn failure() -> DbFailure {
    DbFailure { database_message: None }
}

#[test]
fn new_tag_slug_from_name() {
    let t = validate_new_tag(CreateTagRequest { name: "  Rust Lang ".to_string(), slug: None }).ok().unwrap();
    assert_eq!(t.name, "Rust Lang");
    assert_eq!(t.slug, "rust-lang");
}

#[test]
fn new_tag_given_slug_is_trimmed() {
    let t = validate_new_tag(CreateTagRequest {
        name: "Rust".to_string(),
        slug: Some("  Custom_Slug ".to_string()),
    })
    .ok()
    .unwrap();
    assert_eq!(t.slug, "Custom_Slug");
}

#[test]
fn new_tag_blank_slug_falls_back() {
    let t = validate_new_tag(CreateTagRequest { name: "Web Dev".to_string(), slug: Some("   ".to_string()) })
        .ok()
        .unwrap();
    assert_eq!(t.slug, "web-dev");
}

#[test]
fn new_tag_needs_a_name() {
    let e = validate_new_tag(CreateTagRequest { name: " \t".to_string(), slug: Some("x".to_string()) })
        .err()
        .unwrap();
    assert_eq!(e, ApiError::TagNameRequired);
    assert_eq!(e.status(), 400);
    assert_eq!(e.message(), "tag name is required");
}

#[test]
fn map_tag_keeps_fields() {
    let t = map_tag(tag_row(5, "Rust"));
    assert_eq!((t.id, t.name.as_str(), t.slug.as_str()), (5, "Rust", "rust"));
    assert_eq!(t.created_at, "2024-03-01T00:00:00Z");
}

#[test]
fn create_tag_reply_cases() {
    assert_eq!(create_tag_reply(Ok(tag_row(1, "A"))).ok().unwrap().id, 1);
    let e = create_tag_reply(Err(DbFailure { database_message: Some("UNIQUE constraint failed: tags.slug".to_string()) }))
        .err()
        .unwrap();
    assert_eq!(e, ApiError::TagAlreadyExists);
    assert_eq!(e.status(), 409);
    assert_eq!(e.message(), "tag already exists");
    let e = create_tag_reply(Err(failure())).err().unwrap();
    assert_eq!(e, ApiError::CreateTagFailed);
    assert_eq!(e.message(), "failed to create tag");
}

#[test]
fn list_tags_reply_cases() {
    let tags = list_tags_reply(Ok(vec![tag_row(2, "B"), tag_row(1, "A")])).ok().unwrap();
    assert_eq!(tags.iter().map(|t| t.id).collect::<Vec<_>>(), vec![2, 1]);
    let e = list_tags_reply(Err(failure())).err().unwrap();
    assert_eq!(e, ApiError::ListTagsFailed);
    assert_eq!(e.message(), "failed to list tags");
}

#[test]
fn delete_tag_reply_cases() {
    assert_eq!(delete_tag_reply(Ok(3)), Ok(()));
    let e = delete_tag_reply(Ok(0)).err().unwrap();
    assert_eq!(e, ApiError::TagNotFound);
    assert_eq!(e.status(), 404);
    assert_eq!(e.message(), "tag not found");
    let e = delete_tag_reply(Err(failure())).err().unwrap();
    assert_eq!(e, ApiError::DeleteTagFailed);
    assert_eq!(e.message(), "failed to delete tag");
}

#[test]
fn post_existence_from_count() {
    assert!(post_exists_from_count(Ok(1)));
    assert!(!post_exists_from_count(Ok(0)));
    assert!(!post_exists_from_count(Err(failure())));
}

#[test]
fn tags_for_post_reply_cases() {
    assert_eq!(tags_for_post_reply(false, None).err(), Some(ApiError::PostNotFound));
    let tags = tags_for_post_reply(true, Some(Ok(vec![tag_row(7, "X")]))).ok().unwrap();
    assert_eq!(tags.len(), 1);
    let e = tags_for_post_reply(true, Some(Err(failure()))).err().unwrap();
    assert_eq!(e, ApiError::FetchTagsFailed);
    assert_eq!(e.message(), "failed to fetch tags for post");
}

#[test]
fn tag_id_set_orders_and_dedups() {
    let mut set = TagIdSet::new();
    for id in [5, -2, 9, 5, 0, 9, -2] {
        set.insert(id);
    }
    assert_eq!(set.to_vec(), vec![-2, 0, 5, 9]);
    assert_eq!(set.len(), 4);
    assert_eq!(set.get(2), 5);
}

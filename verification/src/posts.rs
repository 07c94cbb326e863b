//! Rules of the post endpoints: what a request must hold, what is written,
//! and which reply each database outcome gets.

use vstd::prelude::*;

use crate::reply::{
    is_request_error, is_unique_violation, is_unique_violation_spec, status_of, ApiError, DbFailure,
};
use crate::text::{opt_string_view, trim, trim_to_string};

verus! {

/// Body of a create request.
#[derive(Debug)]
pub struct CreatePostRequest {
    pub slug: String,
    pub title: String,
    pub markdown: String,
    pub is_published: Option<bool>,
}

/// Body of an update request; absent fields stay as they are.
#[derive(Debug)]
pub struct UpdatePostRequest {
    pub slug: Option<String>,
    pub title: Option<String>,
    pub markdown: Option<String>,
    pub is_published: Option<bool>,
}

/// Body of a publish/unpublish request.
#[derive(Debug)]
pub struct TogglePublishRequest {
    pub is_published: bool,
}

/// Query of the list endpoint.
#[derive(Debug)]
pub struct ListPostsQuery {
    pub include_drafts: Option<bool>,
}

/// A post as the endpoints return it.
#[derive(Debug)]
pub struct PostResponse {
    pub id: i64,
    pub slug: String,
    pub title: String,
    pub markdown: String,
    pub is_published: bool,
    pub created_at: String,
    pub updated_at: String,
}

/// A post as the database stores it.
#[derive(Debug)]
pub struct PostRow {
    pub id: i64,
    pub slug: String,
    pub title: String,
    pub body: String,
    pub is_published: bool,
    pub created_at: String,
    pub updated_at: String,
}

/// The values a create request inserts.
#[derive(Debug)]
pub struct NewPost {
    pub slug: String,
    pub title: String,
    pub markdown: String,
    pub is_published: bool,
}

/// The values an update request sets; `None` keeps the stored value.
#[derive(Debug)]
pub struct PostChanges {
    pub slug: Option<String>,
    pub title: Option<String>,
    pub markdown: Option<String>,
    pub is_published: Option<bool>,
}

/// A row carries the same post as a response.
pub open spec fn row_matches(row: PostRow, post: PostResponse) -> bool {
    &&& post.id == row.id
    &&& post.slug@ == row.slug@
    &&& post.title@ == row.title@
    &&& post.markdown@ == row.body@
    &&& post.is_published == row.is_published
    &&& post.created_at@ == row.created_at@
    &&& post.updated_at@ == row.updated_at@
}

/// The response for a stored post (the body becomes `markdown`).
pub fn map_post(row: PostRow) -> (r: PostResponse)
    ensures
        row_matches(row, r),
        r.id == row.id,
        r.slug@ == row.slug@,
        r.title@ == row.title@,
        r.markdown@ == row.body@,
        r.is_published == row.is_published,
        r.created_at@ == row.created_at@,
        r.updated_at@ == row.updated_at@,
{
    PostResponse {
        id: row.id,
        slug: row.slug,
        title: row.title,
        markdown: row.body,
        is_published: row.is_published,
        created_at: row.created_at,
        updated_at: row.updated_at,
    }
}

/// A response that matches a row reports each of the row's fields as
/// stored: its id, slug, title, body (as `markdown`), publish flag and both
/// timestamps.
pub proof fn lemma_row_matches_fields(row: PostRow, post: PostResponse)
    requires
        row_matches(row, post),
    ensures
        post.id == row.id,
        post.slug@ == row.slug@,
        post.title@ == row.title@,
        post.markdown@ == row.body@,
        post.is_published == row.is_published,
        post.created_at@ == row.created_at@,
        post.updated_at@ == row.updated_at@,
{
}

/// Rows mapped one to one, in order.
pub open spec fn rows_match(rows: Seq<PostRow>, posts: Seq<PostResponse>) -> bool {
    &&& posts.len() == rows.len()
    &&& forall|i: int| 0 <= i < rows.len() ==> row_matches(#[trigger] rows[i], posts[i])
}

/// The responses for a list of stored posts, in the same order.
pub fn map_posts(rows: Vec<PostRow>) -> (r: Vec<PostResponse>)
    ensures
        rows_match(rows@, r@),
{
    let ghost given = rows@;
    let mut rows = rows;
    let mut reversed: Vec<PostRow> = Vec::new();
    while rows.len() > 0
        invariant
            reversed@ + rows@.reverse() =~= given.reverse(),
        decreases rows.len(),
    {
        let row = rows.pop().unwrap();
        reversed.push(row);
        proof {
            assert(reversed@ + rows@.reverse() =~= given.reverse());
        }
    }
    assert(reversed@ =~= given.reverse());
    assert(given.skip(0) =~= given);
    let mut posts: Vec<PostResponse> = Vec::new();
    while reversed.len() > 0
        invariant
            posts.len() + reversed.len() == given.len(),
            reversed@ =~= given.skip(posts.len() as int).reverse(),
            forall|i: int| 0 <= i < posts.len() ==> row_matches(#[trigger] given[i], posts@[i]),
        decreases reversed.len(),
    {
        let ghost before = reversed@;
        let k = posts.len();
        let row = reversed.pop().unwrap();
        proof {
            assert(before.last() == given.skip(k as int)[0]);
            assert(row == given[k as int]);
            assert(before.drop_last() =~= given.skip(k + 1).reverse());
        }
        posts.push(map_post(row));
    }
    posts
}

/// Checks a create request: slug and title must not be blank, nor the
/// markdown. Slug and title are stored trimmed, the markdown as sent, and a
/// post is a draft unless the request says otherwise.
pub fn validate_new_post(request: CreatePostRequest) -> (r: Result<NewPost, ApiError>)
    ensures
        trim(request.slug@).len() == 0 || trim(request.title@).len() == 0 ==> r == Err::<
            NewPost,
            ApiError,
        >(ApiError::SlugAndTitleRequired),
        trim(request.slug@).len() > 0 && trim(request.title@).len() > 0 && trim(
            request.markdown@,
        ).len() == 0 ==> r == Err::<NewPost, ApiError>(ApiError::MarkdownRequired),
        trim(request.slug@).len() > 0 && trim(request.title@).len() > 0 && trim(
            request.markdown@,
        ).len() > 0 ==> (r matches Ok(p) && p.slug@ == trim(request.slug@) && p.title@ == trim(
            request.title@,
        ) && p.markdown@ == request.markdown@ && p.is_published == match request.is_published {
            Some(b) => b,
            None => false,
        }),
        r matches Err(e) ==> is_request_error(e) && status_of(e) == 400,
{
    let slug = trim_to_string(request.slug.as_str());
    let title = trim_to_string(request.title.as_str());
    if slug.as_str().is_empty() || title.as_str().is_empty() {
        return Err(ApiError::SlugAndTitleRequired);
    }
    let markdown_trimmed = trim_to_string(request.markdown.as_str());
    if markdown_trimmed.as_str().is_empty() {
        return Err(ApiError::MarkdownRequired);
    }
    let is_published = match request.is_published {
        Some(b) => b,
        None => false,
    };
    Ok(NewPost { slug, title, markdown: request.markdown, is_published })
}

/// The trimmed form of an optional field.
pub open spec fn trimmed_field(o: Option<String>) -> Option<Seq<char>> {
    match o {
        Some(s) => Some(trim(s@)),
        None => None,
    }
}

/// Whether an optional field is given but blank.
pub open spec fn is_blank_field(o: Option<String>) -> bool {
    match o {
        Some(s) => trim(s@).len() == 0,
        None => false,
    }
}

fn trim_field(o: &Option<String>) -> (r: Option<String>)
    ensures
        opt_string_view(r) == trimmed_field(*o),
{
    match o {
        Some(s) => Some(trim_to_string(s.as_str())),
        None => None,
    }
}

/// Checks an update request: a slug or title that is given must not be
/// blank. Given slug and title are stored trimmed, the rest as sent.
pub fn validate_post_changes(request: UpdatePostRequest) -> (r: Result<PostChanges, ApiError>)
    ensures
        is_blank_field(request.slug) || is_blank_field(request.title) ==> r == Err::<
            PostChanges,
            ApiError,
        >(ApiError::SlugAndTitleEmpty),
        !is_blank_field(request.slug) && !is_blank_field(request.title) ==> (r matches Ok(c)
            && opt_string_view(c.slug) == trimmed_field(request.slug) && opt_string_view(c.title)
            == trimmed_field(request.title) && opt_string_view(c.markdown) == opt_string_view(
            request.markdown,
        ) && c.is_published == request.is_published),
        r matches Err(e) ==> is_request_error(e) && status_of(e) == 400,
{
    let slug = trim_field(&request.slug);
    let title = trim_field(&request.title);
    let blank_slug = match &slug {
        Some(s) => s.as_str().is_empty(),
        None => false,
    };
    let blank_title = match &title {
        Some(s) => s.as_str().is_empty(),
        None => false,
    };
    if blank_slug || blank_title {
        return Err(ApiError::SlugAndTitleEmpty);
    }
    Ok(PostChanges { slug, title, markdown: request.markdown, is_published: request.is_published })
}

/// Whether the list endpoint includes drafts (it does unless told not to).
pub fn include_drafts(query: &ListPostsQuery) -> (r: bool)
    ensures
        r == match query.include_drafts {
            Some(b) => b,
            None => true,
        },
{
    match query.include_drafts {
        Some(b) => b,
        None => true,
    }
}

/// Reply to a create: the new post (status 201), or a conflict when the
/// slug is taken, or a server error.
pub fn create_post_reply(result: Result<PostRow, DbFailure>) -> (r: Result<PostResponse, ApiError>)
    ensures
        match result {
            Ok(row) => r matches Ok(p) && row_matches(row, p),
            Err(e) => r == Err::<PostResponse, ApiError>(
                if is_unique_violation_spec(e) {
                    ApiError::SlugAlreadyExists
                } else {
                    ApiError::CreatePostFailed
                },
            ),
        },
        match result {
            Ok(_) => r is Ok,
            Err(f) => r matches Err(e) && status_of(e) == (if is_unique_violation_spec(f) {
                409u16
            } else {
                500u16
            }),
        },
{
    match result {
        Ok(row) => Ok(map_post(row)),
        Err(e) => if is_unique_violation(&e) {
            Err(ApiError::SlugAlreadyExists)
        } else {
            Err(ApiError::CreatePostFailed)
        },
    }
}

/// Reply to a list: the posts in the order given, or a server error.
pub fn list_posts_reply(result: Result<Vec<PostRow>, DbFailure>) -> (r: Result<
    Vec<PostResponse>,
    ApiError,
>)
    ensures
        match result {
            Ok(rows) => r matches Ok(posts) && rows_match(rows@, posts@),
            Err(_) => r == Err::<Vec<PostResponse>, ApiError>(ApiError::ListPostsFailed),
        },
        r matches Err(e) ==> status_of(e) == 500,
{
    match result {
        Ok(rows) => Ok(map_posts(rows)),
        Err(_) => Err(ApiError::ListPostsFailed),
    }
}

/// Reply to a read: the post, or "not found", or a server error.
pub fn get_post_reply(result: Result<Option<PostRow>, DbFailure>) -> (r: Result<
    PostResponse,
    ApiError,
>)
    ensures
        match result {
            Ok(Some(row)) => r matches Ok(p) && row_matches(row, p),
            Ok(None) => r == Err::<PostResponse, ApiError>(ApiError::PostNotFound),
            Err(_) => r == Err::<PostResponse, ApiError>(ApiError::ReadPostFailed),
        },
        match result {
            Ok(Some(_)) => r is Ok,
            Ok(None) => r matches Err(e) && status_of(e) == 404,
            Err(_) => r matches Err(e) && status_of(e) == 500,
        },
{
    match result {
        Ok(Some(row)) => Ok(map_post(row)),
        Ok(None) => Err(ApiError::PostNotFound),
        Err(_) => Err(ApiError::ReadPostFailed),
    }
}

/// Reply to an update: the updated post, "not found", a slug conflict, or
/// a server error.
pub fn update_post_reply(result: Result<Option<PostRow>, DbFailure>) -> (r: Result<
    PostResponse,
    ApiError,
>)
    ensures
        match result {
            Ok(Some(row)) => r matches Ok(p) && row_matches(row, p),
            Ok(None) => r == Err::<PostResponse, ApiError>(ApiError::PostNotFound),
            Err(e) => r == Err::<PostResponse, ApiError>(
                if is_unique_violation_spec(e) {
                    ApiError::SlugAlreadyExists
                } else {
                    ApiError::UpdatePostFailed
                },
            ),
        },
        match result {
            Ok(Some(_)) => r is Ok,
            Ok(None) => r matches Err(e) && status_of(e) == 404,
            Err(f) => r matches Err(e) && status_of(e) == (if is_unique_violation_spec(f) {
                409u16
            } else {
                500u16
            }),
        },
{
    match result {
        Ok(Some(row)) => Ok(map_post(row)),
        Ok(None) => Err(ApiError::PostNotFound),
        Err(e) => if is_unique_violation(&e) {
            Err(ApiError::SlugAlreadyExists)
        } else {
            Err(ApiError::UpdatePostFailed)
        },
    }
}

/// Reply to a publish toggle: the updated post, "not found", or a server
/// error.
pub fn set_publish_reply(result: Result<Option<PostRow>, DbFailure>) -> (r: Result<
    PostResponse,
    ApiError,
>)
    ensures
        match result {
            Ok(Some(row)) => r matches Ok(p) && row_matches(row, p),
            Ok(None) => r == Err::<PostResponse, ApiError>(ApiError::PostNotFound),
            Err(_) => r == Err::<PostResponse, ApiError>(ApiError::TogglePublishFailed),
        },
        match result {
            Ok(Some(_)) => r is Ok,
            Ok(None) => r matches Err(e) && status_of(e) == 404,
            Err(_) => r matches Err(e) && status_of(e) == 500,
        },
{
    match result {
        Ok(Some(row)) => Ok(map_post(row)),
        Ok(None) => Err(ApiError::PostNotFound),
        Err(_) => Err(ApiError::TogglePublishFailed),
    }
}

/// Reply to a delete, given how many rows it removed: no content when one
/// was, "not found" when none was, or a server error.
pub fn delete_post_reply(result: Result<u64, DbFailure>) -> (r: Result<(), ApiError>)
    ensures
        match result {
            Ok(n) => if n > 0 {
                r is Ok
            } else {
                r == Err::<(), ApiError>(ApiError::PostNotFound)
            },
            Err(_) => r == Err::<(), ApiError>(ApiError::DeletePostFailed),
        },
        r matches Err(e) ==> status_of(e) == (if result is Err {
            500u16
        } else {
            404u16
        }),
{
    match result {
        Ok(n) => if n > 0 {
            Ok(())
        } else {
            Err(ApiError::PostNotFound)
        },
        Err(_) => Err(ApiError::DeletePostFailed),
    }
}

} // verus!

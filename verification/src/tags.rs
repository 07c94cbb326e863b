//! Rules of the tag endpoints, and the step-by-step plan that replaces the
//! tags of a post.

use vstd::prelude::*;

use crate::reply::{
    is_request_error, is_unique_violation, is_unique_violation_spec, status_of, ApiError, DbFailure,
};
use crate::slug::{slug_of, slugify};
use crate::text::{trim, trim_to_string};

verus! {

/// Body of a create request; without a usable slug one is made from the name.
#[derive(Debug)]
pub struct CreateTagRequest {
    pub name: String,
    pub slug: Option<String>,
}

/// Body of a request that sets the tags of a post, by id and by name.
#[derive(Debug)]
pub struct AssociateTagsRequest {
    pub tag_ids: Option<Vec<i64>>,
    pub tags: Option<Vec<String>>,
}

/// A tag as the endpoints return it.
#[derive(Debug)]
pub struct TagResponse {
    pub id: i64,
    pub name: String,
    pub slug: String,
    pub created_at: String,
}

/// A tag as the database stores it.
#[derive(Debug)]
pub struct TagRow {
    pub id: i64,
    pub name: String,
    pub slug: String,
    pub created_at: String,
}

/// A tag name with the slug it is stored under.
#[derive(Debug)]
pub struct TagLabel {
    pub name: String,
    pub slug: String,
}

/// A row carries the same tag as a response.
pub open spec fn tag_row_matches(row: TagRow, tag: TagResponse) -> bool {
    &&& tag.id == row.id
    &&& tag.name@ == row.name@
    &&& tag.slug@ == row.slug@
    &&& tag.created_at@ == row.created_at@
}

/// The response for a stored tag.
pub fn map_tag(row: TagRow) -> (r: TagResponse)
    ensures
        tag_row_matches(row, r),
        r.id == row.id,
        r.name@ == row.name@,
        r.slug@ == row.slug@,
        r.created_at@ == row.created_at@,
{
    TagResponse { id: row.id, name: row.name, slug: row.slug, created_at: row.created_at }
}

/// A response that matches a row reports each of the row's fields as
/// stored: its id, name, slug and creation time.
pub proof fn lemma_tag_row_matches_fields(row: TagRow, tag: TagResponse)
    requires
        tag_row_matches(row, tag),
    ensures
        tag.id == row.id,
        tag.name@ == row.name@,
        tag.slug@ == row.slug@,
        tag.created_at@ == row.created_at@,
{
}

/// The slug a create request stores: the given one, trimmed, unless it is
/// absent or blank, in which case the slug of the (trimmed) name.
pub open spec fn requested_slug(slug: Option<String>, name: Seq<char>) -> Seq<char> {
    match slug {
        Some(s) => if trim(s@).len() > 0 {
            trim(s@)
        } else {
            slug_of(name)
        },
        None => slug_of(name),
    }
}

/// Checks a create request: the name must not be blank; it is stored
/// trimmed, with the slug of [`requested_slug`].
pub fn validate_new_tag(request: CreateTagRequest) -> (r: Result<TagLabel, ApiError>)
    ensures
        trim(request.name@).len() == 0 ==> r == Err::<TagLabel, ApiError>(
            ApiError::TagNameRequired,
        ),
        trim(request.name@).len() > 0 ==> (r matches Ok(t) && t.name@ == trim(request.name@)
            && t.slug@ == requested_slug(request.slug, trim(request.name@))),
        r matches Err(e) ==> is_request_error(e) && status_of(e) == 400,
{
    let name = trim_to_string(request.name.as_str());
    if name.as_str().is_empty() {
        return Err(ApiError::TagNameRequired);
    }
    let slug = match &request.slug {
        Some(s) => {
            let given = trim_to_string(s.as_str());
            if given.as_str().is_empty() {
                slugify(name.as_str())
            } else {
                given
            }
        },
        None => slugify(name.as_str()),
    };
    Ok(TagLabel { name, slug })
}

/// Rows mapped one to one, in order.
pub open spec fn tag_rows_match(rows: Seq<TagRow>, tags: Seq<TagResponse>) -> bool {
    &&& tags.len() == rows.len()
    &&& forall|i: int| 0 <= i < rows.len() ==> tag_row_matches(#[trigger] rows[i], tags[i])
}

/// The responses for a list of stored tags, in the same order.
pub fn map_tags(rows: Vec<TagRow>) -> (r: Vec<TagResponse>)
    ensures
        tag_rows_match(rows@, r@),
{
    let ghost given = rows@;
    let mut rows = rows;
    let mut reversed: Vec<TagRow> = Vec::new();
    while rows.len() > 0
        invariant
            reversed@ + rows@.reverse() =~= given.reverse(),
        decreases rows.len(),
    {
        let row = rows.pop().unwrap();
        reversed.push(row);
        proof {
            assert(reversed@ + rows@.reverse() =~= given.reverse());
        }
    }
    assert(reversed@ =~= given.reverse());
    assert(given.skip(0) =~= given);
    let mut tags: Vec<TagResponse> = Vec::new();
    while reversed.len() > 0
        invariant
            tags.len() + reversed.len() == given.len(),
            reversed@ =~= given.skip(tags.len() as int).reverse(),
            forall|i: int| 0 <= i < tags.len() ==> tag_row_matches(#[trigger] given[i], tags@[i]),
        decreases reversed.len(),
    {
        let ghost before = reversed@;
        let k = tags.len();
        let row = reversed.pop().unwrap();
        proof {
            assert(before.last() == given.skip(k as int)[0]);
            assert(row == given[k as int]);
            assert(before.drop_last() =~= given.skip(k + 1).reverse());
        }
        tags.push(map_tag(row));
    }
    tags
}

/// Reply to a create: the new tag (status 201), a conflict when it exists
/// already, or a server error.
pub fn create_tag_reply(result: Result<TagRow, DbFailure>) -> (r: Result<TagResponse, ApiError>)
    ensures
        match result {
            Ok(row) => r matches Ok(t) && tag_row_matches(row, t),
            Err(e) => r == Err::<TagResponse, ApiError>(
                if is_unique_violation_spec(e) {
                    ApiError::TagAlreadyExists
                } else {
                    ApiError::CreateTagFailed
                },
            ),
        },
        match result {
            Ok(_) => r is Ok,
            Err(f) => r matches Err(e) && status_of(e) == (if is_unique_violation_spec(f) {
                409u16
            } else {
                500u16
            }),
        },
{
    match result {
        Ok(row) => Ok(map_tag(row)),
        Err(e) => if is_unique_violation(&e) {
            Err(ApiError::TagAlreadyExists)
        } else {
            Err(ApiError::CreateTagFailed)
        },
    }
}

/// Reply to a list: all tags in the order given, or a server error.
pub fn list_tags_reply(result: Result<Vec<TagRow>, DbFailure>) -> (r: Result<
    Vec<TagResponse>,
    ApiError,
>)
    ensures
        match result {
            Ok(rows) => r matches Ok(tags) && tag_rows_match(rows@, tags@),
            Err(_) => r == Err::<Vec<TagResponse>, ApiError>(ApiError::ListTagsFailed),
        },
        r matches Err(e) ==> status_of(e) == 500,
{
    match result {
        Ok(rows) => Ok(map_tags(rows)),
        Err(_) => Err(ApiError::ListTagsFailed),
    }
}

/// Reply to a delete, given how many rows it removed.
pub fn delete_tag_reply(result: Result<u64, DbFailure>) -> (r: Result<(), ApiError>)
    ensures
        match result {
            Ok(n) => if n > 0 {
                r is Ok
            } else {
                r == Err::<(), ApiError>(ApiError::TagNotFound)
            },
            Err(_) => r == Err::<(), ApiError>(ApiError::DeleteTagFailed),
        },
        r matches Err(e) ==> status_of(e) == (if result is Err {
            500u16
        } else {
            404u16
        }),
{
    match result {
        Ok(n) => if n > 0 {
            Ok(())
        } else {
            Err(ApiError::TagNotFound)
        },
        Err(_) => Err(ApiError::DeleteTagFailed),
    }
}

/// Whether a post exists, from the count of posts with its id; a failed
/// count counts as "no".
pub fn post_exists_from_count(result: Result<i64, DbFailure>) -> (r: bool)
    ensures
        r == match result {
            Ok(n) => n > 0,
            Err(_) => false,
        },
{
    match result {
        Ok(n) => n > 0,
        Err(_) => false,
    }
}

/// Reply to "tags of a post": "not found" for a missing post, else the
/// fetched tags, or a server error when the fetch failed (or was not made).
pub fn tags_for_post_reply(post_exists: bool, fetched: Option<Result<Vec<TagRow>, DbFailure>>) -> (r:
    Result<Vec<TagResponse>, ApiError>)
    ensures
        !post_exists ==> r == Err::<Vec<TagResponse>, ApiError>(ApiError::PostNotFound),
        post_exists ==> match fetched {
            Some(Ok(rows)) => r matches Ok(tags) && tag_rows_match(rows@, tags@),
            _ => r == Err::<Vec<TagResponse>, ApiError>(ApiError::FetchTagsFailed),
        },
        r matches Err(e) ==> status_of(e) == (if post_exists {
            500u16
        } else {
            404u16
        }),
{
    if !post_exists {
        return Err(ApiError::PostNotFound);
    }
    match fetched {
        Some(Ok(rows)) => Ok(map_tags(rows)),
        _ => Err(ApiError::FetchTagsFailed),
    }
}

} // verus!

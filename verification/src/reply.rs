//! Error replies of the JSON endpoints: each carries an HTTP status and a
//! fixed message.

use vstd::prelude::*;

use crate::text::{ascii_lowercase, chars_of, contains_chars, contains_text, lowercase_chars};

verus! {

/// Every error that a post, tag or auth endpoint can answer with.
#[derive(PartialEq, Eq, Structural, Clone, Copy, Debug)]
pub enum ApiError {
    AuthenticationRequired,
    SlugAndTitleRequired,
    MarkdownRequired,
    SlugAndTitleEmpty,
    PostNotFound,
    SlugAlreadyExists,
    CreatePostFailed,
    ListPostsFailed,
    ReadPostFailed,
    UpdatePostFailed,
    TogglePublishFailed,
    DeletePostFailed,
    TagNameRequired,
    TagAlreadyExists,
    CreateTagFailed,
    ListTagsFailed,
    TagNotFound,
    DeleteTagFailed,
    FetchTagsFailed,
    StartAssociationFailed,
    ClearPostTagsFailed,
    UpsertTagFailed,
    AssociateTagsFailed,
    CommitAssociationFailed,
    FetchUpdatedTagsFailed,
}

/// HTTP status of each error.
pub open spec fn status_of(e: ApiError) -> u16 {
    match e {
        ApiError::AuthenticationRequired => 401,
        ApiError::SlugAndTitleRequired => 400,
        ApiError::MarkdownRequired => 400,
        ApiError::SlugAndTitleEmpty => 400,
        ApiError::TagNameRequired => 400,
        ApiError::PostNotFound => 404,
        ApiError::TagNotFound => 404,
        ApiError::SlugAlreadyExists => 409,
        ApiError::TagAlreadyExists => 409,
        _ => 500,
    }
}

/// Errors that refuse the request itself: a required field is missing or
/// blank.
pub open spec fn is_request_error(e: ApiError) -> bool {
    ||| e == ApiError::SlugAndTitleRequired
    ||| e == ApiError::MarkdownRequired
    ||| e == ApiError::SlugAndTitleEmpty
    ||| e == ApiError::TagNameRequired
}

/// Errors that name a post or tag that is not stored.
pub open spec fn is_missing_error(e: ApiError) -> bool {
    e == ApiError::PostNotFound || e == ApiError::TagNotFound
}

/// Errors that refuse a duplicate slug or tag.
pub open spec fn is_conflict_error(e: ApiError) -> bool {
    e == ApiError::SlugAlreadyExists || e == ApiError::TagAlreadyExists
}

/// Errors where the server, not the request, failed.
pub open spec fn is_server_failure(e: ApiError) -> bool {
    &&& e != ApiError::AuthenticationRequired
    &&& !is_request_error(e)
    &&& !is_missing_error(e)
    &&& !is_conflict_error(e)
}

/// The status of an error says what kind of error it is: 401 for a missing
/// login, 400 for a refused request, 404 for something not stored, 409 for a
/// duplicate, and 500 for a failure of the server; each status is given to
/// exactly one kind.
pub proof fn lemma_status_by_kind(e: ApiError)
    ensures
        status_of(e) == 401 <==> e == ApiError::AuthenticationRequired,
        status_of(e) == 400 <==> is_request_error(e),
        status_of(e) == 404 <==> is_missing_error(e),
        status_of(e) == 409 <==> is_conflict_error(e),
        status_of(e) == 500 <==> is_server_failure(e),
{
}

/// Message of each error.
pub open spec fn message_of(e: ApiError) -> Seq<char> {
    match e {
        ApiError::AuthenticationRequired => "authentication required"@,
        ApiError::SlugAndTitleRequired => "slug and title are required"@,
        ApiError::MarkdownRequired => "markdown is required"@,
        ApiError::SlugAndTitleEmpty => "slug and title cannot be empty"@,
        ApiError::PostNotFound => "post not found"@,
        ApiError::SlugAlreadyExists => "slug already exists"@,
        ApiError::CreatePostFailed => "failed to create post"@,
        ApiError::ListPostsFailed => "failed to list posts"@,
        ApiError::ReadPostFailed => "failed to read post"@,
        ApiError::UpdatePostFailed => "failed to update post"@,
        ApiError::TogglePublishFailed => "failed to toggle publish status"@,
        ApiError::DeletePostFailed => "failed to delete post"@,
        ApiError::TagNameRequired => "tag name is required"@,
        ApiError::TagAlreadyExists => "tag already exists"@,
        ApiError::CreateTagFailed => "failed to create tag"@,
        ApiError::ListTagsFailed => "failed to list tags"@,
        ApiError::TagNotFound => "tag not found"@,
        ApiError::DeleteTagFailed => "failed to delete tag"@,
        ApiError::FetchTagsFailed => "failed to fetch tags for post"@,
        ApiError::StartAssociationFailed => "failed to start tag association transaction"@,
        ApiError::ClearPostTagsFailed => "failed to clear existing post tags"@,
        ApiError::UpsertTagFailed => "failed to upsert tag while associating"@,
        ApiError::AssociateTagsFailed => "failed to associate tags with post"@,
        ApiError::CommitAssociationFailed => "failed to commit tag association"@,
        ApiError::FetchUpdatedTagsFailed => "failed to fetch updated tags for post"@,
    }
}

impl ApiError {
    /// The HTTP status code of this error.
    pub fn status(&self) -> (r: u16)
        ensures
            r == status_of(*self),
            is_request_error(*self) ==> r == 400,
            is_missing_error(*self) ==> r == 404,
            is_conflict_error(*self) ==> r == 409,
            is_server_failure(*self) ==> r == 500,
    {
        match self {
            ApiError::AuthenticationRequired => 401,
            ApiError::SlugAndTitleRequired => 400,
            ApiError::MarkdownRequired => 400,
            ApiError::SlugAndTitleEmpty => 400,
            ApiError::TagNameRequired => 400,
            ApiError::PostNotFound => 404,
            ApiError::TagNotFound => 404,
            ApiError::SlugAlreadyExists => 409,
            ApiError::TagAlreadyExists => 409,
            _ => 500,
        }
    }

    /// The message sent in the `error` field of the JSON body.
    pub fn message(&self) -> (r: &'static str)
        ensures
            r@ == message_of(*self),
    {
        match self {
            ApiError::AuthenticationRequired => "authentication required",
            ApiError::SlugAndTitleRequired => "slug and title are required",
            ApiError::MarkdownRequired => "markdown is required",
            ApiError::SlugAndTitleEmpty => "slug and title cannot be empty",
            ApiError::PostNotFound => "post not found",
            ApiError::SlugAlreadyExists => "slug already exists",
            ApiError::CreatePostFailed => "failed to create post",
            ApiError::ListPostsFailed => "failed to list posts",
            ApiError::ReadPostFailed => "failed to read post",
            ApiError::UpdatePostFailed => "failed to update post",
            ApiError::TogglePublishFailed => "failed to toggle publish status",
            ApiError::DeletePostFailed => "failed to delete post",
            ApiError::TagNameRequired => "tag name is required",
            ApiError::TagAlreadyExists => "tag already exists",
            ApiError::CreateTagFailed => "failed to create tag",
            ApiError::ListTagsFailed => "failed to list tags",
            ApiError::TagNotFound => "tag not found",
            ApiError::DeleteTagFailed => "failed to delete tag",
            ApiError::FetchTagsFailed => "failed to fetch tags for post",
            ApiError::StartAssociationFailed => "failed to start tag association transaction",
            ApiError::ClearPostTagsFailed => "failed to clear existing post tags",
            ApiError::UpsertTagFailed => "failed to upsert tag while associating",
            ApiError::AssociateTagsFailed => "failed to associate tags with post",
            ApiError::CommitAssociationFailed => "failed to commit tag association",
            ApiError::FetchUpdatedTagsFailed => "failed to fetch updated tags for post",
        }
    }
}

/// How a failed database call is seen by the endpoints: the message of an
/// error that the database itself reported, or `None` for any other
/// failure (connection, decoding, pool).
#[derive(Debug)]
pub struct DbFailure {
    pub database_message: Option<String>,
}

/// A database message that speaks of a uniqueness or constraint failure
/// (compared without regard to ASCII case).
pub open spec fn names_unique_violation(message: Seq<char>) -> bool {
    contains_text(ascii_lowercase(message), "unique"@) || contains_text(
        ascii_lowercase(message),
        "constraint"@,
    )
}

/// Whether a failure is the database refusing a duplicate.
pub open spec fn is_unique_violation_spec(err: DbFailure) -> bool {
    match err.database_message {
        Some(m) => names_unique_violation(m@),
        None => false,
    }
}

/// Tells a duplicate-key refusal from other database failures: the
/// database's own message, lowered, names "unique" or "constraint".
pub fn is_unique_violation(err: &DbFailure) -> (r: bool)
    ensures
        r == is_unique_violation_spec(*err),
{
    match &err.database_message {
        Some(m) => {
            let lowered = lowercase_chars(m.as_str());
            let unique = chars_of("unique");
            let constraint = chars_of("constraint");
            contains_chars(&lowered, &unique) || contains_chars(&lowered, &constraint)
        },
        None => false,
    }
}

} // verus!

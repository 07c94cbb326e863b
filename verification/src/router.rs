//! Page routes of the site.

use vstd::prelude::*;

verus! {

pub const HOME: &'static str = "/";
pub const POST_TEMPLATE: &'static str = "/post/:slug";
pub const TAG_TEMPLATE: &'static str = "/tag/:tag";
pub const LOGIN: &'static str = "/login";

pub const ADMIN_DASHBOARD: &'static str = "/admin";
pub const ADMIN_POSTS: &'static str = "/admin/posts";
pub const ADMIN_EDITOR: &'static str = "/admin/editor";

pub const POST_AXUM: &'static str = "/post/{slug}";
pub const TAG_AXUM: &'static str = "/tag/{tag}";

/// The public page routes: home, a post, a tag.
pub fn public_routes() -> (r: [&'static str; 3])
    ensures
        r[0] == HOME,
        r[1] == POST_TEMPLATE,
        r[2] == TAG_TEMPLATE,
{
    [HOME, POST_TEMPLATE, TAG_TEMPLATE]
}

/// The admin page routes, and the login page that guards them.
pub fn admin_routes() -> (r: [&'static str; 4])
    ensures
        r[0] == ADMIN_DASHBOARD,
        r[1] == ADMIN_POSTS,
        r[2] == ADMIN_EDITOR,
        r[3] == LOGIN,
{
    [ADMIN_DASHBOARD, ADMIN_POSTS, ADMIN_EDITOR, LOGIN]
}

} // verus!

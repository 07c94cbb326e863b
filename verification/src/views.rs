//! What the pages show: the texts, links and choices the page templates
//! fill in.

use vstd::prelude::*;

verus! {

/// A tag in the home page's filter, with the number of posts that carry it.
#[derive(Clone, Debug)]
pub struct TagFilterItem {
    pub name: String,
    pub slug: String,
    pub count: usize,
}

/// A post on the home page.
#[derive(Clone, Debug)]
pub struct HomePostSummary {
    pub title: String,
    pub slug: String,
    pub excerpt: String,
    pub published_at: String,
    pub tag_names: Vec<String>,
    pub tag_slugs: Vec<String>,
}

/// A tag shown on a post page.
#[derive(Clone, Debug)]
pub struct PostTag {
    pub name: String,
    pub slug: String,
}

/// A post in the dashboard's list of recent posts.
#[derive(Clone, Debug)]
pub struct RecentPostSummary {
    pub title: String,
    pub slug: String,
    pub is_published: bool,
    pub updated_at: String,
}

/// A post in the admin post table.
#[derive(Clone, Debug)]
pub struct AdminPostListItem {
    pub id: i64,
    pub title: String,
    pub slug: String,
    pub is_published: bool,
    pub updated_at: String,
}

/// Year shown in the footer.
pub const FOOTER_YEAR: u32 = 2026;

/// Badge style of the selected tag.
pub const SELECTED_BADGE_CLASS: &'static str = "inline-flex items-center gap-2 rounded-full border border-emerald-300 bg-emerald-100 px-3 py-1 text-xs font-semibold text-emerald-900 transition";

/// Badge style of the other tags.
pub const PLAIN_BADGE_CLASS: &'static str = "inline-flex items-center gap-2 rounded-full border border-slate-200 bg-white px-3 py-1 text-xs font-medium text-slate-700 transition hover:border-emerald-300 hover:bg-emerald-50";

/// Status pill style of a published post.
pub const PUBLISHED_PILL_CLASS: &'static str = "bg-emerald-100 text-emerald-800";

/// Status pill style of a draft.
pub const DRAFT_PILL_CLASS: &'static str = "bg-amber-100 text-amber-800";

/// The slug that selects every post in the tag filter.
pub const ALL_TAGS: &'static str = "all";

fn concat(a: &str, b: &str) -> (r: String)
    ensures
        r@ == a@ + b@,
{
    let mut r = a.to_owned();
    r.append(b);
    r
}

fn concat3(a: &str, b: &str, c: &str) -> (r: String)
    ensures
        r@ == a@ + b@ + c@,
{
    let mut r = a.to_owned();
    r.append(b);
    r.append(c);
    r
}

/// Whether the database is configured, in words.
pub fn database_status_text(database_configured: bool) -> (r: &'static str)
    ensures
        r@ == if database_configured {
            "configured"@
        } else {
            "not configured"@
        },
{
    if database_configured {
        "configured"
    } else {
        "not configured"
    }
}

/// The sentence on the start page about the database.
pub fn database_status_line(database_configured: bool) -> (r: String)
    ensures
        r@ == "DATABASE_URL is "@ + (if database_configured {
            "configured"@
        } else {
            "not configured"@
        }) + "."@,
{
    concat3("DATABASE_URL is ", database_status_text(database_configured), ".")
}

/// The admin header's "signed in" line.
pub fn signed_in_label(username: &str) -> (r: String)
    ensures
        r@ == "Signed in as "@ + username@,
{
    concat("Signed in as ", username)
}

/// The footer line of the public layout.
pub fn footer_text() -> (r: String)
    ensures
        r@ == "© 2026 blog001"@,
{
    "© 2026 blog001".to_owned()
}

/// `parts` joined with `sep` between neighbours.
pub open spec fn joined(parts: Seq<Seq<char>>, sep: Seq<char>) -> Seq<char>
    decreases parts.len(),
{
    if parts.len() == 0 {
        Seq::empty()
    } else if parts.len() == 1 {
        parts[0]
    } else {
        joined(parts.drop_last(), sep) + sep + parts.last()
    }
}

/// The views of a list of strings.
pub open spec fn string_views(v: Seq<String>) -> Seq<Seq<char>> {
    v.map_values(|s: String| s@)
}

/// The tag slugs of a post card, comma-separated, for the client-side
/// filter.
pub fn joined_tag_slugs(tag_slugs: &Vec<String>) -> (r: String)
    ensures
        r@ == joined(string_views(tag_slugs@), ","@),
{
    let mut r = String::new();
    let mut i: usize = 0;
    while i < tag_slugs.len()
        invariant
            i <= tag_slugs.len(),
            r@ == joined(string_views(tag_slugs@.take(i as int)), ","@),
        decreases tag_slugs.len() - i,
    {
        let ghost prev = tag_slugs@.take(i as int);
        let ghost next = tag_slugs@.take(i + 1);
        assert(string_views(next).drop_last() =~= string_views(prev));
        if i > 0 {
            r.append(",");
        } else {
            assert(string_views(next) =~= seq![tag_slugs@[0]@]);
        }
        r.append(tag_slugs[i].as_str());
        assert(string_views(next).last() == tag_slugs@[i as int]@);
        i = i + 1;
    }
    assert(tag_slugs@.take(i as int) =~= tag_slugs@);
    r
}

/// Link to a post from its card.
pub fn post_link(slug: &str) -> (r: String)
    ensures
        r@ == "/posts/"@ + slug@,
{
    concat("/posts/", slug)
}

/// The tags of a post card: names and slugs paired in order, as far as
/// both lists go.
pub fn tag_pairs(tag_names: &Vec<String>, tag_slugs: &Vec<String>) -> (r: Vec<PostTag>)
    ensures
        r.len() == if tag_names.len() < tag_slugs.len() {
            tag_names.len()
        } else {
            tag_slugs.len()
        },
        forall|i: int|
            0 <= i < r.len() ==> #[trigger] r@[i].name@ == tag_names@[i]@ && r@[i].slug@
                == tag_slugs@[i]@,
{
    let mut r: Vec<PostTag> = Vec::new();
    let mut i: usize = 0;
    while i < tag_names.len() && i < tag_slugs.len()
        invariant
            i <= tag_names.len(),
            i <= tag_slugs.len(),
            r.len() == i,
            forall|k: int|
                0 <= k < i ==> #[trigger] r@[k].name@ == tag_names@[k]@ && r@[k].slug@
                    == tag_slugs@[k]@,
        decreases tag_names.len() - i,
    {
        r.push(PostTag { name: tag_names[i].clone(), slug: tag_slugs[i].clone() });
        i = i + 1;
    }
    r
}

/// Text of a tag badge.
pub fn tag_badge_label(name: &str) -> (r: String)
    ensures
        r@ == "#"@ + name@,
{
    concat("#", name)
}

/// Style of a tag badge; a badge is unselected unless said otherwise.
pub fn tag_badge_class(selected: Option<bool>) -> (r: &'static str)
    ensures
        r == if selected == Some(true) {
            SELECTED_BADGE_CLASS
        } else {
            PLAIN_BADGE_CLASS
        },
{
    let is_selected = match selected {
        Some(b) => b,
        None => false,
    };
    if is_selected {
        SELECTED_BADGE_CLASS
    } else {
        PLAIN_BADGE_CLASS
    }
}

/// The tag the filter starts on: the given one, else "all".
pub fn selected_tag_or_all(selected_slug: Option<String>) -> (r: String)
    ensures
        r@ == match selected_slug {
            Some(s) => s@,
            None => "all"@,
        },
{
    match selected_slug {
        Some(s) => s,
        None => ALL_TAGS.to_owned(),
    }
}

/// Whether the filter's badge for `slug` is the selected one.
pub fn is_tag_selected(selected_slug: &String, slug: &String) -> (r: bool)
    ensures
        r == (selected_slug@ == slug@),
{
    *selected_slug == *slug
}

/// Status word of a post in the admin lists.
pub fn publish_label(is_published: bool) -> (r: &'static str)
    ensures
        r@ == if is_published {
            "Published"@
        } else {
            "Draft"@
        },
{
    if is_published {
        "Published"
    } else {
        "Draft"
    }
}

/// Style of the status pill of a post in the admin lists.
pub fn publish_pill_class(is_published: bool) -> (r: &'static str)
    ensures
        r == if is_published {
            PUBLISHED_PILL_CLASS
        } else {
            DRAFT_PILL_CLASS
        },
{
    if is_published {
        PUBLISHED_PILL_CLASS
    } else {
        DRAFT_PILL_CLASS
    }
}

/// Link to a post from the dashboard.
pub fn admin_post_link(slug: &str) -> (r: String)
    ensures
        r@ == "/admin/posts/"@ + slug@,
{
    concat("/admin/posts/", slug)
}

/// The dashboard's "last updated" line.
pub fn last_updated_label(updated_at: &str) -> (r: String)
    ensures
        r@ == "Last updated "@ + updated_at@,
{
    concat("Last updated ", updated_at)
}

/// The path of a slug as shown under its title.
pub fn slug_path(slug: &str) -> (r: String)
    ensures
        r@ == "/"@ + slug@,
{
    concat("/", slug)
}

/// The decimal digit for `d` (below ten).
pub open spec fn digit_char(d: nat) -> char {
    if d < 10 {
        ((d + 48) as int) as char
    } else {
        '0'
    }
}

/// Decimal digits of `n`, most significant first, without leading zeros.
pub open spec fn digits(n: nat) -> Seq<char>
    decreases n,
{
    if n < 10 {
        seq![digit_char(n)]
    } else {
        digits(n / 10).push(digit_char(n % 10))
    }
}

/// How `i64`'s `Display` writes `n`: a minus sign for negatives, then the
/// digits of the magnitude.
pub open spec fn decimal(n: int) -> Seq<char> {
    if n < 0 {
        seq!['-'] + digits((-n) as nat)
    } else {
        digits(n as nat)
    }
}

fn digit_of(d: u64) -> (c: char)
    requires
        d < 10,
    ensures
        c == digit_char(d as nat),
{
    let b = d as u8;
    (b + 48) as char
}

fn digits_of(n: u64) -> (r: Vec<char>)
    ensures
        r@ == digits(n as nat),
    decreases n,
{
    if n < 10 {
        vec![digit_of(n)]
    } else {
        let mut r = digits_of(n / 10);
        r.push(digit_of(n % 10));
        r
    }
}

/// `n.to_string()`.
pub fn decimal_text(n: i64) -> (r: String)
    ensures
        r@ == decimal(n as int),
{
    let magnitude: u64 = if n < 0 {
        ((-(n + 1)) as u64) + 1
    } else {
        n as u64
    };
    let ds = digits_of(magnitude);
    let mut r = String::new();
    if n < 0 {
        r.append("-");
        proof {
            reveal_strlit("-");
        }
    }
    let mut i: usize = 0;
    while i < ds.len()
        invariant
            i <= ds.len(),
            r@ == (if n < 0 {
                seq!['-']
            } else {
                Seq::<char>::empty()
            }) + ds@.take(i as int),
        decreases ds.len() - i,
    {
        crate::text::push_char(&mut r, ds[i]);
        assert(ds@.take(i + 1) =~= ds@.take(i as int).push(ds@[i as int]));
        i = i + 1;
    }
    assert(ds@.take(i as int) =~= ds@);
    r
}

/// Link to the editor of a post.
pub fn edit_post_link(id: i64) -> (r: String)
    ensures
        r@ == "/admin/posts/"@ + decimal(id as int) + "/edit"@,
{
    let digits = decimal_text(id);
    concat3("/admin/posts/", digits.as_str(), "/edit")
}

/// Heading of the post editor: editing an existing post or creating one.
pub fn editor_heading(post_id: Option<i64>) -> (r: &'static str)
    ensures
        r@ == if post_id is Some {
            "Edit Post"@
        } else {
            "Create Post"@
        },
{
    if post_id.is_some() {
        "Edit Post"
    } else {
        "Create Post"
    }
}

/// Line under the editor's heading.
pub fn editor_subheading(post_id: Option<i64>) -> (r: &'static str)
    ensures
        r@ == if post_id is Some {
            "Update title, content, tags, and publish state."@
        } else {
            "Write a new post, manage tags, then save as draft or publish."@
        },
{
    if post_id.is_some() {
        "Update title, content, tags, and publish state."
    } else {
        "Write a new post, manage tags, then save as draft or publish."
    }
}

/// The editor's `data-post-id` attribute: the id in decimal, or empty for a
/// new post.
pub fn editor_post_id_attr(post_id: Option<i64>) -> (r: String)
    ensures
        r@ == match post_id {
            Some(id) => decimal(id as int),
            None => Seq::<char>::empty(),
        },
{
    match post_id {
        Some(id) => decimal_text(id),
        None => String::new(),
    }
}

} // verus!

//! Paging of blog listings and the summary shown for a single post.

use vstd::prelude::*;
use crate::models::blog::BlogPostSummary;
use crate::models::page::ParsedPage;

verus! {

/// Query parameters of a blog listing.
#[derive(Debug, Clone, Copy, PartialEq, Eq, Structural)]
pub struct BlogListQuery {
    pub page: i64,
}

/// The page a listing shows when the request names none: the first.
pub fn default_page() -> (r: i64)
    ensures
        r == 1,
{
    1
}

impl Default for BlogListQuery {
    fn default() -> (r: BlogListQuery)
        ensures
            r.page == 1,
    {
        BlogListQuery { page: default_page() }
    }
}

/// How many posts one page of a listing shows.
pub const POSTS_PER_PAGE: i64 = 9;

/// How many posts come before page `page`.
pub open spec fn offset_of(page: i64) -> int {
    (page - 1) * 9
}

/// How many pages `total` posts fill: `total / 9`, rounded up.
pub open spec fn pages_for(total: i64) -> int {
    if total <= 0 {
        0
    } else {
        (total + 8) / 9
    }
}

/// Where a page stands in its listing.
#[derive(Debug, Clone, Copy, PartialEq, Eq, Structural)]
pub struct Pagination {
    pub page: i64,
    pub total_pages: i64,
    pub has_previous: bool,
    pub has_next: bool,
}

/// The number of posts to skip for page `page`; `None` where that number is
/// too large or too small for the store to be asked with.
pub fn listing_offset(page: i64) -> (r: Option<i64>)
    ensures
        r.is_some() <==> i64::MIN <= offset_of(page) <= i64::MAX,
        r matches Some(offset) ==> offset == offset_of(page),
{
    match page.checked_sub(1) {
        Some(before) => before.checked_mul(POSTS_PER_PAGE),
        None => {
            assert(offset_of(page) < i64::MIN) by (nonlinear_arith)
                requires
                    page == i64::MIN,
                    offset_of(page) == (page - 1) * 9,
            ;
            None
        },
    }
}

/// Where page `page` stands among the pages that `total` posts fill. There is
/// a previous page after the first, and a next page before the last.
pub fn paginate(page: i64, total: i64) -> (r: Pagination)
    ensures
        r.page == page,
        r.total_pages == pages_for(total),
        r.has_previous == (page > 1),
        r.has_next == (page < pages_for(total)),
{
    let total_pages: i64 = if total <= 0 {
        0
    } else {
        total / POSTS_PER_PAGE + if total % POSTS_PER_PAGE > 0 {
            1
        } else {
            0
        }
    };
    Pagination { page, total_pages, has_previous: page > 1, has_next: page < total_pages }
}

/// What the detail view shows of a post: its slug and title, its search
/// description as excerpt, and its preview image where it names one.
pub fn post_summary(parsed: &ParsedPage) -> (r: BlogPostSummary)
    ensures
        r.slug@ == parsed.slug@,
        r.title@ == parsed.title@,
        r.excerpt@ == parsed.meta.seo_description@,
        match r.featured_image_url {
            Some(url) => parsed.meta.og_image_url@.len() > 0 && url@ == parsed.meta.og_image_url@,
            None => parsed.meta.og_image_url@.len() == 0,
        },
        r.category_name.is_none(),
        r.category_slug.is_none(),
        r.category_color.is_none(),
        r.published_at.is_none(),
        r.reading_time_minutes.is_none(),
{
    BlogPostSummary {
        slug: parsed.slug.clone(),
        title: parsed.title.clone(),
        excerpt: parsed.meta.seo_description.clone(),
        featured_image_url: if parsed.meta.has_og_image() {
            Some(parsed.meta.og_image_url.clone())
        } else {
            None
        },
        category_name: None,
        category_slug: None,
        category_color: None,
        published_at: None,
        reading_time_minutes: None,
    }
}

} // verus!

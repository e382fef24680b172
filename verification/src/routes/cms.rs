//! Serving a content page: the cache first, the store on a miss.

use vstd::prelude::*;
use std::sync::Arc;
use crate::cache::{parsed_page, AppCache, Namespace, Snapshot};
use crate::models::page::CmsPage;

verus! {

/// The slug of the homepage.
pub fn home_slug() -> (r: &'static str)
    ensures
        r@ == "home"@,
{
    "home"
}

/// Keeps what the cache answered where it is a page.
pub fn page_snapshot(cached: Option<Arc<Snapshot>>) -> (r: Option<Arc<Snapshot>>)
    ensures
        match cached {
            Some(snapshot) if *snapshot is Page => r == Some(snapshot),
            _ => r.is_none(),
        },
{
    match cached {
        Some(snapshot) => {
            let is_page = match &*snapshot {
                Snapshot::Page(_) => true,
                _ => false,
            };
            if is_page {
                Some(snapshot)
            } else {
                None
            }
        },
        None => None,
    }
}

/// The cached page for a slug, where the cache hands one out. What it hands
/// out is the page last filed under the slug.
pub fn cached_page(cache: &AppCache, slug: &str) -> (r: Option<Arc<Snapshot>>)
    ensures
        r matches Some(snapshot) ==> {
            &&& *snapshot is Page
            &&& cache.entries(Namespace::Pages).contains_key(slug@)
            &&& cache.entries(Namespace::Pages)[slug@] == *snapshot
        },
{
    page_snapshot(cache.get(Namespace::Pages, slug))
}

/// Files the page that the store returned for a slug, where it has a
/// published snapshot, and says whether it had one. A page without one is
/// not cached: a miss is never remembered.
pub fn admit_page(cache: &mut AppCache, slug: &str, page: CmsPage) -> (found: bool)
    ensures
        found == parsed_page(page).is_some(),
        final(cache).entries(Namespace::Pages) == match parsed_page(page) {
            Some(parsed) => old(cache).entries(Namespace::Pages).insert(
                slug@,
                Snapshot::Page(parsed),
            ),
            None => old(cache).entries(Namespace::Pages),
        },
        final(cache).same_except(*old(cache), Namespace::Pages),
{
    match page.parse() {
        Some(parsed) => {
            cache.insert(Namespace::Pages, slug.to_owned(), Snapshot::Page(parsed));
            true
        },
        None => false,
    }
}

} // verus!

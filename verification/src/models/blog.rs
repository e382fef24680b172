//! Blog content as it is stored and listed.

use vstd::prelude::*;
use crate::pricing::models::Timestamp;

verus! {

/// One block of page content: its kind and its payload, carried as text.
#[derive(Debug, Clone)]
pub struct Block {
    pub block_type: String,
    pub data: String,
}

/// What a page says about itself to browsers and crawlers.
#[derive(Debug, Clone)]
pub struct PageMeta {
    pub title: String,
    pub seo_title: String,
    pub seo_description: String,
    pub og_image_url: String,
    pub robots: String,
}

/// The published form of a page: its meta data and its blocks.
#[derive(Debug, Clone)]
pub struct PublishedSnapshot {
    pub meta: PageMeta,
    pub blocks: Vec<Block>,
}

/// What a listing shows of a post.
#[derive(Debug, Clone)]
pub struct BlogPostSummary {
    pub slug: String,
    pub title: String,
    pub excerpt: String,
    pub featured_image_url: Option<String>,
    pub category_name: Option<String>,
    pub category_slug: Option<String>,
    pub category_color: Option<String>,
    pub published_at: Option<Timestamp>,
    pub reading_time_minutes: Option<i32>,
}

/// A category of posts.
#[derive(Debug, Clone)]
pub struct BlogCategory {
    pub id: u128,
    pub name: String,
    pub slug: String,
    pub description: String,
    pub color: String,
    pub sort_order: i32,
}

/// The title a page shows to search engines: its own where it has one, else
/// its title followed by the name of the site.
pub open spec fn seo_title_of(meta: PageMeta) -> Seq<char> {
    if meta.seo_title@.len() == 0 {
        meta.title@ + " | Happy Diving"@
    } else {
        meta.seo_title@
    }
}

impl PageMeta {
    /// The title for search engines.
    pub fn effective_seo_title(&self) -> (r: String)
        ensures
            r@ == seo_title_of(*self),
    {
        if self.seo_title.as_str().unicode_len() == 0 {
            crate::text::join2(self.title.as_str(), " | Happy Diving")
        } else {
            self.seo_title.clone()
        }
    }

    /// Whether the page names an image for link previews.
    pub fn has_og_image(&self) -> (r: bool)
        ensures
            r == (self.og_image_url@.len() > 0),
    {
        self.og_image_url.as_str().unicode_len() > 0
    }
}

} // verus!

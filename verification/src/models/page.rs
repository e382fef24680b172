//! Pages of the content store and their parsed form.

use vstd::prelude::*;
use crate::models::blog::{Block, PageMeta, PublishedSnapshot};
use crate::pricing::models::Timestamp;

verus! {

/// A page as the content store holds it. The published snapshot is present
/// where the store has one that could be read.
#[derive(Debug, Clone)]
pub struct CmsPage {
    pub id: u128,
    pub slug: String,
    pub title: String,
    pub page_type: String,
    pub status: String,
    pub seo_title: String,
    pub seo_description: String,
    pub og_image_url: String,
    pub robots: String,
    pub published_snapshot: Option<PublishedSnapshot>,
    pub published_at: Option<Timestamp>,
    pub template_key: String,
}

/// The settings of the site, of which there is one set.
#[derive(Debug, Clone)]
pub struct CmsSettings {
    pub site_name: String,
    pub default_seo_title_suffix: String,
    pub default_og_image_url: String,
    /// The navigation, as JSON text.
    pub nav_json: String,
    /// The footer, as JSON text.
    pub footer_json: String,
}

impl Default for CmsSettings {
    /// The settings of a site that has stored none.
    fn default() -> (r: CmsSettings)
        ensures
            r.site_name@ == "Happy Diving"@,
            r.default_seo_title_suffix@ == " | Happy Diving"@,
            r.default_og_image_url@ == Seq::<char>::empty(),
            r.nav_json@ == "[]"@,
            r.footer_json@ == "{}"@,
    {
        CmsSettings {
            site_name: "Happy Diving".to_owned(),
            default_seo_title_suffix: " | Happy Diving".to_owned(),
            default_og_image_url: String::new(),
            nav_json: "[]".to_owned(),
            footer_json: "{}".to_owned(),
        }
    }
}

/// A page ready to be rendered.
#[derive(Debug, Clone)]
pub struct ParsedPage {
    pub slug: String,
    pub title: String,
    pub meta: PageMeta,
    pub blocks: Vec<Block>,
    pub template_key: String,
}

impl CmsPage {
    /// The renderable form of a page: its slug, title and template, with the
    /// meta data and blocks of its published snapshot. A page without a
    /// snapshot has none.
    pub fn parse(self) -> (r: Option<ParsedPage>)
        ensures
            match self.published_snapshot {
                Some(snapshot) => r == Some(
                    ParsedPage {
                        slug: self.slug,
                        title: self.title,
                        meta: snapshot.meta,
                        blocks: snapshot.blocks,
                        template_key: self.template_key,
                    },
                ),
                None => r.is_none(),
            },
    {
        match self.published_snapshot {
            Some(snapshot) => Some(
                ParsedPage {
                    slug: self.slug,
                    title: self.title,
                    meta: snapshot.meta,
                    blocks: snapshot.blocks,
                    template_key: self.template_key,
                },
            ),
            None => None,
        }
    }
}

} // verus!

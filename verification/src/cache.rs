//! The snapshot cache in front of the store: six namespaces, each a bounded
//! map with its own time to live and idle timeout.

use vstd::prelude::*;
use std::sync::Arc;
use crate::models::blog::BlogPostSummary;
use crate::models::page::{CmsPage, CmsSettings, ParsedPage};
use crate::pricing::models::{Agreement, ContentType, Timestamp};
use crate::pricing::queries::{is_active_vendor_agreement, vendor_agreement_active};
use crate::text::{integer_text, integer_to_text, join3};
use vstd::string::StringExecFns;

verus! {

/// `moka`'s concurrent cache.
#[verifier::external_type_specification]
#[verifier::external_body]
#[verifier::reject_recursive_types(K)]
#[verifier::reject_recursive_types(V)]
#[verifier::reject_recursive_types(S)]
pub struct ExCache<K, V, S>(moka::sync::Cache<K, V, S>);

/// An immutable value held by the cache.
#[derive(Debug)]
pub enum Snapshot {
    Page(ParsedPage),
    Listing(Vec<BlogPostSummary>),
    Settings(CmsSettings),
    Agreement(Agreement),
    ContentType(ContentType),
}

/// What a cache may still hand out: for each key, the value last inserted
/// under it, unless the key or the whole cache was invalidated since. An
/// entry leaves this map only by invalidation; the cache itself may drop an
/// entry earlier, when it expires or the cache is full.
pub uninterp spec fn retained(cache: moka::sync::Cache<String, Arc<Snapshot>>) -> Map<
    Seq<char>,
    Snapshot,
>;

/// The contents of a cache that retains nothing.
pub open spec fn nothing_retained() -> Map<Seq<char>, Snapshot> {
    Map::empty()
}

/// The limits a cache was built with: the most entries it holds, the seconds
/// an entry lives after insertion, and the seconds it may go unread.
pub uninterp spec fn limits(cache: moka::sync::Cache<String, Arc<Snapshot>>) -> (
    u64,
    u64,
    Option<u64>,
);

/// The longest time to live or to idle, in seconds, that `moka` builds a
/// cache with: a thousand years of 365 days. It refuses a longer one by
/// panicking.
pub const LONGEST_DURATION: u64 = 31_536_000_000;

/// Builds an empty cache with `moka`'s `Cache::builder`, `max_capacity`,
/// `time_to_live` and `build`: entries may go unread for as long as they live.
/// `build` panics on a time to live above a thousand years, which is left out.
#[verifier::external_body]
fn build_cache(max_capacity: u64, time_to_live: u64) -> (r: moka::sync::Cache<
    String,
    Arc<Snapshot>,
>)
    requires
        time_to_live <= LONGEST_DURATION,
    ensures
        retained(r) == nothing_retained(),
        limits(r) == (max_capacity, time_to_live, None::<u64>),
{
    moka::sync::Cache::builder().max_capacity(max_capacity).time_to_live(
        std::time::Duration::from_secs(time_to_live),
    ).build()
}

/// Builds an empty cache with `moka`'s `Cache::builder`, `max_capacity`,
/// `time_to_live`, `time_to_idle` and `build`. `build` panics on a time to
/// live or to idle above a thousand years, which is left out.
#[verifier::external_body]
fn build_idle_cache(max_capacity: u64, time_to_live: u64, time_to_idle: u64) -> (r:
    moka::sync::Cache<String, Arc<Snapshot>>)
    requires
        time_to_live <= LONGEST_DURATION,
        time_to_idle <= LONGEST_DURATION,
    ensures
        retained(r) == nothing_retained(),
        limits(r) == (max_capacity, time_to_live, Some(time_to_idle)),
{
    moka::sync::Cache::builder().max_capacity(max_capacity).time_to_live(
        std::time::Duration::from_secs(time_to_live),
    ).time_to_idle(std::time::Duration::from_secs(time_to_idle)).build()
}

/// Reads with `moka`'s `Cache::get`. Whatever comes back was retained under
/// the key; an entry that expired or was evicted does not come back.
#[verifier::external_body]
fn cache_get(cache: &moka::sync::Cache<String, Arc<Snapshot>>, key: &str) -> (r: Option<
    Arc<Snapshot>,
>)
    ensures
        r matches Some(value) ==> retained(*cache).contains_key(key@) && retained(*cache)[key@]
            == *value,
{
    cache.get(key)
}

/// Writes with `moka`'s `Cache::insert`, which replaces any entry under the key.
#[verifier::external_body]
fn cache_insert(cache: &mut moka::sync::Cache<String, Arc<Snapshot>>, key: String, value: Snapshot)
    ensures
        retained(*final(cache)) == retained(*old(cache)).insert(key@, value),
        limits(*final(cache)) == limits(*old(cache)),
{
    cache.insert(key, Arc::new(value));
}

/// Discards one key with `moka`'s `Cache::invalidate`.
#[verifier::external_body]
fn cache_invalidate(cache: &mut moka::sync::Cache<String, Arc<Snapshot>>, key: &str)
    ensures
        retained(*final(cache)) == retained(*old(cache)).remove(key@),
        limits(*final(cache)) == limits(*old(cache)),
{
    cache.invalidate(key);
}

/// Reads the limits back with `moka`'s `Cache::policy` and the `Policy`
/// getters `max_capacity`, `time_to_live` and `time_to_idle`. They are the
/// limits the cache was built with: a policy does not change once built.
#[verifier::external_body]
fn cache_policy(cache: &moka::sync::Cache<String, Arc<Snapshot>>) -> (r: (
    Option<u64>,
    Option<u64>,
    Option<u64>,
))
    ensures
        r == (Some(limits(*cache).0), Some(limits(*cache).1), limits(*cache).2),
{
    let policy = cache.policy();
    (
        policy.max_capacity(),
        policy.time_to_live().map(|d| d.as_secs()),
        policy.time_to_idle().map(|d| d.as_secs()),
    )
}

/// Reads `moka`'s `Cache::entry_count`, an estimate of which nothing is promised.
#[verifier::external_body]
fn cache_entry_count(cache: &moka::sync::Cache<String, Arc<Snapshot>>) -> u64 {
    cache.entry_count()
}

/// The six namespaces of the cache.
#[derive(Clone, Copy, Debug, PartialEq, Eq, Structural)]
pub enum Namespace {
    /// Content pages, by slug.
    Pages,
    /// Blog posts, by slug.
    BlogPosts,
    /// Pages of blog listings, by listing key.
    BlogListings,
    /// The site settings, a single entry.
    Settings,
    /// Pricing agreements, by agreement key.
    Agreements,
    /// Content types, by content-type key.
    ContentTypes,
}

/// The limits of one namespace.
#[derive(Clone, Copy, Debug, PartialEq, Eq, Structural)]
pub struct CacheConfig {
    /// The most entries the namespace holds.
    pub max_capacity: u64,
    /// Seconds an entry lives after it was inserted.
    pub time_to_live: u64,
    /// Seconds an entry may go unread before it is dropped, where that is limited.
    pub time_to_idle: Option<u64>,
}

/// The limits each namespace is built with.
pub open spec fn configured(namespace: Namespace) -> CacheConfig {
    match namespace {
        Namespace::Pages => CacheConfig {
            max_capacity: 100,
            time_to_live: 1800,
            time_to_idle: Some(600u64),
        },
        Namespace::BlogPosts => CacheConfig {
            max_capacity: 500,
            time_to_live: 3600,
            time_to_idle: Some(1800u64),
        },
        Namespace::BlogListings => CacheConfig {
            max_capacity: 50,
            time_to_live: 900,
            time_to_idle: Some(300u64),
        },
        Namespace::Settings => CacheConfig {
            max_capacity: 1,
            time_to_live: 1800,
            time_to_idle: None,
        },
        Namespace::Agreements => CacheConfig {
            max_capacity: 200,
            time_to_live: 3600,
            time_to_idle: Some(1800u64),
        },
        Namespace::ContentTypes => CacheConfig {
            max_capacity: 50,
            time_to_live: 86400,
            time_to_idle: None,
        },
    }
}

/// The limits of a namespace.
pub fn namespace_config(namespace: Namespace) -> (r: CacheConfig)
    ensures
        r == configured(namespace),
{
    match namespace {
        Namespace::Pages => CacheConfig {
            max_capacity: 100,
            time_to_live: 30 * 60,
            time_to_idle: Some(10 * 60),
        },
        Namespace::BlogPosts => CacheConfig {
            max_capacity: 500,
            time_to_live: 60 * 60,
            time_to_idle: Some(30 * 60),
        },
        Namespace::BlogListings => CacheConfig {
            max_capacity: 50,
            time_to_live: 15 * 60,
            time_to_idle: Some(5 * 60),
        },
        Namespace::Settings => CacheConfig {
            max_capacity: 1,
            time_to_live: 30 * 60,
            time_to_idle: None,
        },
        Namespace::Agreements => CacheConfig {
            max_capacity: 200,
            time_to_live: 60 * 60,
            time_to_idle: Some(30 * 60),
        },
        Namespace::ContentTypes => CacheConfig {
            max_capacity: 50,
            time_to_live: 24 * 60 * 60,
            time_to_idle: None,
        },
    }
}

/// Entry counts for monitoring.
#[derive(Debug, Clone, Copy, PartialEq, Eq, Structural)]
pub struct CacheStats {
    pub pages_size: u64,
    pub blog_posts_size: u64,
    pub blog_listings_size: u64,
    pub settings_cached: bool,
    pub agreements_size: u64,
    pub content_types_size: u64,
}

impl CacheStats {
    /// The statistics for the given entry counts. The settings count as
    /// cached when their namespace holds an entry.
    pub fn from_counts(
        pages: u64,
        blog_posts: u64,
        blog_listings: u64,
        settings: u64,
        agreements: u64,
        content_types: u64,
    ) -> (r: CacheStats)
        ensures
            r == (CacheStats {
                pages_size: pages,
                blog_posts_size: blog_posts,
                blog_listings_size: blog_listings,
                settings_cached: settings > 0,
                agreements_size: agreements,
                content_types_size: content_types,
            }),
    {
        CacheStats {
            pages_size: pages,
            blog_posts_size: blog_posts,
            blog_listings_size: blog_listings,
            settings_cached: settings > 0,
            agreements_size: agreements,
            content_types_size: content_types,
        }
    }
}

/// The key of an agreement: scope type, content-type id and object id, with
/// colons between them.
pub open spec fn agreement_key_text(
    scope_type: Seq<char>,
    content_type_id: i32,
    object_id: Seq<char>,
) -> Seq<char> {
    scope_type + ":"@ + integer_text(content_type_id as int) + ":"@ + object_id
}

/// The key of a content type: application label and model name with a colon
/// between them.
pub open spec fn content_type_key_text(app_label: Seq<char>, model: Seq<char>) -> Seq<char> {
    app_label + ":"@ + model
}

/// The key of one page of a blog listing: `blog:`, the category or `all`, a
/// colon, and the page number.
pub open spec fn blog_listing_key_text(category: Option<Seq<char>>, page: i64) -> Seq<char> {
    "blog:"@ + (match category {
        Some(name) => name,
        None => "all"@,
    }) + ":"@ + integer_text(page as int)
}

/// The key under which the warm-up files an agreement: by its scope type and
/// the record it governs, with content type zero where it names none.
pub open spec fn own_key(agreement: Agreement) -> Seq<char> {
    agreement_key_text(
        agreement.scope_type@,
        match agreement.scope_ref_content_type_id {
            Some(id) => id,
            None => 0i32,
        },
        agreement.scope_ref_id@,
    )
}

/// The application cache: one bounded, expiring map per namespace.
pub struct AppCache {
    pages: moka::sync::Cache<String, Arc<Snapshot>>,
    blog_posts: moka::sync::Cache<String, Arc<Snapshot>>,
    blog_listings: moka::sync::Cache<String, Arc<Snapshot>>,
    settings: moka::sync::Cache<String, Arc<Snapshot>>,
    agreements: moka::sync::Cache<String, Arc<Snapshot>>,
    content_types: moka::sync::Cache<String, Arc<Snapshot>>,
}

impl AppCache {
    /// What a namespace may still hand out: for each key the snapshot last
    /// inserted under it and not invalidated since.
    pub closed spec fn entries(self, namespace: Namespace) -> Map<Seq<char>, Snapshot> {
        match namespace {
            Namespace::Pages => retained(self.pages),
            Namespace::BlogPosts => retained(self.blog_posts),
            Namespace::BlogListings => retained(self.blog_listings),
            Namespace::Settings => retained(self.settings),
            Namespace::Agreements => retained(self.agreements),
            Namespace::ContentTypes => retained(self.content_types),
        }
    }

    /// The limits a namespace was built with.
    pub closed spec fn config(self, namespace: Namespace) -> CacheConfig {
        let made = match namespace {
            Namespace::Pages => limits(self.pages),
            Namespace::BlogPosts => limits(self.blog_posts),
            Namespace::BlogListings => limits(self.blog_listings),
            Namespace::Settings => limits(self.settings),
            Namespace::Agreements => limits(self.agreements),
            Namespace::ContentTypes => limits(self.content_types),
        };
        CacheConfig { max_capacity: made.0, time_to_live: made.1, time_to_idle: made.2 }
    }

    /// Whether every namespace has its configured limits.
    pub open spec fn well_configured(self) -> bool {
        forall|namespace: Namespace| #[trigger] self.config(namespace) == configured(namespace)
    }

    /// Whether each namespace of `self` has the limits it had in `before`, or
    /// its configured ones.
    pub open spec fn keeps_limits(self, before: AppCache) -> bool {
        forall|namespace: Namespace| #[trigger]
            self.config(namespace) == before.config(namespace) || self.config(namespace)
                == configured(namespace)
    }

    /// Whether `self` differs from `before` in the entries of `namespace` at most.
    pub open spec fn same_except(self, before: AppCache, namespace: Namespace) -> bool {
        &&& forall|other: Namespace|
            other != namespace ==> #[trigger] self.entries(other) == before.entries(other)
        &&& self.keeps_limits(before)
    }

    /// Whether `self` is `before` with `snapshot` filed under `key` of
    /// `namespace`, in place of whatever was there.
    pub open spec fn is_with(
        self,
        before: AppCache,
        namespace: Namespace,
        key: Seq<char>,
        snapshot: Snapshot,
    ) -> bool {
        &&& self.entries(namespace) == before.entries(namespace).insert(key, snapshot)
        &&& self.same_except(before, namespace)
    }

    /// Whether `self` is `before` with the page `slug` discarded: the slug is
    /// gone from the pages, the blog listings are empty, and blog posts,
    /// settings, agreements and content types are as they were.
    pub open spec fn is_without_page(self, before: AppCache, slug: Seq<char>) -> bool {
        &&& self.entries(Namespace::Pages) == before.entries(Namespace::Pages).remove(slug)
        &&& self.entries(Namespace::BlogListings) == nothing_retained()
        &&& self.entries(Namespace::BlogPosts) == before.entries(Namespace::BlogPosts)
        &&& self.entries(Namespace::Settings) == before.entries(Namespace::Settings)
        &&& self.entries(Namespace::Agreements) == before.entries(Namespace::Agreements)
        &&& self.entries(Namespace::ContentTypes) == before.entries(Namespace::ContentTypes)
        &&& self.keeps_limits(before)
    }

    fn build(namespace: Namespace) -> (r: moka::sync::Cache<String, Arc<Snapshot>>)
        ensures
            retained(r) == nothing_retained(),
            limits(r) == (
                configured(namespace).max_capacity,
                configured(namespace).time_to_live,
                configured(namespace).time_to_idle,
            ),
    {
        let config = namespace_config(namespace);
        match config.time_to_idle {
            Some(idle) => build_idle_cache(config.max_capacity, config.time_to_live, idle),
            None => build_cache(config.max_capacity, config.time_to_live),
        }
    }

    /// The limits a namespace was built with.
    pub fn limits(&self, namespace: Namespace) -> (r: CacheConfig)
        ensures
            r == self.config(namespace),
    {
        let policy = match namespace {
            Namespace::Pages => cache_policy(&self.pages),
            Namespace::BlogPosts => cache_policy(&self.blog_posts),
            Namespace::BlogListings => cache_policy(&self.blog_listings),
            Namespace::Settings => cache_policy(&self.settings),
            Namespace::Agreements => cache_policy(&self.agreements),
            Namespace::ContentTypes => cache_policy(&self.content_types),
        };
        match (policy.0, policy.1) {
            (Some(max_capacity), Some(time_to_live)) => CacheConfig {
                max_capacity,
                time_to_live,
                time_to_idle: policy.2,
            },
            _ => vstd::pervasive::unreached(),
        }
    }

    /// An empty cache, each namespace with its configured limits.
    pub fn new() -> (r: AppCache)
        ensures
            forall|namespace: Namespace| #[trigger] r.entries(namespace) == nothing_retained(),
            r.well_configured(),
    {
        AppCache {
            pages: Self::build(Namespace::Pages),
            blog_posts: Self::build(Namespace::BlogPosts),
            blog_listings: Self::build(Namespace::BlogListings),
            settings: Self::build(Namespace::Settings),
            agreements: Self::build(Namespace::Agreements),
            content_types: Self::build(Namespace::ContentTypes),
        }
    }

    /// The key of an agreement.
    pub fn agreement_key(scope_type: &str, content_type_id: i32, object_id: &str) -> (r: String)
        ensures
            r@ == agreement_key_text(scope_type@, content_type_id, object_id@),
    {
        let number = integer_to_text(content_type_id as i64);
        String::from_str(scope_type).concat(":").concat(number.as_str()).concat(":").concat(
            object_id,
        )
    }

    /// The key of a content type.
    pub fn content_type_key(app_label: &str, model: &str) -> (r: String)
        ensures
            r@ == content_type_key_text(app_label@, model@),
    {
        join3(app_label, ":", model)
    }

    /// The key of one page of a blog listing.
    pub fn blog_listing_key(category: Option<&str>, page: i64) -> (r: String)
        ensures
            r@ == blog_listing_key_text(
                match category {
                    Some(name) => Some(name@),
                    None => None,
                },
                page,
            ),
    {
        let number = integer_to_text(page);
        let name = match category {
            Some(name) => name,
            None => "all",
        };
        String::from_str("blog:").concat(name).concat(":").concat(number.as_str())
    }

    /// Looks a key up in a namespace. A snapshot that comes back is the one
    /// last inserted under the key; an entry that has expired, was evicted or
    /// invalidated does not come back.
    pub fn get(&self, namespace: Namespace, key: &str) -> (r: Option<Arc<Snapshot>>)
        ensures
            r matches Some(snapshot) ==> self.entries(namespace).contains_key(key@)
                && self.entries(namespace)[key@] == *snapshot,
    {
        match namespace {
            Namespace::Pages => cache_get(&self.pages, key),
            Namespace::BlogPosts => cache_get(&self.blog_posts, key),
            Namespace::BlogListings => cache_get(&self.blog_listings, key),
            Namespace::Settings => cache_get(&self.settings, key),
            Namespace::Agreements => cache_get(&self.agreements, key),
            Namespace::ContentTypes => cache_get(&self.content_types, key),
        }
    }

    /// Files a snapshot under a key of a namespace, in place of any other.
    pub fn insert(&mut self, namespace: Namespace, key: String, snapshot: Snapshot)
        ensures
            final(self).is_with(*old(self), namespace, key@, snapshot),
    {
        match namespace {
            Namespace::Pages => cache_insert(&mut self.pages, key, snapshot),
            Namespace::BlogPosts => cache_insert(&mut self.blog_posts, key, snapshot),
            Namespace::BlogListings => cache_insert(&mut self.blog_listings, key, snapshot),
            Namespace::Settings => cache_insert(&mut self.settings, key, snapshot),
            Namespace::Agreements => cache_insert(&mut self.agreements, key, snapshot),
            Namespace::ContentTypes => cache_insert(&mut self.content_types, key, snapshot),
        }
    }

    /// Discards what a namespace holds under a key.
    pub fn invalidate(&mut self, namespace: Namespace, key: &str)
        ensures
            final(self).entries(namespace) == old(self).entries(namespace).remove(key@),
            final(self).same_except(*old(self), namespace),
    {
        match namespace {
            Namespace::Pages => cache_invalidate(&mut self.pages, key),
            Namespace::BlogPosts => cache_invalidate(&mut self.blog_posts, key),
            Namespace::BlogListings => cache_invalidate(&mut self.blog_listings, key),
            Namespace::Settings => cache_invalidate(&mut self.settings, key),
            Namespace::Agreements => cache_invalidate(&mut self.agreements, key),
            Namespace::ContentTypes => cache_invalidate(&mut self.content_types, key),
        }
    }

    /// Discards everything a namespace holds. The namespace starts over with
    /// an empty map of its configured limits: the map it had is dropped, not
    /// asked to forget, because `moka` forgets by timestamp and would keep an
    /// entry written in the very tick of the clock in which it is told to.
    pub fn invalidate_namespace(&mut self, namespace: Namespace)
        ensures
            final(self).entries(namespace) == nothing_retained(),
            final(self).config(namespace) == configured(namespace),
            final(self).same_except(*old(self), namespace),
    {
        let fresh = Self::build(namespace);
        match namespace {
            Namespace::Pages => {
                self.pages = fresh;
            },
            Namespace::BlogPosts => {
                self.blog_posts = fresh;
            },
            Namespace::BlogListings => {
                self.blog_listings = fresh;
            },
            Namespace::Settings => {
                self.settings = fresh;
            },
            Namespace::Agreements => {
                self.agreements = fresh;
            },
            Namespace::ContentTypes => {
                self.content_types = fresh;
            },
        }
    }

    /// Discards everything in every namespace.
    pub fn invalidate_all(&mut self)
        ensures
            forall|namespace: Namespace| #[trigger]
                final(self).entries(namespace) == nothing_retained(),
            final(self).well_configured(),
    {
        self.invalidate_namespace(Namespace::Pages);
        self.invalidate_namespace(Namespace::BlogPosts);
        self.invalidate_namespace(Namespace::BlogListings);
        self.invalidate_namespace(Namespace::Settings);
        self.invalidate_namespace(Namespace::Agreements);
        self.invalidate_namespace(Namespace::ContentTypes);
    }

    /// Discards a page by its slug, and with it every blog listing: listings
    /// carry summaries of what is published and would otherwise go stale.
    /// Every other namespace is left as it is, and so is every other page.
    pub fn invalidate_page(&mut self, slug: &str)
        ensures
            final(self).is_without_page(*old(self), slug@),
    {
        self.invalidate(Namespace::Pages, slug);
        self.invalidate_namespace(Namespace::BlogListings);
    }

    /// The current entry counts, as the namespaces estimate them.
    pub fn stats(&self) -> (r: CacheStats)
    {
        CacheStats::from_counts(
            cache_entry_count(&self.pages),
            cache_entry_count(&self.blog_posts),
            cache_entry_count(&self.blog_listings),
            cache_entry_count(&self.settings),
            cache_entry_count(&self.agreements),
            cache_entry_count(&self.content_types),
        )
    }
}

impl Default for AppCache {
    fn default() -> (r: AppCache)
        ensures
            forall|namespace: Namespace| #[trigger] r.entries(namespace) == nothing_retained(),
            r.well_configured(),
    {
        AppCache::new()
    }
}

/// A cache whose namespaces have their configured limits keeps them through
/// every step that keeps limits.
pub proof fn lemma_limits_stay_configured(before: AppCache, after: AppCache)
    requires
        before.well_configured(),
        after.keeps_limits(before),
    ensures
        after.well_configured(),
{
    assert forall|namespace: Namespace| #[trigger]
        after.config(namespace) == configured(namespace) by {
        assert(before.config(namespace) == configured(namespace));
    }
}

/// Filing a page under a slug and then discarding that slug leaves nothing
/// under it among the pages and nothing at all among the blog listings, while
/// blog posts, settings, agreements and content types keep what they had
/// before the page was filed, and the pages keep every other page.
pub proof fn lemma_invalidate_page_after_insert(
    before: AppCache,
    inserted: AppCache,
    after: AppCache,
    slug: Seq<char>,
    page: Snapshot,
)
    requires
        inserted.is_with(before, Namespace::Pages, slug, page),
        after.is_without_page(inserted, slug),
    ensures
        !after.entries(Namespace::Pages).contains_key(slug),
        after.entries(Namespace::Pages) == before.entries(Namespace::Pages).remove(slug),
        forall|key: Seq<char>| !after.entries(Namespace::BlogListings).contains_key(key),
        after.entries(Namespace::Settings) == before.entries(Namespace::Settings),
        after.entries(Namespace::Agreements) == before.entries(Namespace::Agreements),
        after.entries(Namespace::ContentTypes) == before.entries(Namespace::ContentTypes),
        after.entries(Namespace::BlogPosts) == before.entries(Namespace::BlogPosts),
        forall|key: Seq<char>|
            key != slug && before.entries(Namespace::Pages).contains_key(key)
                ==> after.entries(Namespace::Pages).contains_key(key) && after.entries(
                Namespace::Pages,
            )[key] == before.entries(Namespace::Pages)[key],
{
    assert(after.entries(Namespace::Pages) =~= before.entries(Namespace::Pages).remove(slug));
}

/// What the store returned for each step of a warm-up. A step whose read
/// failed has `None`.
#[derive(Debug)]
pub struct WarmBatch {
    /// The site settings.
    pub settings: Option<CmsSettings>,
    /// The homepage.
    pub homepage: Option<CmsPage>,
    /// The first page of the listing of all posts.
    pub blog_listing: Option<Vec<BlogPostSummary>>,
    /// All content types.
    pub content_types: Option<Vec<ContentType>>,
    /// The vendor and gas-vendor pricing agreements.
    pub agreements: Option<Vec<Agreement>>,
}

/// Which steps of a warm-up had something to work with. A step that is
/// `false` here failed at the store and left its namespace as it was.
#[derive(Clone, Copy, Debug, PartialEq, Eq, Structural)]
pub struct WarmReport {
    pub settings: bool,
    pub homepage: bool,
    pub blog_listing: bool,
    pub content_types: bool,
    pub agreements: bool,
}

/// The renderable form of a page, where it has a published snapshot.
pub open spec fn parsed_page(page: CmsPage) -> Option<ParsedPage> {
    match page.published_snapshot {
        Some(snapshot) => Some(
            ParsedPage {
                slug: page.slug,
                title: page.title,
                meta: snapshot.meta,
                blocks: snapshot.blocks,
                template_key: page.template_key,
            },
        ),
        None => None,
    }
}

/// `entries` after each of the first `n` content types was filed under its key.
pub open spec fn with_content_types(
    entries: Map<Seq<char>, Snapshot>,
    rows: Seq<ContentType>,
    n: int,
) -> Map<Seq<char>, Snapshot>
    decreases n,
{
    if n <= 0 {
        entries
    } else {
        with_content_types(entries, rows, n - 1).insert(
            content_type_key_text(rows[n - 1].app_label@, rows[n - 1].model@),
            Snapshot::ContentType(rows[n - 1]),
        )
    }
}

/// `entries` after each of the first `n` agreements that is a vendor or
/// gas-vendor pricing agreement active at `now` was filed under its key.
pub open spec fn with_agreements(
    entries: Map<Seq<char>, Snapshot>,
    rows: Seq<Agreement>,
    now: Timestamp,
    n: int,
) -> Map<Seq<char>, Snapshot>
    decreases n,
{
    if n <= 0 {
        entries
    } else if vendor_agreement_active(rows[n - 1], now) {
        with_agreements(entries, rows, now, n - 1).insert(
            own_key(rows[n - 1]),
            Snapshot::Agreement(rows[n - 1]),
        )
    } else {
        with_agreements(entries, rows, now, n - 1)
    }
}

/// What a warm-up makes of the entries of a namespace.
pub open spec fn warmed(
    entries: Map<Seq<char>, Snapshot>,
    namespace: Namespace,
    batch: WarmBatch,
    now: Timestamp,
) -> Map<Seq<char>, Snapshot> {
    match namespace {
        Namespace::Settings => match batch.settings {
            Some(settings) => entries.insert("settings"@, Snapshot::Settings(settings)),
            None => entries,
        },
        Namespace::Pages => match batch.homepage {
            Some(page) => match parsed_page(page) {
                Some(parsed) => entries.insert("home"@, Snapshot::Page(parsed)),
                None => entries,
            },
            None => entries,
        },
        Namespace::BlogListings => match batch.blog_listing {
            Some(posts) => entries.insert(
                blog_listing_key_text(None, 1),
                Snapshot::Listing(posts),
            ),
            None => entries,
        },
        Namespace::ContentTypes => match batch.content_types {
            Some(rows) => with_content_types(entries, rows@, rows@.len() as int),
            None => entries,
        },
        Namespace::Agreements => match batch.agreements {
            Some(rows) => with_agreements(entries, rows@, now, rows@.len() as int),
            None => entries,
        },
        Namespace::BlogPosts => entries,
    }
}

impl AppCache {
    /// Files each content type under its key, in the order of the list.
    fn insert_content_types(&mut self, rows: Vec<ContentType>)
        ensures
            final(self).entries(Namespace::ContentTypes) == with_content_types(
                old(self).entries(Namespace::ContentTypes),
                rows@,
                rows@.len() as int,
            ),
            final(self).same_except(*old(self), Namespace::ContentTypes),
    {
        let ghost all = rows@;
        let ghost start = *self;
        let mut rest = rows;
        let total = rest.len();
        let mut done: usize = 0;
        while rest.len() > 0
            invariant
                all.len() == total,
                done + rest@.len() == all.len(),
                rest@ == all.subrange(done as int, all.len() as int),
                self.entries(Namespace::ContentTypes) == with_content_types(
                    start.entries(Namespace::ContentTypes),
                    all,
                    done as int,
                ),
                self.same_except(start, Namespace::ContentTypes),
            decreases rest@.len(),
        {
            let row = rest.remove(0);
            assert(row == all[done as int]);
            let key = AppCache::content_type_key(row.app_label.as_str(), row.model.as_str());
            self.insert(Namespace::ContentTypes, key, Snapshot::ContentType(row));
            done = done + 1;
            assert(rest@ =~= all.subrange(done as int, all.len() as int));
        }
    }

    /// Files each vendor or gas-vendor pricing agreement that is active at
    /// `now` under its key, in the order of the list.
    fn insert_agreements(&mut self, rows: Vec<Agreement>, now: Timestamp)
        ensures
            final(self).entries(Namespace::Agreements) == with_agreements(
                old(self).entries(Namespace::Agreements),
                rows@,
                now,
                rows@.len() as int,
            ),
            final(self).same_except(*old(self), Namespace::Agreements),
    {
        let ghost all = rows@;
        let ghost start = *self;
        let mut rest = rows;
        let total = rest.len();
        let mut done: usize = 0;
        while rest.len() > 0
            invariant
                all.len() == total,
                done + rest@.len() == all.len(),
                rest@ == all.subrange(done as int, all.len() as int),
                self.entries(Namespace::Agreements) == with_agreements(
                    start.entries(Namespace::Agreements),
                    all,
                    now,
                    done as int,
                ),
                self.same_except(start, Namespace::Agreements),
            decreases rest@.len(),
        {
            let row = rest.remove(0);
            assert(row == all[done as int]);
            if is_active_vendor_agreement(&row, now) {
                let content_type_id: i32 = match row.scope_ref_content_type_id {
                    Some(id) => id,
                    None => 0,
                };
                let key = AppCache::agreement_key(
                    row.scope_type.as_str(),
                    content_type_id,
                    row.scope_ref_id.as_str(),
                );
                self.insert(Namespace::Agreements, key, Snapshot::Agreement(row));
            }
            done = done + 1;
            assert(rest@ =~= all.subrange(done as int, all.len() as int));
        }
    }

    /// Refills the cache from what the store returned for a warm-up.
    ///
    /// The five steps are independent: each one whose read succeeded files
    /// what it read, and each one whose read failed leaves its namespace as
    /// it was, whatever became of the others. The settings go under
    /// `settings`, the homepage under `home` where it has a published
    /// snapshot, the listing under the key of the first page of all posts,
    /// and content types and active agreements each under their own key.
    pub fn warm(&mut self, batch: WarmBatch, now: Timestamp) -> (r: WarmReport)
        ensures
            forall|namespace: Namespace| #[trigger]
                final(self).entries(namespace) == warmed(
                    old(self).entries(namespace),
                    namespace,
                    batch,
                    now,
                ),
            final(self).keeps_limits(*old(self)),
            r == (WarmReport {
                settings: batch.settings.is_some(),
                homepage: batch.homepage.is_some(),
                blog_listing: batch.blog_listing.is_some(),
                content_types: batch.content_types.is_some(),
                agreements: batch.agreements.is_some(),
            }),
    {
        let report = WarmReport {
            settings: batch.settings.is_some(),
            homepage: batch.homepage.is_some(),
            blog_listing: batch.blog_listing.is_some(),
            content_types: batch.content_types.is_some(),
            agreements: batch.agreements.is_some(),
        };
        let WarmBatch { settings, homepage, blog_listing, content_types, agreements } = batch;
        match settings {
            Some(settings) => {
                self.insert(
                    Namespace::Settings,
                    "settings".to_owned(),
                    Snapshot::Settings(settings),
                );
            },
            None => {},
        }
        match homepage {
            Some(page) => match page.parse() {
                Some(parsed) => {
                    self.insert(Namespace::Pages, "home".to_owned(), Snapshot::Page(parsed));
                },
                None => {},
            },
            None => {},
        }
        match blog_listing {
            Some(posts) => {
                let key = AppCache::blog_listing_key(None, 1);
                self.insert(Namespace::BlogListings, key, Snapshot::Listing(posts));
            },
            None => {},
        }
        match content_types {
            Some(rows) => {
                self.insert_content_types(rows);
            },
            None => {},
        }
        match agreements {
            Some(rows) => {
                self.insert_agreements(rows, now);
            },
            None => {},
        }
        report
    }
}

/// Seconds between two warm-ups.
pub const WARM_INTERVAL_SECS: u64 = 600;

/// Keeps warm-ups from overlapping: a tick that comes while the previous
/// warm-up is still running is skipped.
#[derive(Debug)]
pub struct Warmer {
    running: bool,
}

impl Warmer {
    /// Whether a warm-up is under way.
    pub closed spec fn is_running(self) -> bool {
        self.running
    }

    /// A warmer with no warm-up under way.
    pub fn new() -> (r: Warmer)
        ensures
            !r.is_running(),
    {
        Warmer { running: false }
    }

    /// Called at each tick: says whether a warm-up is to start now. It is,
    /// unless one is still under way.
    pub fn on_tick(&mut self) -> (start: bool)
        ensures
            start == !old(self).is_running(),
            final(self).is_running(),
    {
        let start = !self.running;
        self.running = true;
        start
    }

    /// Called when a warm-up has ended, however it went.
    pub fn on_finished(&mut self)
        ensures
            !final(self).is_running(),
    {
        self.running = false;
    }
}

} // verus!

//! Content records: pages, posts and site settings.

pub mod blog;
pub mod page;

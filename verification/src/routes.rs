//! What the page and blog handlers decide before anything is rendered.

pub mod blog;
pub mod cms;

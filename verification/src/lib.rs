//! Pricing engine for dive excursions: exact decimal money arithmetic,
//! agreement and price resolution, and the snapshot cache in front of the store.

pub mod cache;
pub mod models;
pub mod pricing;
pub mod routes;
pub mod text;

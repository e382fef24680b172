//! Pricing calculations for dive excursions.

pub mod amount;
pub mod calculators;
pub mod models;
pub mod queries;
pub mod requests;
pub mod responses;
pub mod services;

pub use calculators::round_money;
pub use services::{BoatCostResult, ComponentPricingResult, GasFillResult, PricingError};

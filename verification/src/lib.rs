//! A small collectible-card library: a validated card data model, a
//! randomized card factory, and a pack with a sealed/opened lifecycle
//! and a pick-by-identifier operation.

pub mod card;
pub mod factory;
pub mod pack;

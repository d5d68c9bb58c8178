//! A marketplace backend: users, product listings, orders and escrow, with the
//! order and escrow lifecycle stated as contracts over a model of the store.
pub mod records;
pub mod validation;
pub mod model;
pub mod market;
pub mod laws;

//! Data model for a third-party character-sheet API.
//!
//! A character arrives as a flat list of tagged property records. This crate
//! rebuilds the implicit parent/child forest those records encode, can
//! serialize a forest back to the flat form, and folds an ordered, filtered
//! record list into a compact display-ready character summary.

pub mod flat_model;
pub mod frac;
pub mod dnd_model;
pub mod generic_model;
pub mod text;
pub mod tree_model;

//! Predicates shared with generic (non-weapon) inventory items.

pub mod filters;

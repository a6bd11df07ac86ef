//! The compact weapon model, its per-field predicates, and the query engine.

pub mod filters;
pub mod lib;
pub mod structs;

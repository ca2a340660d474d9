//! Build-time metadata exported into a flat, string-keyed namespace.
//!
//! The core of the crate is a flattening engine: it converts a bounded-depth
//! structured value (a named record or map of scalars and of nested named
//! records) into a flat mapping from composed, case-normalized keys to
//! string-encoded values, enforcing a strict shape contract and reporting
//! precise violations.

pub mod decimal;
pub mod errors;
pub mod flat_map;
pub mod git;
pub mod keys;
pub mod plugin_items;
pub mod scalar;
pub mod serialize_to_env;
pub mod text;
pub mod timestamp;

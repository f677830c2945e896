//! The persistence layer's rules: errors reported by the database and how
//! they reach the domain, decoding of stored values, and row mapping.

pub mod pattern;
pub mod errors;
pub mod foreign_keys;
pub mod mapping;
pub mod json;
pub mod rows;
pub mod filter;

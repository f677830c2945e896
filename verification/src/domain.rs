//! The core domain: entities, their validation rules, domain services and
//! the errors they report.

pub mod errors;
pub mod models;
pub mod services;

//! The HTTP API's rules: its errors, the requests and responses it
//! exchanges, and authentication.

pub mod errors;
pub mod dto;
pub mod auth;
pub mod services;
pub mod laws;
pub mod mocks;
pub mod fixtures;

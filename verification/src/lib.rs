//! Aqio: the domain, persistence and API rules of an event management
//! platform (events, users, categories, invitations and registrations).

pub mod text;
pub mod ids;
pub mod clock;
pub mod domain;
pub mod models;
pub mod persistence;
pub mod api;

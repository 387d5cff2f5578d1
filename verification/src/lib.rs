//! Verified core of a small issue tracker: authorization tiers, entity
//! lifecycle rules, notification dispatch and photo handling.

pub mod config;
pub mod errors;
pub mod laws;
pub mod mail;
pub mod models;
pub mod notify;
pub mod photo;
pub mod store;
pub mod table;
pub mod text;

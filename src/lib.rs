//! A small client for a cloud data warehouse's HTTP SQL interface: it builds
//! the login and query requests, and reads their JSON replies.
pub mod client;
pub mod error;
pub mod json;
pub mod laws;
pub mod request;

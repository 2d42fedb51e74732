//! Contribution calendar backend: the decisions behind fetching a GitHub
//! contribution calendar, keeping it in a per-user cache file for a few
//! minutes, and addressing the access token in the platform credential store.
//!
//! The crate performs no input or output itself. Each flow is a state machine
//! that names the next outside action and takes its outcome as an event.

pub mod auth;
pub mod cache;
pub mod day;
pub mod flow;
pub mod json;
pub mod laws;
pub mod request;
pub mod response;
pub mod store;

//! A typed client library for a GitLab-style REST API: it plans
//! authenticated requests against the versioned API root and checks the
//! answers that come back. Sending, and decoding the JSON of answers, are
//! left to the HTTP layer that embeds it.
pub mod auth;
pub mod builder;
pub mod client;
pub mod commit;
pub mod config;
pub mod error;
pub mod hook;
pub mod outside;
pub mod repo;
pub mod status;
pub mod text;

pub use error::{Error, Result};

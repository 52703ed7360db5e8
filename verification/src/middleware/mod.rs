//! Admission of requests by bearer token.
pub mod auth;

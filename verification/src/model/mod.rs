//! Data handled by the service.
pub mod app;
pub mod auth;
pub mod object_id;

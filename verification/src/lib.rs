//! Verified core of a small multi-tenant application service: user
//! registration and login with bcrypt-hashed passwords and HS256 tokens,
//! bearer-token admission of requests (the token read from the header,
//! its signature and expiry checked), and the owner-scoped management of
//! applications.  The HTTP server and the MongoDB calls live outside this
//! crate; they hand it the request headers and what the collections
//! returned, and act on the steps and answers it gives back.
pub mod clock;
pub mod config;
pub mod crypto;
pub mod middleware;
pub mod model;
pub mod handler;

//! Users, and the bodies of the authentication requests and replies.
use vstd::prelude::*;

use crate::model::object_id::DocId;

verus! {

/// A registered user as stored in the `users` collection.  Times are
/// milliseconds since the Unix epoch (UTC).
pub struct User {
    pub id: Option<DocId>,
    pub email: String,
    pub password_hash: String,
    pub created_at: i64,
    pub updated_at: i64,
}

/// Body of a login request.
pub struct LoginRequest {
    pub email: String,
    pub password: String,
}

/// Body of a registration request.
pub struct RegisterRequest {
    pub email: String,
    pub password: String,
}

/// The token handed out by a successful login and its lifetime in seconds.
pub struct TokenResponse {
    pub token: String,
    pub expires_in: i64,
}

/// Data of a successful login: the stored user and the token issued.
pub struct LoginResponse {
    pub user: User,
    pub token: TokenResponse,
}

/// A data payload that carries one human-readable message.
pub struct Message {
    pub message: String,
}

} // verus!

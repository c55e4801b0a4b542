//! Authentication data, as plain values.
//!
//! Token issuance and verification are external collaborators; the
//! library holds the claims a verified token carries and the one decision
//! taken on them here, the expiry check.

use vstd::prelude::*;

verus! {

/// A login request body.
pub struct LoginRequest {
    pub nickname: String,
    pub password: String,
}

/// A login response body: the issued token and its expiry, rendered.
pub struct LoginResponse {
    pub token: String,
    pub expires_at: String,
}

/// The claims carried in an authentication token.
pub struct UserClaims {
    pub user_id: String,
    pub nickname: String,
    /// Expiry, as seconds since the epoch.
    pub exp: i64,
}

impl UserClaims {
    /// Whether the claims are expired at the given time, in seconds since
    /// the epoch.
    pub fn is_expired(&self, now: i64) -> (r: bool)
        ensures
            r == (self.exp < now),
    {
        self.exp < now
    }
}

} // verus!

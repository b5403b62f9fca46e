//! API keys and login responses.

use vstd::prelude::*;

use crate::models::records::Timestamp;

verus! {

/// API key metadata (never includes the key itself).
#[derive(Debug, Clone)]
pub struct ApiKeyInfo {
    pub created_at: Timestamp,
    pub expires_at: Option<Timestamp>,
    pub id: i64,
    pub last_used_at: Option<Timestamp>,
    pub name: String,
    pub user_id: i64,
}

/// Returned exactly once, when a key is created.
#[derive(Debug, Clone)]
pub struct ApiKeyMdl {
    pub created_at: Timestamp,
    pub expires_at: Option<Timestamp>,
    pub id: i64,
    pub key: String,
    pub last_used_at: Option<Timestamp>,
    pub name: String,
    pub user_id: i64,
}

impl ApiKeyMdl {
    /// The stored metadata together with the plaintext key.
    pub fn from_info(info: ApiKeyInfo, key: String) -> (r: Self)
        ensures
            r.created_at == info.created_at,
            r.expires_at == info.expires_at,
            r.id == info.id,
            r.key == key,
            r.last_used_at == info.last_used_at,
            r.name == info.name,
            r.user_id == info.user_id,
    {
        ApiKeyMdl {
            created_at: info.created_at,
            expires_at: info.expires_at,
            id: info.id,
            key,
            last_used_at: info.last_used_at,
            name: info.name,
            user_id: info.user_id,
        }
    }
}

/// Answer of `POST /auth/login`.
#[derive(Debug, Clone)]
pub struct AuthUrlResponse {
    pub auth_url: String,
}

} // verus!

//! Request bodies. Names and fields mirror the public server's OpenAPI
//! schemas; UUIDs are held as their 128-bit values.

use vstd::prelude::*;

use crate::models::records::{Format, Role};

verus! {

#[derive(Debug, Clone)]
pub struct CommitQuery {
    pub limit: Option<i64>,
    pub page: Option<i64>,
    pub source_id: Option<u128>,
    pub user_id: Option<i64>,
}

#[derive(Debug, Clone)]
pub struct CreateApiKey {
    pub name: String,
}

#[derive(Debug, Clone)]
pub struct CreateSource {
    pub name: String,
    /// Empty means "just the caller".
    pub user_ids: Vec<i64>,
}

#[derive(Debug, Clone)]
pub struct CreateUser {
    pub email: String,
    pub name: Option<String>,
}

#[derive(Debug, Clone)]
pub struct FunctionQuery {
    pub commit_id: Option<i64>,
    /// Keep only functions that carry at least one of these constraint GUIDs.
    pub constraints: Option<Vec<u128>>,
    pub format: Option<Format>,
    pub guids: Option<Vec<u128>>,
    pub limit: Option<i64>,
    pub page: Option<i64>,
    pub source_id: Option<u128>,
    /// Keep only functions whose source carries at least one of these tags.
    pub source_tags: Option<Vec<String>>,
    pub symbol_id: Option<i64>,
    pub target_id: Option<i64>,
}

#[derive(Debug, Clone)]
pub struct SourceQuery {
    pub exact: Option<bool>,
    pub limit: Option<i64>,
    pub name: Option<String>,
    pub page: Option<i64>,
    pub user_id: Option<i64>,
}

#[derive(Debug, Clone)]
pub struct PutSource {
    pub name: Option<String>,
    /// Admin only.
    pub tags: Option<Vec<String>>,
    pub user_ids: Option<Vec<i64>>,
}

#[derive(Debug, Clone)]
pub struct SymbolQuery {
    pub exact: Option<bool>,
    pub limit: Option<i64>,
    pub name: Option<String>,
    pub page: Option<i64>,
}

#[derive(Debug, Clone)]
pub struct TargetQuery {
    pub arch: Option<String>,
    pub platform: Option<String>,
}

#[derive(Debug, Clone)]
pub struct TypeQuery {
    pub exact: Option<bool>,
    pub format: Option<Format>,
    pub limit: Option<i64>,
    pub name: Option<String>,
    pub page: Option<i64>,
}

#[derive(Debug, Clone)]
pub struct UserQuery {
    pub exact: Option<bool>,
    pub limit: Option<i64>,
    pub name: Option<String>,
    pub page: Option<i64>,
    pub role: Option<Role>,
}

#[derive(Debug, Clone)]
pub struct ChangeRole {
    pub role: Role,
}

#[derive(Debug, Clone)]
pub struct ChangeUsername {
    pub username: String,
}

#[derive(Debug, Clone)]
pub struct UploadFileJson {
    pub description: Option<String>,
    /// Base64 (standard alphabet) encoded `.warp` file. Max 64 MiB decoded.
    pub file: String,
    pub name: String,
    pub source: u128,
}

/// `GET /search` query string.
#[derive(Debug, Clone)]
pub struct SearchQuery {
    pub q: Option<String>,
    pub kind: Option<String>,
    pub limit: Option<i64>,
    pub offset: Option<i64>,
    pub function_guid: Option<u128>,
    pub commit_id: Option<i64>,
    pub source_id: Option<u128>,
    pub source_tags: Option<Vec<String>>,
    pub retrieve_data: Option<bool>,
}

/// `POST /functions/data` (batch fetch used by the Binary Ninja plugin).
#[derive(Debug, Clone)]
pub struct FunctionIds {
    pub ids: Vec<i64>,
}

/// `POST /types/data` (batch fetch used by the Binary Ninja plugin).
#[derive(Debug, Clone)]
pub struct TypeIds {
    pub ids: Vec<u128>,
}

#[derive(Debug, Clone)]
pub struct OAuthCallback {
    pub code: String,
    pub state: String,
}

} // verus!

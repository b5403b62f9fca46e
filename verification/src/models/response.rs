//! Response bodies.

use vstd::prelude::*;

use crate::models::records::Timestamp;

verus! {

#[derive(Debug, Clone)]
pub struct StatusResponse {
    pub status: String,
}

impl StatusResponse {
    /// The answer of `GET /status`.
    pub fn ok() -> (r: Self)
        ensures
            r.status@ == "OK"@,
    {
        StatusResponse { status: String::from_str("OK") }
    }
}

#[derive(Debug, Clone)]
pub struct PushResponse {
    pub commit_id: i64,
}

/// One hit from `GET /search`.
#[derive(Debug, Clone)]
pub struct SearchIndexRow {
    /// `source` | `function` | `type` | `symbol`
    pub kind: String,
    pub id: String,
    pub name: Option<String>,
    pub source_id: Option<u128>,
    pub commit_id: Option<i64>,
    pub created_at: Timestamp,
    pub function_guid: Option<u128>,
    pub symbol_id: Option<i64>,
    /// WARP function or type bytes when `retrieve_data=true`.
    pub data: Option<Vec<u8>>,
}

#[derive(Debug, Clone)]
pub struct SearchResponse {
    pub items: Vec<SearchIndexRow>,
    pub limit: i64,
    pub offset: i64,
    pub total: i64,
}

} // verus!

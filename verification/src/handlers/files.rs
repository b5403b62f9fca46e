//! Pushing `.warp` files: how data gets into the server.

use base64::Engine;
use vstd::prelude::*;
use vstd::utf8::encode_utf8;

use crate::auth::AuthUser;
use crate::db::{parse_uuid, uuid_parse};
use crate::error::{ApiError, ApiResult};
use crate::models::records::Role;
use crate::text::{owned, trim, trim_ws};

verus! {

/// Largest decoded `.warp` upload, in bytes (64 MiB).
pub const MAX_FILE_BYTES: usize = 67_108_864;

/// The bytes that the standard base64 engine of the `base64` crate decodes
/// from `text`, or `None` when `text` is not valid base64.
pub uninterp spec fn base64_standard(text: Seq<u8>) -> Option<Seq<u8>>;

/// `base64::engine::general_purpose::STANDARD.decode`: the decoded bytes,
/// or `None` on a decode error.
#[verifier::external_body]
fn decode_standard(text: &[u8]) -> (r: Option<Vec<u8>>)
    ensures
        match r {
            Some(v) => base64_standard(text@) == Some(v@),
            None => base64_standard(text@) is None,
        },
{
    base64::engine::general_purpose::STANDARD.decode(text).ok()
}

/// The file of a JSON upload: base64 text (standard alphabet), refused
/// when it does not decode.
pub fn decode_upload(file: &str) -> (r: ApiResult<Vec<u8>>)
    ensures
        match base64_standard(encode_utf8(file@)) {
            Some(b) => r matches Ok(v) && v@ == b,
            None => r matches Err(ApiError::BadRequest(m)) && m@ == "file is not valid base64"@,
        },
{
    match decode_standard(file.as_bytes()) {
        Some(v) => Ok(v),
        None => Err(ApiError::bad_request("file is not valid base64")),
    }
}

/// The `source` field of a multipart upload, read as a UUID once trimmed.
pub fn parse_source_field(text: &str) -> (r: ApiResult<u128>)
    ensures
        match uuid_parse(trim_ws(text@)) {
            Some(u) => r == Ok::<u128, ApiError>(u),
            None => r matches Err(ApiError::BadRequest(m)) && m@ == "source must be a UUID"@,
        },
{
    match parse_uuid(trim(text)) {
        Some(u) => Ok(u),
        None => Err(ApiError::bad_request("source must be a UUID")),
    }
}

/// The upload itself is acceptable: its name, once trimmed, is not blank,
/// and its decoded size is at most 64 MiB. Answers the trimmed name.
pub fn check_upload(name: &str, size: usize) -> (r: ApiResult<String>)
    ensures
        trim_ws(name@).len() == 0 ==> (r matches Err(ApiError::BadRequest(m)) && m@ == "name must not be empty"@),
        trim_ws(name@).len() > 0 && size > MAX_FILE_BYTES ==> (r matches Err(ApiError::BadRequest(m))
            && m@ == "file exceeds the 64 MiB limit"@),
        trim_ws(name@).len() > 0 && size <= MAX_FILE_BYTES ==> (r matches Ok(n) && n@ == trim_ws(name@)),
{
    let t = trim(name);
    if t.is_empty() {
        return Err(ApiError::bad_request("name must not be empty"));
    }
    if size > MAX_FILE_BYTES {
        return Err(ApiError::bad_request("file exceeds the 64 MiB limit"));
    }
    Ok(owned(t))
}

/// Pushing into a source: it must exist, and the caller must be an admin or
/// one of its members.
pub fn check_push_access(found: bool, is_member: bool, auth: &AuthUser) -> (r: ApiResult<()>)
    ensures
        !found ==> (r matches Err(ApiError::NotFound(m)) && m@ == "source"@ + " not found"@),
        found ==> (r is Ok <==> (auth.role == Role::Admin || is_member)),
        found && r is Err ==> (r matches Err(e) && e is Forbidden),
{
    if !found {
        return Err(ApiError::not_found("source"));
    }
    if !auth.is_admin() && !is_member {
        return Err(ApiError::Forbidden);
    }
    Ok(())
}

} // verus!

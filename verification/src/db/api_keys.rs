//! API keys: naming and minting.

use vstd::prelude::*;
use vstd::utf8::encode_utf8;

use crate::auth::{generate_token, hash_token, token_digest, API_KEY_PREFIX};
use crate::error::{ApiError, ApiResult};
use crate::text::{hex_lower, owned, trim, trim_ws};

verus! {

/// The name given to a new key, trimmed; refused unless it is 1 to 128
/// bytes long.
pub fn check_key_name(name: &str) -> (r: ApiResult<String>)
    ensures
        ({
            let t = trim_ws(name@);
            if t.len() == 0 || encode_utf8(t).len() > 128 {
                r matches Err(ApiError::BadRequest(m))
                    && m@ == "key name must be between 1 and 128 characters"@
            } else {
                r matches Ok(n) && n@ == t
            }
        }),
{
    let name = trim(name);
    if name.is_empty() || name.as_bytes().len() > 128 {
        return Err(ApiError::bad_request("key name must be between 1 and 128 characters"));
    }
    Ok(owned(name))
}

/// A key about to be stored: its trimmed name, the plaintext handed to the
/// caller once, and the digest that is written instead.
#[derive(Debug, Clone)]
pub struct NewKey {
    pub name: String,
    pub token: String,
    pub digest: String,
}

/// Mint a key named `name`. The plaintext key is only available in the
/// returned value; the store keeps its SHA-256 digest.
pub fn create(name: &str) -> (r: ApiResult<NewKey>)
    ensures
        ({
            let t = trim_ws(name@);
            if t.len() == 0 || encode_utf8(t).len() > 128 {
                r matches Err(ApiError::BadRequest(m))
                    && m@ == "key name must be between 1 and 128 characters"@
            } else {
                r matches Ok(k) && k.name@ == t && k.digest@ == token_digest(k.token@)
                    && exists|b: Seq<u8>| b.len() == 24 && k.token@ == API_KEY_PREFIX@ + hex_lower(b)
            }
        }),
{
    let name = check_key_name(name)?;
    let token = generate_token();
    let digest = hash_token(token.as_str());
    Ok(NewKey { name, token, digest })
}

} // verus!

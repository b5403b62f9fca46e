//! Authentication: API keys (`Authorization: Bearer warp_...`) and browser
//! sessions created by the OAuth flow.

use vstd::prelude::*;
use vstd::utf8::encode_utf8;
use sha2::Digest;

use crate::error::{ApiError, ApiResult, ErrorView};
use crate::models::records::{Role, Timestamp, CLOCK_SECS_BOUND};
use crate::text::{
    chars_of, eq_ignore_ascii_case, eq_ignore_case, hex_lower, lemma_hex_lower_shape, owned,
    string_of, trim, trim_ws, is_hex_lower_char,
};

verus! {

pub const SESSION_COOKIE: &'static str = "warp_session";

pub const API_KEY_PREFIX: &'static str = "warp_";

/// SHA-256 digest of `data`.
pub uninterp spec fn sha256_digest(data: Seq<u8>) -> Seq<u8>;

/// `sha2::Sha256::digest`: the 32-byte SHA-256 digest of `data`.
#[verifier::external_body]
fn sha256(data: &[u8]) -> (r: Vec<u8>)
    ensures
        r@ == sha256_digest(data@),
        r@.len() == 32,
{
    sha2::Sha256::digest(data).to_vec()
}

/// `hex::encode`: two lower-case hexadecimal digits per byte.
#[verifier::external_body]
fn hex_encode(data: &[u8]) -> (r: String)
    ensures
        r@ == hex_lower(data@),
{
    hex::encode(data)
}

/// `rand::random`: 24 bytes from the thread-local generator. Nothing is
/// stated of their values.
#[verifier::external_body]
fn random_bytes() -> (r: [u8; 24]) {
    rand::random::<[u8; 24]>()
}

/// The text stored for a token: hex of the SHA-256 digest of its UTF-8 bytes.
pub open spec fn token_digest(token: Seq<char>) -> Seq<char> {
    hex_lower(sha256_digest(encode_utf8(token)))
}

/// Generate a new API key: the prefix and 48 hexadecimal digits drawn at
/// random. Only [`hash_token`] of it is ever stored.
pub fn generate_token() -> (r: String)
    ensures
        exists|b: Seq<u8>| b.len() == 24 && r@ == API_KEY_PREFIX@ + hex_lower(b),
{
    let bytes = random_bytes();
    let hex = hex_encode(bytes.as_slice());
    let r = String::from_str(API_KEY_PREFIX).concat(hex.as_str());
    assert(bytes@.len() == 24);
    r
}

/// Random opaque secret (sessions, OAuth state): 48 hexadecimal digits.
pub fn generate_secret() -> (r: String)
    ensures
        exists|b: Seq<u8>| b.len() == 24 && r@ == hex_lower(b),
{
    let bytes = random_bytes();
    let r = hex_encode(bytes.as_slice());
    assert(bytes@.len() == 24);
    r
}

/// The digest under which a token is stored and looked up: 64 lower-case
/// hexadecimal digits.
pub fn hash_token(token: &str) -> (r: String)
    ensures
        r@ == token_digest(token@),
        r@.len() == 64,
        forall|i: int| 0 <= i < 64 ==> is_hex_lower_char(#[trigger] r@[i]),
{
    let digest = sha256(token.as_bytes());
    proof {
        lemma_hex_lower_shape(digest@);
    }
    hex_encode(digest.as_slice())
}

/// The authenticated caller.
#[derive(Debug, Clone)]
pub struct AuthUser {
    pub id: i64,
    pub username: String,
    pub email: String,
    pub role: Role,
}

impl AuthUser {
    pub fn is_admin(&self) -> (r: bool)
        ensures
            r == (self.role == Role::Admin),
    {
        self.role == Role::Admin
    }

    /// `Forbidden` unless the caller is an admin.
    pub fn require_admin(&self) -> (r: ApiResult<()>)
        ensures
            r is Ok <==> self.role == Role::Admin,
            r matches Err(e) ==> e is Forbidden,
    {
        if self.is_admin() {
            Ok(())
        } else {
            Err(ApiError::Forbidden)
        }
    }

    /// `Forbidden` unless the caller is an admin or the user `user_id`.
    pub fn require_self_or_admin(&self, user_id: i64) -> (r: ApiResult<()>)
        ensures
            r is Ok <==> (self.role == Role::Admin || self.id == user_id),
            r matches Err(e) ==> e is Forbidden,
    {
        if self.is_admin() || self.id == user_id {
            Ok(())
        } else {
            Err(ApiError::Forbidden)
        }
    }
}

/// `i` is the position of the first `c` in `s`.
pub open spec fn is_first(s: Seq<char>, c: char, i: int) -> bool {
    &&& 0 <= i < s.len()
    &&& s[i] == c
    &&& forall|j: int| 0 <= j < i ==> s[j] != c
}

/// The token of an `Authorization` header value: split at the first space,
/// the scheme must be `bearer` in any ASCII case, and the rest, trimmed,
/// must not be empty.
pub open spec fn bearer_of(h: Seq<char>) -> Option<Seq<char>> {
    if exists|i: int| is_first(h, ' ', i) {
        let i = choose|i: int| is_first(h, ' ', i);
        let token = trim_ws(h.subrange(i + 1, h.len() as int));
        if eq_ignore_case(h.subrange(0, i), "bearer"@) && token.len() > 0 {
            Some(token)
        } else {
            None
        }
    } else {
        None
    }
}

/// Credentials pulled off a request before any storage lookup happens.
#[derive(Debug, Clone)]
pub struct Credentials {
    pub bearer: Option<String>,
    pub session: Option<String>,
}

/// The token of an `Authorization` header value, if it is a bearer token.
pub fn bearer_token(header: &str) -> (r: Option<String>)
    ensures
        match r {
            Some(t) => bearer_of(header@) == Some(t@),
            None => bearer_of(header@) is None,
        },
{
    let v = chars_of(header);
    let mut i: usize = 0;
    while i < v.len() && v[i] != ' '
        invariant
            v@ == header@,
            i <= v.len(),
            forall|j: int| 0 <= j < i ==> v@[j] != ' ',
        decreases v.len() - i,
    {
        i += 1;
    }
    if i == v.len() {
        assert(!exists|k: int| is_first(header@, ' ', k));
        return None;
    }
    assert(is_first(header@, ' ', i as int));
    proof {
        let k = choose|k: int| is_first(header@, ' ', k);
        assert(k == i) by {
            if k < i {
                assert(v@[k] != ' ');
            }
            if k > i {
                assert(header@[i as int] != ' ');
            }
        }
    }
    let scheme = string_of(&v, 0, i);
    let rest = string_of(&v, i + 1, v.len());
    let token = trim(rest.as_str());
    if eq_ignore_ascii_case(scheme.as_str(), "bearer") && !token.is_empty() {
        Some(owned(token))
    } else {
        None
    }
}

impl Credentials {
    /// Credentials from the `Authorization` header (already read as text)
    /// and the value of the session cookie.
    pub fn from_request(authorization: Option<&str>, session_cookie: Option<&str>) -> (r: Self)
        ensures
            match authorization {
                Some(h) => match r.bearer {
                    Some(t) => bearer_of(h@) == Some(t@),
                    None => bearer_of(h@) is None,
                },
                None => r.bearer is None,
            },
            match session_cookie {
                Some(c) => r.session matches Some(s) && s@ == c@,
                None => r.session is None,
            },
    {
        let bearer = match authorization {
            Some(h) => bearer_token(h),
            None => None,
        };
        let session = match session_cookie {
            Some(c) => Some(owned(c)),
            None => None,
        };
        Credentials { bearer, session }
    }
}

/// What has to be looked up to authenticate a request.
#[derive(Debug, Clone)]
pub enum AuthLookup {
    /// No credentials were supplied.
    Anonymous,
    /// An API key, by its stored digest.
    ApiKey { digest: String },
    /// A browser session, by its stored digest.
    Session { digest: String },
}

/// Resolve credentials to the lookup that authenticates them. A bearer token
/// wins over a session cookie; the request is anonymous only when neither was
/// supplied, so invalid credentials are never downgraded to guest access.
pub fn authenticate(creds: &Credentials) -> (r: AuthLookup)
    ensures
        match creds.bearer {
            Some(t) => r matches AuthLookup::ApiKey { digest } && digest@ == token_digest(t@),
            None => match creds.session {
                Some(t) => r matches AuthLookup::Session { digest } && digest@ == token_digest(t@),
                None => r is Anonymous,
            },
        },
        (r is Anonymous) <==> (creds.bearer is None && creds.session is None),
{
    match &creds.bearer {
        Some(t) => AuthLookup::ApiKey { digest: hash_token(t.as_str()) },
        None => match &creds.session {
            Some(t) => AuthLookup::Session { digest: hash_token(t.as_str()) },
            None => AuthLookup::Anonymous,
        },
    }
}

/// The stored row of an API key.
#[derive(Debug, Clone, Copy)]
pub struct KeyRow {
    pub id: i64,
    pub user_id: i64,
    pub expires_at: Option<Timestamp>,
}

/// An API key authenticates when it exists and has not expired: a key whose
/// expiry is at or before `now` is refused.
pub fn check_api_key(key: Option<KeyRow>, now: Timestamp) -> (r: ApiResult<KeyRow>)
    requires
        now.valid(),
        key matches Some(k) ==> (k.expires_at matches Some(t) ==> t.valid()),
    ensures
        match key {
            None => r matches Err(e) && e is Unauthorized,
            Some(k) => match k.expires_at {
                Some(t) if t.instant() <= now.instant() => r matches Err(e) && e is Unauthorized,
                _ => r == Ok::<KeyRow, ApiError>(k),
            },
        },
{
    match key {
        None => Err(ApiError::Unauthorized),
        Some(k) => match k.expires_at {
            Some(t) => {
                if t.at_or_before(&now) {
                    Err(ApiError::Unauthorized)
                } else {
                    Ok(k)
                }
            },
            None => Ok(k),
        },
    }
}

/// A stored key authenticates at `now`: it exists and its expiry, if it has
/// one, lies after `now`.
pub open spec fn key_accepted(key: Option<KeyRow>, now: Timestamp) -> bool {
    match key {
        None => false,
        Some(k) => match k.expires_at {
            Some(t) => !(t.instant() <= now.instant()),
            None => true,
        },
    }
}

/// A key that authenticated a request: the caller, and the write that
/// records the use (`last_used_at` of key `key_id` becomes `last_used_at`).
#[derive(Debug, Clone)]
pub struct KeyUse {
    pub user: AuthUser,
    pub key_id: i64,
    pub last_used_at: Timestamp,
}

/// Authenticate with the stored key `key` (looked up by digest) whose
/// owner, looked up by the key's `user_id`, is `user`: refused unless the
/// key authenticates at `now` and its user exists; on success, the key's
/// last use is to be set to `now`.
pub fn use_api_key(key: Option<KeyRow>, user: Option<AuthUser>, now: Timestamp) -> (r: ApiResult<KeyUse>)
    requires
        now.valid(),
        key matches Some(k) ==> (k.expires_at matches Some(t) ==> t.valid()),
    ensures
        r is Ok <==> key_accepted(key, now) && user is Some,
        r matches Err(e) ==> e is Unauthorized,
        r matches Ok(u) ==> u.key_id == key->0.id && u.user == user->0 && u.last_used_at == now,
{
    match check_api_key(key, now) {
        Err(e) => Err(e),
        Ok(k) => match require_user(user) {
            Err(e) => Err(e),
            Ok(u) => Ok(KeyUse { user: u, key_id: k.id, last_used_at: now }),
        },
    }
}

/// An API key as stored, with the columns that authentication reads and
/// writes.
pub ghost struct StoredKey {
    pub id: i64,
    pub user_id: i64,
    pub expires_at: Option<Timestamp>,
    pub last_used_at: Option<Timestamp>,
}

impl StoredKey {
    /// The row that a lookup of the key answers.
    pub open spec fn row(self) -> KeyRow {
        KeyRow { id: self.id, user_id: self.user_id, expires_at: self.expires_at }
    }

    /// The key once `u` is recorded, if `u` is a use of this key.
    pub open spec fn after_use(self, u: KeyUse) -> StoredKey {
        if u.key_id == self.id {
            StoredKey { last_used_at: Some(u.last_used_at), ..self }
        } else {
            self
        }
    }
}

/// A key that authenticates at `first` has its last use set to `first`;
/// once its expiry is then set at or before a later instant `second`, it no
/// longer authenticates at `second`, and [`use_api_key`] refuses it.
pub proof fn lemma_expired_key_refused(k: StoredKey, u: KeyUse, first: Timestamp, expiry: Timestamp, second: Timestamp)
    requires
        key_accepted(Some(k.row()), first),
        u.key_id == k.id,
        u.last_used_at == first,
        expiry.instant() <= second.instant(),
    ensures
        k.after_use(u).last_used_at == Some(first),
        !key_accepted(Some(StoredKey { expires_at: Some(expiry), ..k.after_use(u) }.row()), second),
{
}

/// A key or session whose user no longer exists does not authenticate.
pub fn require_user(user: Option<AuthUser>) -> (r: ApiResult<AuthUser>)
    ensures
        match user {
            Some(u) => r matches Ok(v) && v == u,
            None => r matches Err(e) && e is Unauthorized,
        },
{
    match user {
        Some(u) => Ok(u),
        None => Err(ApiError::Unauthorized),
    }
}

/// Like [`AuthUser`] but tolerates anonymous callers.
#[derive(Debug, Clone)]
pub struct OptionalAuth(pub Option<AuthUser>);

// ---------------------------------------------------------------- sessions

/// A browser session about to be stored: the plaintext token for the cookie
/// and what the store keeps.
#[derive(Debug, Clone)]
pub struct NewSession {
    pub token: String,
    pub digest: String,
    pub user_id: i64,
    /// Sessions that expired at or before this instant are purged.
    pub created: Timestamp,
    pub expires: Timestamp,
}

/// The session for `user_id` opened at `now` with a token drawn by
/// [`generate_secret`], lasting `ttl_secs` seconds.
pub fn new_session(user_id: i64, ttl_secs: i64, now: Timestamp) -> (r: NewSession)
    requires
        ttl_secs >= 0,
        now.secs + ttl_secs <= i64::MAX,
    ensures
        r.user_id == user_id,
        r.digest@ == token_digest(r.token@),
        exists|b: Seq<u8>| b.len() == 24 && r.token@ == hex_lower(b),
        r.created == now,
        r.expires.secs == now.secs + ttl_secs,
        r.expires.nanos == now.nanos,
{
    let token = generate_secret();
    let digest = hash_token(token.as_str());
    NewSession {
        token,
        digest,
        user_id,
        created: now,
        expires: Timestamp { secs: now.secs + ttl_secs, nanos: now.nanos },
    }
}

/// Open a session for `user_id` now. Refused, rather than wrapped, when the
/// expiry would not fit in an `i64` of seconds; that can only happen for a
/// lifetime within `CLOCK_SECS_BOUND` of `i64::MAX`.
pub fn create_session(user_id: i64, ttl_secs: i64) -> (r: ApiResult<NewSession>)
    requires
        ttl_secs >= 0,
    ensures
        ttl_secs <= i64::MAX - CLOCK_SECS_BOUND ==> r is Ok,
        r matches Ok(s) ==> {
            &&& s.user_id == user_id
            &&& s.digest@ == token_digest(s.token@)
            &&& exists|b: Seq<u8>| b.len() == 24 && s.token@ == hex_lower(b)
            &&& 0 <= s.created.secs < CLOCK_SECS_BOUND
            &&& s.created.valid()
            &&& s.expires.secs == s.created.secs + ttl_secs
            &&& s.expires.nanos == s.created.nanos
        },
        r matches Err(e) ==> e@ == ErrorView::Internal("session expiry is out of range"@) && ttl_secs
            > i64::MAX - CLOCK_SECS_BOUND,
{
    let now = crate::models::records::clock_now();
    if now.secs > i64::MAX - ttl_secs {
        return Err(ApiError::Internal(String::from_str("session expiry is out of range")));
    }
    Ok(new_session(user_id, ttl_secs, now))
}

/// A cookie as the server sets it.
#[derive(Debug, Clone)]
pub struct SessionCookie {
    pub name: String,
    pub value: String,
    pub path: String,
    pub http_only: bool,
    /// `SameSite=Lax`.
    pub same_site_lax: bool,
    /// Lifetime in seconds; `None` for a cookie that removes the session.
    pub max_age_secs: Option<i64>,
    /// The cookie tells the browser to drop the session.
    pub removal: bool,
}

/// The session cookie: `warp_session=<token>`, for the whole site, hidden
/// from scripts, `SameSite=Lax`, lasting the session's lifetime.
pub fn session_cookie(token: &str, ttl_secs: i64) -> (r: SessionCookie)
    ensures
        r.name@ == SESSION_COOKIE@,
        r.value@ == token@,
        r.path@ == "/"@,
        r.http_only,
        r.same_site_lax,
        r.max_age_secs == Some(ttl_secs),
        !r.removal,
{
    SessionCookie {
        name: owned(SESSION_COOKIE),
        value: owned(token),
        path: String::from_str("/"),
        http_only: true,
        same_site_lax: true,
        max_age_secs: Some(ttl_secs),
        removal: false,
    }
}

/// The cookie sent on logout: an empty `warp_session` for the whole site,
/// marked for removal.
pub fn clear_session_cookie() -> (r: SessionCookie)
    ensures
        r.name@ == SESSION_COOKIE@,
        r.value@.len() == 0,
        r.path@ == "/"@,
        r.removal,
{
    SessionCookie {
        name: owned(SESSION_COOKIE),
        value: String::new(),
        path: String::from_str("/"),
        http_only: false,
        same_site_lax: false,
        max_age_secs: None,
        removal: true,
    }
}

} // verus!

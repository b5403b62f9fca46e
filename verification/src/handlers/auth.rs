//! OAuth 2.0 authorization-code login for browsers. API clients (Binary
//! Ninja) authenticate with API keys instead; see [`crate::auth`].

use vstd::prelude::*;

use crate::config::{Config, OAuthConfig};
use crate::error::{ApiError, ApiResult, ErrorView};
use crate::models::records::{Role, Timestamp};
use crate::handlers::opt_text;
use crate::text::{chars_of, has_prefix, owned, starts_with};

verus! {

/// How long a login may take between `/login` and the provider's callback.
pub const STATE_TTL_MINUTES: i64 = 15;

/// `STATE_TTL_MINUTES` in nanoseconds.
pub open spec fn state_ttl_nanos() -> int {
    STATE_TTL_MINUTES * 60 * 1_000_000_000
}

/// The OAuth settings, or `ServiceUnavailable` when the server has none.
pub fn oauth(config: &Config) -> (r: ApiResult<&OAuthConfig>)
    ensures
        match config.oauth {
            Some(o) => r matches Ok(x) && *x == o,
            None => r matches Err(ApiError::ServiceUnavailable(m))
                && m@ == "OAuth login is not configured on this server; authenticate with an API key"@,
        },
{
    match &config.oauth {
        Some(o) => Ok(o),
        None => Err(ApiError::ServiceUnavailable(String::from_str(
            "OAuth login is not configured on this server; authenticate with an API key",
        ))),
    }
}

/// A tab or line break: browsers drop these from a URL before reading it.
pub open spec fn is_url_stripped(c: char) -> bool {
    c == '\t' || c == '\n' || c == '\r'
}

/// `n[i]` is the first character after the leading `/` that a browser
/// keeps: every character between them is a tab or line break.
pub open spec fn is_first_kept_after_slash(n: Seq<char>, i: int) -> bool {
    &&& 1 <= i < n.len()
    &&& !is_url_stripped(n[i])
    &&& forall|j: int| 1 <= j < i ==> is_url_stripped(#[trigger] n[j])
}

/// A path that a browser resolves on this site: one `/` first, and, once
/// the tabs and line breaks that a browser drops are gone, not followed by
/// a second `/` or a `\` (either would make `//host`).
pub open spec fn is_local_path(n: Seq<char>) -> bool {
    &&& n.len() >= 1
    &&& n[0] == '/'
    &&& forall|i: int| #[trigger] is_first_kept_after_slash(n, i) ==> !(n[i] == '/' || n[i] == '\\')
}

/// An address on the public URL's own origin: the public URL itself, or the
/// public URL followed by `/`, `?` or `#`, which end its host and port, so
/// that scheme, host and port are the public URL's.
pub open spec fn is_on_public_url(n: Seq<char>, public_url: Seq<char>) -> bool {
    &&& has_prefix(n, public_url)
    &&& (n.len() == public_url.len() || {
        let c = n[public_url.len() as int];
        c == '/' || c == '?' || c == '#'
    })
}

/// Where a login may send the browser back to: a local path or an address
/// on the public URL's origin; anything else goes to `/`.
pub open spec fn safe_redirect_spec(next: Option<Seq<char>>, public_url: Seq<char>) -> Seq<char> {
    match next {
        Some(n) => if is_local_path(n) || is_on_public_url(n, public_url) {
            n
        } else {
            "/"@
        },
        None => "/"@,
    }
}

fn local_path(n: &str) -> (r: bool)
    ensures
        r == is_local_path(n@),
{
    let v = chars_of(n);
    if v.len() == 0 || v[0] != '/' {
        return false;
    }
    let mut i: usize = 1;
    while i < v.len() && (v[i] == '\t' || v[i] == '\n' || v[i] == '\r')
        invariant
            v@ == n@,
            1 <= i <= v.len(),
            forall|j: int| 1 <= j < i ==> is_url_stripped(#[trigger] v@[j]),
        decreases v.len() - i,
    {
        i = i + 1;
    }
    if i < v.len() {
        assert(is_first_kept_after_slash(n@, i as int));
        proof {
            assert forall|k: int| #[trigger] is_first_kept_after_slash(n@, k) implies k == i by {
                if k < i {
                    assert(is_url_stripped(v@[k]));
                }
                if k > i {
                    assert(is_url_stripped(n@[i as int]));
                }
            }
        }
        !(v[i] == '/' || v[i] == '\\')
    } else {
        proof {
            assert forall|k: int| #[trigger] is_first_kept_after_slash(n@, k) implies !(n@[k] == '/' || n@[k]
                == '\\') by {
                assert(is_url_stripped(v@[k]));
            }
        }
        true
    }
}

fn on_public_url(n: &str, public_url: &str) -> (r: bool)
    ensures
        r == is_on_public_url(n@, public_url@),
{
    if !starts_with(n, public_url) {
        return false;
    }
    let v = chars_of(n);
    let k = chars_of(public_url).len();
    if v.len() == k {
        true
    } else {
        v[k] == '/' || v[k] == '?' || v[k] == '#'
    }
}

/// Only allow same-site redirects after login.
pub fn safe_redirect(next: Option<String>, public_url: &str) -> (r: String)
    ensures
        r@ == safe_redirect_spec(match next { Some(n) => Some(n@), None => None }, public_url@),
{
    match next {
        Some(n) => {
            if local_path(n.as_str()) || on_public_url(n.as_str(), public_url) {
                n
            } else {
                String::from_str("/")
            }
        },
        None => String::from_str("/"),
    }
}

/// A login never leaves the site: it redirects to a path that the browser
/// resolves on this host, or to an address whose scheme, host and port are
/// those of the public URL.
pub proof fn lemma_redirect_stays_on_site(next: Option<Seq<char>>, public_url: Seq<char>)
    ensures
        ({
            let r = safe_redirect_spec(next, public_url);
            is_local_path(r) || is_on_public_url(r, public_url)
        }),
{
    reveal_strlit("/");
    let r = safe_redirect_spec(next, public_url);
    if r == "/"@ {
        assert(r.len() == 1 && r[0] == '/');
        assert forall|i: int| #[trigger] is_first_kept_after_slash(r, i) implies !(r[i] == '/' || r[i] == '\\') by {}
        assert(is_local_path(r));
    }
}

// ---------------------------------------------------------------- provider URL

/// The address that `url::Url::parse_with_params` builds from `base` and the
/// query pairs `params`, or the text of its parse error.
pub uninterp spec fn url_with_query(base: Seq<char>, params: Seq<(Seq<char>, Seq<char>)>) -> Result<Seq<char>, Seq<char>>;

pub open spec fn pair_texts(v: Seq<(String, String)>) -> Seq<(Seq<char>, Seq<char>)> {
    v.map_values(|p: (String, String)| (p.0@, p.1@))
}

/// `url::Url::parse_with_params(base, params)`, as text.
#[verifier::external_body]
fn parse_with_params(base: &str, params: &Vec<(String, String)>) -> (r: Result<String, String>)
    ensures
        match r {
            Ok(u) => url_with_query(base@, pair_texts(params@)) == Ok::<Seq<char>, Seq<char>>(u@),
            Err(e) => url_with_query(base@, pair_texts(params@)) == Err::<Seq<char>, Seq<char>>(e@),
        },
{
    match url::Url::parse_with_params(base, params) {
        Ok(u) => Ok(u.into()),
        Err(e) => Err(e.to_string()),
    }
}

fn pair(k: &str, v: &str) -> (r: (String, String))
    ensures
        r.0@ == k@,
        r.1@ == v@,
{
    (owned(k), owned(v))
}

/// The query of the provider's authorization URL.
pub open spec fn auth_params(o: OAuthConfig, state: Seq<char>) -> Seq<(Seq<char>, Seq<char>)> {
    seq![
        ("response_type"@, "code"@),
        ("client_id"@, o.client_id@),
        ("redirect_uri"@, o.redirect_url@),
        ("scope"@, o.scopes@),
        ("state"@, state),
    ]
}

/// The provider URL to send the browser to for the login `state`.
pub fn login_url(o: &OAuthConfig, state: &str) -> (r: ApiResult<String>)
    ensures
        match url_with_query(o.auth_url@, auth_params(*o, state@)) {
            Ok(u) => r matches Ok(s) && s@ == u,
            Err(e) => r matches Err(ApiError::Internal(m)) && m@ == "invalid OAUTH_AUTH_URL: "@ + e,
        },
{
    let mut params: Vec<(String, String)> = Vec::new();
    params.push(pair("response_type", "code"));
    params.push(pair("client_id", o.client_id.as_str()));
    params.push(pair("redirect_uri", o.redirect_url.as_str()));
    params.push(pair("scope", o.scopes.as_str()));
    params.push(pair("state", state));
    assert(pair_texts(params@) =~= auth_params(*o, state@));
    match parse_with_params(o.auth_url.as_str(), &params) {
        Ok(u) => Ok(u),
        Err(e) => Err(ApiError::Internal(String::from_str("invalid OAUTH_AUTH_URL: ").concat(e.as_str()))),
    }
}

/// Logins started before this instant are purged when a new one starts.
pub fn state_cutoff(now: Timestamp) -> (r: Timestamp)
    requires
        now.secs >= i64::MIN + STATE_TTL_MINUTES * 60,
    ensures
        r.instant() == now.instant() - state_ttl_nanos(),
        r.nanos == now.nanos,
{
    Timestamp { secs: now.secs - STATE_TTL_MINUTES * 60, nanos: now.nanos }
}

// ---------------------------------------------------------------- callback

/// The instant that `chrono::DateTime::parse_from_rfc3339` reads from
/// `text` (seconds since the epoch and nanoseconds), if it parses.
pub uninterp spec fn rfc3339_instant(text: Seq<char>) -> Option<(i64, u32)>;

/// `chrono::DateTime::parse_from_rfc3339`, as seconds and nanoseconds
/// since the epoch.
#[verifier::external_body]
fn parse_rfc3339(text: &str) -> (r: Option<Timestamp>)
    ensures
        match r {
            Some(t) => rfc3339_instant(text@) == Some((t.secs, t.nanos)),
            None => rfc3339_instant(text@) is None,
        },
{
    match chrono::DateTime::parse_from_rfc3339(text) {
        Ok(t) => Some(Timestamp { secs: t.timestamp(), nanos: t.timestamp_subsec_nanos() }),
        Err(_) => None,
    }
}

/// A login state stored at `created_at` is still usable at `now`: the text
/// is an RFC 3339 time less than 15 minutes before `now`.
pub open spec fn state_fresh(created_at: Seq<char>, now: Timestamp) -> bool {
    match rfc3339_instant(created_at) {
        Some((s, n)) => now.instant() - (s * 1_000_000_000 + n) < state_ttl_nanos(),
        None => false,
    }
}

/// Refuses a login state that is too old (or whose time does not parse).
pub fn check_state_fresh(created_at: &str, now: Timestamp) -> (r: ApiResult<()>)
    ensures
        state_fresh(created_at@, now) ==> r is Ok,
        !state_fresh(created_at@, now) ==> (r matches Err(ApiError::BadRequest(m))
            && m@ == "OAuth state has expired; start the login again"@),
{
    let fresh = match parse_rfc3339(created_at) {
        Some(t) => {
            let age: i128 = (now.secs as i128 - t.secs as i128) * 1_000_000_000 + (now.nanos as i128 - t.nanos as i128);
            assert(age == now.instant() - (t.secs * 1_000_000_000 + t.nanos));
            age < 900_000_000_000
        },
        None => false,
    };
    if fresh {
        Ok(())
    } else {
        Err(ApiError::bad_request("OAuth state has expired; start the login again"))
    }
}

/// A provider's answer: its status and body.
#[derive(Debug, Clone)]
pub struct HttpReply {
    pub status: u16,
    pub body: Vec<u8>,
}

/// What `serde_json` finds under `key` in the JSON text `body`: an error
/// text when the body is not JSON; otherwise `None` when there is no such
/// member (or the body is not an object), `Some(None)` when the member is
/// not a string, and `Some(Some(s))` for the string `s`.
pub uninterp spec fn json_member(body: Seq<u8>, key: Seq<char>) -> Result<Option<Option<Seq<char>>>, Seq<char>>;

pub open spec fn member_view(r: Result<Option<Option<String>>, String>) -> Result<Option<Option<Seq<char>>>, Seq<char>> {
    match r {
        Ok(Some(Some(s))) => Ok(Some(Some(s@))),
        Ok(Some(None)) => Ok(Some(None)),
        Ok(None) => Ok(None),
        Err(e) => Err(e@),
    }
}

/// `serde_json::from_slice::<Value>(body)`, then `get(key)` and `as_str`.
#[verifier::external_body]
fn read_json_member(body: &[u8], key: &str) -> (r: Result<Option<Option<String>>, String>)
    ensures
        member_view(r) == json_member(body@, key@),
{
    match serde_json::from_slice::<serde_json::Value>(body) {
        Ok(v) => match v.get(key) {
            Some(m) => match m.as_str() {
                Some(s) => Ok(Some(Some(s.to_string()))),
                None => Ok(Some(None)),
            },
            None => Ok(None),
        },
        Err(e) => Err(e.to_string()),
    }
}

/// A 2xx status.
pub open spec fn success(status: u16) -> bool {
    200 <= status <= 299
}

/// What the token endpoint's answer yields: the access token, or the
/// error the login fails with.
pub open spec fn token_outcome(reply: Result<HttpReply, String>) -> Result<Seq<char>, ErrorView> {
    match reply {
        Err(e) => Err(ErrorView::Internal("OAuth token request failed: "@ + e@)),
        Ok(rep) => if !success(rep.status) {
            Err(ErrorView::Unauthorized)
        } else {
            match json_member(rep.body@, "access_token"@) {
                Err(e) => Err(ErrorView::Internal("OAuth token response was not JSON: "@ + e)),
                Ok(Some(Some(t))) => Ok(t),
                Ok(_) => Err(ErrorView::Unauthorized),
            }
        },
    }
}

/// The access token from the provider's token endpoint.
pub fn read_access_token(reply: &Result<HttpReply, String>) -> (r: ApiResult<String>)
    ensures
        match r {
            Ok(s) => token_outcome(*reply) == Ok::<Seq<char>, ErrorView>(s@),
            Err(e) => token_outcome(*reply) == Err::<Seq<char>, ErrorView>(e@),
        },
{
    match reply {
        Err(e) => Err(ApiError::Internal(String::from_str("OAuth token request failed: ").concat(e.as_str()))),
        Ok(rep) => {
            if rep.status < 200 || rep.status > 299 {
                return Err(ApiError::Unauthorized);
            }
            match read_json_member(rep.body.as_slice(), "access_token") {
                Err(e) => Err(ApiError::Internal(
                    String::from_str("OAuth token response was not JSON: ").concat(e.as_str()),
                )),
                Ok(Some(Some(t))) => Ok(t),
                Ok(_) => Err(ApiError::Unauthorized),
            }
        },
    }
}

/// Who the provider says logged in.
#[derive(Debug, Clone)]
pub struct ProviderUser {
    pub email: String,
    /// The preferred username, when the provider gives one.
    pub username: Option<String>,
}

/// The preferred username of a user-info body: the string under
/// `field`; when there is no such member, the string under `name`.
pub open spec fn username_from(body: Seq<u8>, field: Seq<char>) -> Option<Seq<char>> {
    match json_member(body, field) {
        Ok(Some(Some(s))) => Some(s),
        Ok(Some(None)) => None,
        _ => match json_member(body, "name"@) {
            Ok(Some(Some(s))) => Some(s),
            _ => None,
        },
    }
}

/// What the user-info endpoint's answer yields: the e-mail and preferred
/// username, or the error the login fails with. The e-mail must be a
/// non-empty string under `email_field`.
pub open spec fn user_outcome(reply: Result<HttpReply, String>, o: OAuthConfig) -> Result<(Seq<char>, Option<Seq<char>>), ErrorView> {
    match reply {
        Err(e) => Err(ErrorView::Internal("OAuth user-info request failed: "@ + e@)),
        Ok(rep) => if !success(rep.status) {
            Err(ErrorView::Unauthorized)
        } else {
            match json_member(rep.body@, o.email_field@) {
                Err(e) => Err(ErrorView::Internal("OAuth user-info response was not JSON: "@ + e)),
                Ok(Some(Some(m))) => if m.len() > 0 {
                    Ok((m, username_from(rep.body@, o.username_field@)))
                } else {
                    Err(ErrorView::Unauthorized)
                },
                Ok(_) => Err(ErrorView::Unauthorized),
            }
        },
    }
}

pub open spec fn provider_view(u: ProviderUser) -> (Seq<char>, Option<Seq<char>>) {
    (u.email@, match u.username { Some(n) => Some(n@), None => None })
}

/// The user from the provider's user-info endpoint.
pub fn read_user_info(reply: &Result<HttpReply, String>, o: &OAuthConfig) -> (r: ApiResult<ProviderUser>)
    ensures
        match r {
            Ok(u) => user_outcome(*reply, *o) == Ok::<(Seq<char>, Option<Seq<char>>), ErrorView>(provider_view(u)),
            Err(e) => user_outcome(*reply, *o) == Err::<(Seq<char>, Option<Seq<char>>), ErrorView>(e@),
        },
{
    match reply {
        Err(e) => Err(ApiError::Internal(String::from_str("OAuth user-info request failed: ").concat(e.as_str()))),
        Ok(rep) => {
            if rep.status < 200 || rep.status > 299 {
                return Err(ApiError::Unauthorized);
            }
            let email = match read_json_member(rep.body.as_slice(), o.email_field.as_str()) {
                Err(e) => {
                    return Err(ApiError::Internal(
                        String::from_str("OAuth user-info response was not JSON: ").concat(e.as_str()),
                    ));
                },
                Ok(Some(Some(m))) => m,
                Ok(_) => {
                    return Err(ApiError::Unauthorized);
                },
            };
            if email.as_str().is_empty() {
                return Err(ApiError::Unauthorized);
            }
            let username = match read_json_member(rep.body.as_slice(), o.username_field.as_str()) {
                Ok(Some(Some(n))) => Some(n),
                Ok(Some(None)) => None,
                _ => match read_json_member(rep.body.as_slice(), "name") {
                    Ok(Some(Some(n))) => Some(n),
                    _ => None,
                },
            };
            Ok(ProviderUser { email, username })
        },
    }
}

/// The account a login signs into: the existing one, `None` when a new one
/// is to be created, or `Unauthorized` when unknown users may not register.
pub fn account_for<U>(existing: Option<U>, auto_register: bool) -> (r: ApiResult<Option<U>>)
    ensures
        match existing {
            Some(u) => r == Ok::<Option<U>, ApiError>(Some(u)),
            None => if auto_register { r == Ok::<Option<U>, ApiError>(None) } else { r matches Err(ApiError::Unauthorized) },
        },
{
    match existing {
        Some(u) => Ok(Some(u)),
        None => if auto_register { Ok(None) } else { Err(ApiError::Unauthorized) },
    }
}

/// The role of an account created at login: the very first account on a
/// fresh server becomes the admin.
pub fn first_user_role(user_count: i64) -> (r: Role)
    ensures
        r == (if user_count == 0 { Role::Admin } else { Role::User }),
{
    if user_count == 0 { Role::Admin } else { Role::User }
}

/// The form posted to the provider's token endpoint.
pub open spec fn token_params(o: OAuthConfig, code: Seq<char>) -> Seq<(Seq<char>, Seq<char>)> {
    seq![
        ("grant_type"@, "authorization_code"@),
        ("code"@, code),
        ("redirect_uri"@, o.redirect_url@),
        ("client_id"@, o.client_id@),
        ("client_secret"@, o.client_secret@),
    ]
}

/// `value` is what the form `ps` sends under `key`: it is sent, and any
/// entry under `key` carries it.
pub open spec fn sends(ps: Seq<(Seq<char>, Seq<char>)>, key: Seq<char>, value: Seq<char>) -> bool {
    &&& exists|i: int| 0 <= i < ps.len() && #[trigger] ps[i] == (key, value)
    &&& forall|i: int| 0 <= i < ps.len() && (#[trigger] ps[i]).0 == key ==> ps[i].1 == value
}

/// The code exchange authenticates the client with its configured
/// credentials: the form sends the callback's code, the configured
/// redirect URL, client id and client secret, and asks for an
/// authorization-code grant.
pub proof fn lemma_token_form_sends_credentials(o: OAuthConfig, code: Seq<char>)
    ensures
        sends(token_params(o, code), "client_id"@, o.client_id@),
        sends(token_params(o, code), "client_secret"@, o.client_secret@),
        sends(token_params(o, code), "code"@, code),
        sends(token_params(o, code), "redirect_uri"@, o.redirect_url@),
        sends(token_params(o, code), "grant_type"@, "authorization_code"@),
{
    reveal_strlit("grant_type");
    reveal_strlit("code");
    reveal_strlit("redirect_uri");
    reveal_strlit("client_id");
    reveal_strlit("client_secret");
    let ps = token_params(o, code);
    assert(ps[0] == ("grant_type"@, "authorization_code"@));
    assert(ps[1] == ("code"@, code));
    assert(ps[2] == ("redirect_uri"@, o.redirect_url@));
    assert(ps[3] == ("client_id"@, o.client_id@));
    assert(ps[4] == ("client_secret"@, o.client_secret@));
    assert("grant_type"@.len() == 10 && "code"@.len() == 4 && "redirect_uri"@.len() == 12);
    assert("client_id"@.len() == 9 && "client_secret"@.len() == 13);
}

pub fn token_form(o: &OAuthConfig, code: &str) -> (r: Vec<(String, String)>)
    ensures
        pair_texts(r@) == token_params(*o, code@),
{
    let mut params: Vec<(String, String)> = Vec::new();
    params.push(pair("grant_type", "authorization_code"));
    params.push(pair("code", code));
    params.push(pair("redirect_uri", o.redirect_url.as_str()));
    params.push(pair("client_id", o.client_id.as_str()));
    params.push(pair("client_secret", o.client_secret.as_str()));
    assert(pair_texts(params@) =~= token_params(*o, code@));
    params
}

// ---------------------------------------------------------------- the callback, step by step

/// Where a browser login stands while the provider calls back. Each state
/// waits for one outside result.
#[derive(Debug, Clone)]
pub enum Callback {
    /// The login state named in the callback is being looked up.
    LookingUpState,
    /// The state was found and is being deleted: it serves one login only.
    DeletingState { next: Option<String>, created_at: String },
    /// The code is being exchanged for an access token.
    ExchangingCode { next: Option<String> },
    /// The provider's user-info is being fetched.
    FetchingUser { next: Option<String> },
    /// The account with the provider's e-mail is being looked up.
    FindingAccount { next: Option<String>, user: ProviderUser },
    /// The users are being counted to pick the new account's role.
    CountingUsers { next: Option<String>, user: ProviderUser },
    /// The new account is being created.
    CreatingAccount { next: Option<String> },
    /// A session is being opened for the account.
    OpeningSession { next: Option<String> },
    /// The login has ended.
    Done,
}

/// An outside result that a [`Callback`] waits for.
#[derive(Debug)]
pub enum CallbackEvent {
    /// The stored state: where to go afterwards, and when it was created.
    StateRow(Option<(Option<String>, String)>),
    /// The state was deleted; the clock read `now`.
    StateDeleted { now: Timestamp },
    TokenReply(Result<HttpReply, String>),
    UserInfoReply(Result<HttpReply, String>),
    /// The id of the account with the provider's e-mail, if any.
    AccountFound(Option<i64>),
    UserCount(i64),
    AccountCreated(i64),
    /// The plaintext token of the new session.
    SessionOpened(String),
}

/// The outside work that a login asks for next.
#[derive(Debug, Clone)]
pub enum CallbackAction {
    LookUpState,
    DeleteState,
    RequestToken { url: String, form: Vec<(String, String)> },
    RequestUserInfo { url: String, access_token: String },
    FindAccount { email: String },
    CountUsers,
    /// Create the account (the username is deduplicated).
    CreateAccount { email: String, username: Option<String>, role: Role },
    OpenSession { user_id: i64 },
    /// Send the browser to `location` with the session cookie.
    Redirect { location: String, session_token: String },
    Fail(ApiError),
}

pub open spec fn next_of(c: Callback) -> Option<Seq<char>> {
    match c {
        Callback::DeletingState { next, .. } => opt_text(next),
        Callback::ExchangingCode { next } => opt_text(next),
        Callback::FetchingUser { next } => opt_text(next),
        Callback::FindingAccount { next, .. } => opt_text(next),
        Callback::CountingUsers { next, .. } => opt_text(next),
        Callback::CreatingAccount { next } => opt_text(next),
        Callback::OpeningSession { next } => opt_text(next),
        _ => None,
    }
}

/// `event` is the result that `state` waits for.
pub open spec fn expects(state: Callback, event: CallbackEvent) -> bool {
    match state {
        Callback::LookingUpState => event is StateRow,
        Callback::DeletingState { .. } => event is StateDeleted,
        Callback::ExchangingCode { .. } => event is TokenReply,
        Callback::FetchingUser { .. } => event is UserInfoReply,
        Callback::FindingAccount { .. } => event is AccountFound,
        Callback::CountingUsers { .. } => event is UserCount,
        Callback::CreatingAccount { .. } => event is AccountCreated,
        Callback::OpeningSession { .. } => event is SessionOpened,
        Callback::Done => false,
    }
}

/// A login that failed with `e`.
pub open spec fn fails_with(r: (Callback, CallbackAction), e: ErrorView) -> bool {
    &&& r.0 is Done
    &&& r.1 matches CallbackAction::Fail(x)
    &&& x@ == e
}

impl Callback {
    /// The start of a callback: OAuth must be configured; then the login
    /// state is looked up.
    pub fn start(config: &Config) -> (r: (Callback, CallbackAction))
        ensures
            config.oauth is Some ==> r.0 is LookingUpState && r.1 is LookUpState,
            config.oauth is None ==> fails_with(r, ErrorView::ServiceUnavailable(
                "OAuth login is not configured on this server; authenticate with an API key"@,
            )),
    {
        match oauth(config) {
            Ok(_) => (Callback::LookingUpState, CallbackAction::LookUpState),
            Err(e) => (Callback::Done, CallbackAction::Fail(e)),
        }
    }

    /// The next state and action once `event` has come in; `code` is the
    /// authorization code the provider called back with.
    pub fn step(self, config: &Config, code: &str, event: CallbackEvent) -> (r: (Callback, CallbackAction))
        requires
            config.oauth is Some,
            expects(self, event),
        ensures
            ({
                let o = config.oauth->0;
                match (self, event) {
                    (Callback::LookingUpState, CallbackEvent::StateRow(row)) => match row {
                        None => fails_with(r, ErrorView::BadRequest("unknown or expired OAuth state"@)),
                        Some((next, created)) => {
                            &&& r.1 is DeleteState
                            &&& r.0 matches Callback::DeletingState { next: n, created_at: c }
                            &&& opt_text(n) == opt_text(next)
                            &&& c@ == created@
                        },
                    },
                    (Callback::DeletingState { next, created_at }, CallbackEvent::StateDeleted { now }) =>
                        if state_fresh(created_at@, now) {
                            &&& r.0 is ExchangingCode
                            &&& next_of(r.0) == opt_text(next)
                            &&& r.1 matches CallbackAction::RequestToken { url, form }
                            &&& url@ == o.token_url@
                            &&& pair_texts(form@) == token_params(o, code@)
                        } else {
                            fails_with(r, ErrorView::BadRequest("OAuth state has expired; start the login again"@))
                        },
                    (Callback::ExchangingCode { next }, CallbackEvent::TokenReply(reply)) => match token_outcome(reply) {
                        Err(e) => fails_with(r, e),
                        Ok(t) => {
                            &&& r.0 is FetchingUser
                            &&& next_of(r.0) == opt_text(next)
                            &&& r.1 matches CallbackAction::RequestUserInfo { url, access_token }
                            &&& url@ == o.userinfo_url@
                            &&& access_token@ == t
                        },
                    },
                    (Callback::FetchingUser { next }, CallbackEvent::UserInfoReply(reply)) => match user_outcome(reply, o) {
                        Err(e) => fails_with(r, e),
                        Ok(u) => {
                            &&& r.0 matches Callback::FindingAccount { next: n, user }
                            &&& opt_text(n) == opt_text(next)
                            &&& provider_view(user) == u
                            &&& r.1 matches CallbackAction::FindAccount { email }
                            &&& email@ == u.0
                        },
                    },
                    (Callback::FindingAccount { next, user }, CallbackEvent::AccountFound(found)) => match found {
                        Some(id) => r.0 is OpeningSession && next_of(r.0) == opt_text(next)
                            && r.1 == CallbackAction::OpenSession { user_id: id },
                        None => if config.auto_register {
                            &&& r.0 matches Callback::CountingUsers { next: n, user: u }
                            &&& opt_text(n) == opt_text(next)
                            &&& provider_view(u) == provider_view(user)
                            &&& r.1 is CountUsers
                        } else {
                            fails_with(r, ErrorView::Unauthorized)
                        },
                    },
                    (Callback::CountingUsers { next, user }, CallbackEvent::UserCount(count)) =>
{
                        &&& r.0 is CreatingAccount
                        &&& next_of(r.0) == opt_text(next)
                        &&& r.1 matches CallbackAction::CreateAccount { email, username, role }
                        &&& provider_view(ProviderUser { email, username }) == provider_view(user)
                        &&& role == (if count == 0 { Role::Admin } else { Role::User })
                    },
                    (Callback::CreatingAccount { next }, CallbackEvent::AccountCreated(id)) =>
                        r.0 is OpeningSession && next_of(r.0) == opt_text(next)
                            && r.1 == CallbackAction::OpenSession { user_id: id },
                    (Callback::OpeningSession { next }, CallbackEvent::SessionOpened(token)) =>
{
                        &&& r.0 is Done
                        &&& r.1 matches CallbackAction::Redirect { location, session_token }
                        &&& location@ == safe_redirect_spec(opt_text(next), config.public_url@)
                        &&& session_token@ == token@
                    },
                    _ => false,
                }
            }),
    {
        let o = match &config.oauth {
            Some(o) => o,
            None => unreached(),
        };
        match (self, event) {
            (Callback::LookingUpState, CallbackEvent::StateRow(row)) => match row {
                None => (Callback::Done, CallbackAction::Fail(ApiError::bad_request("unknown or expired OAuth state"))),
                Some((next, created_at)) => (Callback::DeletingState { next, created_at }, CallbackAction::DeleteState),
            },
            (Callback::DeletingState { next, created_at }, CallbackEvent::StateDeleted { now }) => {
                match check_state_fresh(created_at.as_str(), now) {
                    Ok(()) => (
                        Callback::ExchangingCode { next },
                        CallbackAction::RequestToken { url: o.token_url.clone(), form: token_form(o, code) },
                    ),
                    Err(e) => (Callback::Done, CallbackAction::Fail(e)),
                }
            },
            (Callback::ExchangingCode { next }, CallbackEvent::TokenReply(reply)) => {
                match read_access_token(&reply) {
                    Ok(t) => (
                        Callback::FetchingUser { next },
                        CallbackAction::RequestUserInfo { url: o.userinfo_url.clone(), access_token: t },
                    ),
                    Err(e) => (Callback::Done, CallbackAction::Fail(e)),
                }
            },
            (Callback::FetchingUser { next }, CallbackEvent::UserInfoReply(reply)) => {
                match read_user_info(&reply, o) {
                    Ok(user) => {
                        let email = user.email.clone();
                        (Callback::FindingAccount { next, user }, CallbackAction::FindAccount { email })
                    },
                    Err(e) => (Callback::Done, CallbackAction::Fail(e)),
                }
            },
            (Callback::FindingAccount { next, user }, CallbackEvent::AccountFound(found)) => {
                match account_for(found, config.auto_register) {
                    Ok(Some(id)) => (Callback::OpeningSession { next }, CallbackAction::OpenSession { user_id: id }),
                    Ok(None) => (Callback::CountingUsers { next, user }, CallbackAction::CountUsers),
                    Err(e) => (Callback::Done, CallbackAction::Fail(e)),
                }
            },
            (Callback::CountingUsers { next, user }, CallbackEvent::UserCount(count)) => {
                let role = first_user_role(count);
                (
                    Callback::CreatingAccount { next },
                    CallbackAction::CreateAccount { email: user.email, username: user.username, role },
                )
            },
            (Callback::CreatingAccount { next }, CallbackEvent::AccountCreated(id)) => {
                (Callback::OpeningSession { next }, CallbackAction::OpenSession { user_id: id })
            },
            (Callback::OpeningSession { next }, CallbackEvent::SessionOpened(token)) => {
                let location = safe_redirect(next, config.public_url.as_str());
                (Callback::Done, CallbackAction::Redirect { location, session_token: token })
            },
            _ => unreached(),
        }
    }
}

} // verus!

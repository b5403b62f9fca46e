//! Server configuration, read from environment variables (see README).

use vstd::prelude::*;

use crate::text::{
    decimal_text, lower_seq, owned, parse_i64, parse_i64_spec, parse_u16, parse_u16_spec,
    same_text, to_ascii_lowercase, trim, trim_ws, chars_of, string_of, decimal_string,
};

verus! {

/// OAuth 2.0 authorization-code settings used by `/api/v1/auth/*`.
///
/// Any provider that exposes an authorization URL, a token URL and a JSON
/// user-info URL works (GitHub, GitLab, Google, Keycloak, Authentik, ...).
#[derive(Clone, Debug)]
pub struct OAuthConfig {
    pub client_id: String,
    pub client_secret: String,
    pub auth_url: String,
    pub token_url: String,
    pub userinfo_url: String,
    pub scopes: String,
    pub redirect_url: String,
    /// JSON field of the user-info response that holds the e-mail address.
    pub email_field: String,
    /// JSON field of the user-info response used as the preferred username.
    pub username_field: String,
}

#[derive(Clone, Debug)]
pub struct Config {
    pub database_url: String,
    pub host: String,
    pub port: u16,
    /// Externally reachable base URL (used for OAuth redirects).
    pub public_url: String,
    /// Create an account the first time an unknown user logs in through OAuth.
    pub auto_register: bool,
    pub session_ttl_hours: i64,
    /// If set and the user table is empty, an admin with this e-mail is created
    /// on startup and its API key is printed once.
    pub bootstrap_admin_email: Option<String>,
    pub bootstrap_admin_username: Option<String>,
    pub oauth: Option<OAuthConfig>,
}

/// The largest session lifetime, in hours, that a `chrono` duration holds.
pub const MAX_SESSION_TTL_HOURS: i64 = 2_562_047_788_015;

// ---------------------------------------------------------------- environment

/// The value of the first variable named `key`.
pub open spec fn env_lookup(vars: Seq<(String, String)>, key: Seq<char>) -> Option<Seq<char>>
    decreases vars.len(),
{
    if vars.len() == 0 {
        None
    } else if vars[0].0@ == key {
        Some(vars[0].1@)
    } else {
        env_lookup(vars.drop_first(), key)
    }
}

/// A variable counts as set only when its value is not blank.
pub open spec fn env_opt_spec(vars: Seq<(String, String)>, key: Seq<char>) -> Option<Seq<char>> {
    match env_lookup(vars, key) {
        Some(v) => if trim_ws(v).len() > 0 { Some(v) } else { None },
        None => None,
    }
}

pub open spec fn is_true_word(w: Seq<char>) -> bool {
    w == "1"@ || w == "true"@ || w == "yes"@ || w == "on"@
}

pub open spec fn is_false_word(w: Seq<char>) -> bool {
    w == "0"@ || w == "false"@ || w == "no"@ || w == "off"@
}

/// A boolean variable: unset gives `default`; otherwise one of the words
/// above in any ASCII case, or an error naming the variable.
pub open spec fn env_bool_spec(vars: Seq<(String, String)>, key: Seq<char>, default: bool) -> Result<bool, Seq<char>> {
    match env_opt_spec(vars, key) {
        None => Ok(default),
        Some(v) => {
            let w = lower_seq(trim_ws(v));
            if is_true_word(w) {
                Ok(true)
            } else if is_false_word(w) {
                Ok(false)
            } else {
                Err(key + ": expected a boolean, got '"@ + w + "'"@)
            }
        },
    }
}

fn env_lookup_exec(vars: &Vec<(String, String)>, key: &str) -> (r: Option<String>)
    ensures
        match r {
            Some(v) => env_lookup(vars@, key@) == Some(v@),
            None => env_lookup(vars@, key@) is None,
        },
{
    let mut i: usize = 0;
    assert(vars@.skip(0) =~= vars@);
    while i < vars.len()
        invariant
            i <= vars.len(),
            env_lookup(vars@, key@) == env_lookup(vars@.skip(i as int), key@),
        decreases vars.len() - i,
    {
        assert(vars@.skip(i as int)[0] == vars@[i as int]);
        assert(vars@.skip(i as int).drop_first() =~= vars@.skip(i + 1));
        if same_text(vars[i].0.as_str(), key) {
            return Some(vars[i].1.clone());
        }
        i += 1;
    }
    None
}

/// The value of `key`, when set and not blank.
pub fn env_opt(vars: &Vec<(String, String)>, key: &str) -> (r: Option<String>)
    ensures
        match r {
            Some(v) => env_opt_spec(vars@, key@) == Some(v@),
            None => env_opt_spec(vars@, key@) is None,
        },
{
    match env_lookup_exec(vars, key) {
        Some(v) => {
            if trim(v.as_str()).is_empty() {
                None
            } else {
                Some(v)
            }
        },
        None => None,
    }
}

fn is_word(w: &str, a: &str, b: &str, c: &str, d: &str) -> (r: bool)
    ensures
        r == (w@ == a@ || w@ == b@ || w@ == c@ || w@ == d@),
{
    same_text(w, a) || same_text(w, b) || same_text(w, c) || same_text(w, d)
}

pub fn env_bool(vars: &Vec<(String, String)>, key: &str, default: bool) -> (r: Result<bool, String>)
    ensures
        match r {
            Ok(b) => env_bool_spec(vars@, key@, default) == Ok::<bool, Seq<char>>(b),
            Err(m) => env_bool_spec(vars@, key@, default) == Err::<bool, Seq<char>>(m@),
        },
{
    match env_opt(vars, key) {
        None => Ok(default),
        Some(v) => {
            let w = to_ascii_lowercase(trim(v.as_str()));
            if is_word(w.as_str(), "1", "true", "yes", "on") {
                Ok(true)
            } else if is_word(w.as_str(), "0", "false", "no", "off") {
                Ok(false)
            } else {
                Err(owned(key).concat(": expected a boolean, got '").concat(w.as_str()).concat("'"))
            }
        },
    }
}

// ---------------------------------------------------------------- whole configuration

/// `s` without its trailing `/` characters.
pub open spec fn strip_slashes(s: Seq<char>) -> Seq<char>
    decreases s.len(),
{
    if s.len() > 0 && s.last() == '/' {
        strip_slashes(s.drop_last())
    } else {
        s
    }
}

pub open spec fn port_spec(vars: Seq<(String, String)>) -> Result<u16, Seq<char>> {
    match env_opt_spec(vars, "WARP_PORT"@) {
        None => Ok(8080),
        Some(v) => match parse_u16_spec(v) {
            Some(p) => Ok(p),
            None => Err("WARP_PORT: expected a port number, got '"@ + v + "'"@),
        },
    }
}

pub open spec fn ttl_spec(vars: Seq<(String, String)>) -> Result<i64, Seq<char>> {
    match env_opt_spec(vars, "WARP_SESSION_TTL_HOURS"@) {
        None => Ok(720),
        Some(v) => match parse_i64_spec(v) {
            Some(h) => Ok(h),
            None => Err("WARP_SESSION_TTL_HOURS: expected an integer, got '"@ + v + "'"@),
        },
    }
}

pub open spec fn host_spec(vars: Seq<(String, String)>) -> Seq<char> {
    match env_opt_spec(vars, "WARP_HOST"@) {
        Some(h) => h,
        None => "127.0.0.1"@,
    }
}

pub open spec fn public_url_spec(vars: Seq<(String, String)>, port: u16) -> Seq<char> {
    match env_opt_spec(vars, "WARP_PUBLIC_URL"@) {
        Some(u) => strip_slashes(u),
        None => "http://"@ + host_spec(vars) + ":"@ + decimal_text(port as nat),
    }
}

/// The message for a required OAuth variable that is missing.
pub open spec fn required_message(key: Seq<char>) -> Seq<char> {
    key + " is required when OAUTH_CLIENT_ID is set"@
}

/// The first required OAuth variable that is missing, in the order they are
/// checked.
pub open spec fn oauth_missing(vars: Seq<(String, String)>) -> Option<Seq<char>> {
    if env_opt_spec(vars, "OAUTH_CLIENT_SECRET"@) is None {
        Some("OAUTH_CLIENT_SECRET"@)
    } else if env_opt_spec(vars, "OAUTH_AUTH_URL"@) is None {
        Some("OAUTH_AUTH_URL"@)
    } else if env_opt_spec(vars, "OAUTH_TOKEN_URL"@) is None {
        Some("OAUTH_TOKEN_URL"@)
    } else if env_opt_spec(vars, "OAUTH_USERINFO_URL"@) is None {
        Some("OAUTH_USERINFO_URL"@)
    } else {
        None
    }
}

/// The first problem of the environment, if any: the port, the
/// auto-registration flag, the session lifetime, then the OAuth variables.
pub open spec fn config_error(vars: Seq<(String, String)>) -> Option<Seq<char>> {
    if port_spec(vars) is Err {
        Some(port_spec(vars)->Err_0)
    } else if env_bool_spec(vars, "WARP_AUTO_REGISTER"@, true) is Err {
        Some(env_bool_spec(vars, "WARP_AUTO_REGISTER"@, true)->Err_0)
    } else if ttl_spec(vars) is Err {
        Some(ttl_spec(vars)->Err_0)
    } else if env_opt_spec(vars, "OAUTH_CLIENT_ID"@) is Some && oauth_missing(vars) is Some {
        Some(required_message(oauth_missing(vars)->Some_0))
    } else {
        None
    }
}

pub open spec fn opt_view(o: Option<String>) -> Option<Seq<char>> {
    match o {
        Some(s) => Some(s@),
        None => None,
    }
}

pub open spec fn or_default(o: Option<Seq<char>>, d: Seq<char>) -> Seq<char> {
    match o {
        Some(s) => s,
        None => d,
    }
}

/// The OAuth settings that a complete environment gives.
pub open spec fn oauth_matches(c: OAuthConfig, vars: Seq<(String, String)>, public_url: Seq<char>) -> bool {
    &&& Some(c.client_id@) == env_opt_spec(vars, "OAUTH_CLIENT_ID"@)
    &&& Some(c.client_secret@) == env_opt_spec(vars, "OAUTH_CLIENT_SECRET"@)
    &&& Some(c.auth_url@) == env_opt_spec(vars, "OAUTH_AUTH_URL"@)
    &&& Some(c.token_url@) == env_opt_spec(vars, "OAUTH_TOKEN_URL"@)
    &&& Some(c.userinfo_url@) == env_opt_spec(vars, "OAUTH_USERINFO_URL"@)
    &&& c.scopes@ == or_default(env_opt_spec(vars, "OAUTH_SCOPES"@), "openid email profile"@)
    &&& c.redirect_url@ == or_default(
        env_opt_spec(vars, "OAUTH_REDIRECT_URL"@),
        public_url + "/api/v1/auth/o/callback"@,
    )
    &&& c.email_field@ == or_default(env_opt_spec(vars, "OAUTH_EMAIL_FIELD"@), "email"@)
    &&& c.username_field@ == or_default(
        env_opt_spec(vars, "OAUTH_USERNAME_FIELD"@),
        "preferred_username"@,
    )
}

fn strip_trailing_slashes(s: &str) -> (r: String)
    ensures
        r@ == strip_slashes(s@),
{
    let v = chars_of(s);
    let mut n = v.len();
    assert(v@.take(n as int) =~= v@);
    while n > 0 && v[n - 1] == '/'
        invariant
            n <= v.len(),
            v@ == s@,
            strip_slashes(s@) == strip_slashes(v@.take(n as int)),
        decreases n,
    {
        assert(v@.take(n as int).drop_last() =~= v@.take(n - 1));
        n -= 1;
    }
    assert(v@.subrange(0, n as int) =~= v@.take(n as int));
    string_of(&v, 0, n)
}

fn required(vars: &Vec<(String, String)>, key: &str) -> (r: Result<String, String>)
    ensures
        match r {
            Ok(v) => env_opt_spec(vars@, key@) == Some(v@),
            Err(m) => env_opt_spec(vars@, key@) is None && m@ == required_message(key@),
        },
{
    match env_opt(vars, key) {
        Some(v) => Ok(v),
        None => Err(owned(key).concat(" is required when OAUTH_CLIENT_ID is set")),
    }
}

fn or_else(o: Option<String>, d: &str) -> (r: String)
    ensures
        r@ == or_default(opt_view(o), d@),
{
    match o {
        Some(s) => s,
        None => owned(d),
    }
}

impl Config {
    /// Sensible local defaults: SQLite file in the working directory, no OAuth.
    pub fn local() -> (r: Self)
        ensures
            r.database_url@ == "sqlite://sqlite.db?mode=rwc"@,
            r.host@ == "127.0.0.1"@,
            r.port == 8080,
            r.public_url@ == "http://127.0.0.1:8080"@,
            r.auto_register,
            r.session_ttl_hours == 720,
            r.bootstrap_admin_email is None,
            r.bootstrap_admin_username is None,
            r.oauth is None,
    {
        Config {
            database_url: owned("sqlite://sqlite.db?mode=rwc"),
            host: owned("127.0.0.1"),
            port: 8080,
            public_url: owned("http://127.0.0.1:8080"),
            auto_register: true,
            session_ttl_hours: 24 * 30,
            bootstrap_admin_email: None,
            bootstrap_admin_username: None,
            oauth: None,
        }
    }

    /// Build the configuration from the process environment, given as its
    /// list of variables (see README). Blank variables count as unset.
    pub fn from_env(vars: &Vec<(String, String)>) -> (r: Result<Self, String>)
        ensures
            match config_error(vars@) {
                Some(m) => r matches Err(e) && e@ == m,
                None => r matches Ok(c) && {
                    &&& c.database_url@ == or_default(env_opt_spec(vars@, "DATABASE_URL"@), "sqlite://sqlite.db?mode=rwc"@)
                    &&& c.host@ == host_spec(vars@)
                    &&& Ok::<u16, Seq<char>>(c.port) == port_spec(vars@)
                    &&& c.public_url@ == public_url_spec(vars@, c.port)
                    &&& Ok::<bool, Seq<char>>(c.auto_register) == env_bool_spec(vars@, "WARP_AUTO_REGISTER"@, true)
                    &&& Ok::<i64, Seq<char>>(c.session_ttl_hours) == ttl_spec(vars@)
                    &&& opt_view(c.bootstrap_admin_email) == env_opt_spec(vars@, "WARP_BOOTSTRAP_ADMIN_EMAIL"@)
                    &&& opt_view(c.bootstrap_admin_username) == env_opt_spec(vars@, "WARP_BOOTSTRAP_ADMIN_USERNAME"@)
                    &&& match c.oauth {
                        None => env_opt_spec(vars@, "OAUTH_CLIENT_ID"@) is None,
                        Some(o) => oauth_matches(o, vars@, c.public_url@),
                    }
                },
            },
    {
        let mut cfg = Self::local();
        if let Some(v) = env_opt(vars, "DATABASE_URL") {
            cfg.database_url = v;
        }
        if let Some(v) = env_opt(vars, "WARP_HOST") {
            cfg.host = v;
        }
        if let Some(v) = env_opt(vars, "WARP_PORT") {
            match parse_u16(v.as_str()) {
                Some(p) => cfg.port = p,
                None => {
                    return Err(String::from_str("WARP_PORT: expected a port number, got '").concat(
                        v.as_str(),
                    ).concat("'"));
                },
            }
        }
        cfg.public_url = match env_opt(vars, "WARP_PUBLIC_URL") {
            Some(u) => strip_trailing_slashes(u.as_str()),
            None => String::from_str("http://").concat(cfg.host.as_str()).concat(":").concat(
                decimal_string(cfg.port as u64).as_str(),
            ),
        };
        cfg.auto_register = env_bool(vars, "WARP_AUTO_REGISTER", cfg.auto_register)?;
        if let Some(v) = env_opt(vars, "WARP_SESSION_TTL_HOURS") {
            match parse_i64(v.as_str()) {
                Some(h) => cfg.session_ttl_hours = h,
                None => {
                    return Err(String::from_str(
                        "WARP_SESSION_TTL_HOURS: expected an integer, got '",
                    ).concat(v.as_str()).concat("'"));
                },
            }
        }
        cfg.bootstrap_admin_email = env_opt(vars, "WARP_BOOTSTRAP_ADMIN_EMAIL");
        cfg.bootstrap_admin_username = env_opt(vars, "WARP_BOOTSTRAP_ADMIN_USERNAME");

        if let Some(client_id) = env_opt(vars, "OAUTH_CLIENT_ID") {
            let client_secret = required(vars, "OAUTH_CLIENT_SECRET")?;
            let auth_url = required(vars, "OAUTH_AUTH_URL")?;
            let token_url = required(vars, "OAUTH_TOKEN_URL")?;
            let userinfo_url = required(vars, "OAUTH_USERINFO_URL")?;
            let scopes = or_else(env_opt(vars, "OAUTH_SCOPES"), "openid email profile");
            let redirect_url = match env_opt(vars, "OAUTH_REDIRECT_URL") {
                Some(u) => u,
                None => cfg.public_url.clone().concat("/api/v1/auth/o/callback"),
            };
            let email_field = or_else(env_opt(vars, "OAUTH_EMAIL_FIELD"), "email");
            let username_field = or_else(env_opt(vars, "OAUTH_USERNAME_FIELD"), "preferred_username");
            cfg.oauth = Some(OAuthConfig {
                client_id,
                client_secret,
                auth_url,
                token_url,
                userinfo_url,
                scopes,
                redirect_url,
                email_field,
                username_field,
            });
        }
        Ok(cfg)
    }

    /// Browser session lifetime in seconds: `session_ttl_hours` hours, and
    /// at least one hour.
    pub fn session_ttl(&self) -> (r: i64)
        requires
            self.session_ttl_hours <= MAX_SESSION_TTL_HOURS,
        ensures
            r == 3600 * (if self.session_ttl_hours < 1 { 1 } else { self.session_ttl_hours as int }),
    {
        let h = if self.session_ttl_hours < 1 { 1 } else { self.session_ttl_hours };
        h * 3600
    }
}

} // verus!

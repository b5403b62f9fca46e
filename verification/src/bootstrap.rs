//! First-run helpers: the initial admin account and its API key.

use vstd::prelude::*;

use crate::config::Config;
use crate::handlers::opt_text;

verus! {

/// The name of the API key minted for the bootstrap admin.
pub const BOOTSTRAP_KEY_NAME: &'static str = "bootstrap";

/// The admin to create on startup, as an e-mail and an optional username.
#[derive(Debug, Clone)]
pub struct AdminRequest {
    pub email: String,
    pub username: Option<String>,
}

/// When `WARP_BOOTSTRAP_ADMIN_EMAIL` is configured and there are no users
/// yet, that admin is created; otherwise nothing is.
pub fn bootstrap_admin(config: &Config, user_count: i64) -> (r: Option<AdminRequest>)
    ensures
        match config.bootstrap_admin_email {
            Some(e) => if user_count > 0 {
                r is None
            } else {
                r matches Some(a) && a.email@ == e@ && opt_text(a.username) == opt_text(config.bootstrap_admin_username)
            },
            None => r is None,
        },
{
    match &config.bootstrap_admin_email {
        None => None,
        Some(e) => {
            if user_count > 0 {
                None
            } else {
                let username = match &config.bootstrap_admin_username {
                    Some(u) => Some(u.clone()),
                    None => None,
                };
                Some(AdminRequest { email: e.clone(), username })
            }
        },
    }
}

/// What is printed, once, after the bootstrap admin was created.
pub fn bootstrap_notice(username: &str, email: &str, key: &str) -> (r: String)
    ensures
        r@ == "Created bootstrap admin '"@ + username@ + "' <"@ + email@ + ">.\nAPI key (shown once, store it now): "@
            + key@,
{
    String::from_str("Created bootstrap admin '").concat(username).concat("' <").concat(email).concat(
        ">.\nAPI key (shown once, store it now): ",
    ).concat(key)
}

} // verus!

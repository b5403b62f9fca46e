use warp_server::auth::{
    authenticate, bearer_token, check_api_key, clear_session_cookie, create_session, generate_secret,
    generate_token, hash_token, new_session, require_user, session_cookie, AuthLookup, AuthUser,
    Credentials, KeyRow, API_KEY_PREFIX, SESSION_COOKIE,
};
use warp_server::db::api_keys::{check_key_name, create};
use warp_server::error::{found, require_exists, ApiError};
use warp_server::models::records::{Role, Timestamp};

fn user(id: i64, role: Role) -> AuthUser {
    AuthUser { id, username: format!("u{id}"), email: format!("u{id}@x.org"), role }
}

#[test]
fn hash_token_is_sha256_hex() {
    assert_eq!(
        hash_token("abc"),
        "ba7816bf8f01cfea414140de5dae2223b00361a396177a9cb410ff61f20015ad"
    );
    assert_eq!(hash_token("").len(), 64);
}

#[test]
fn tokens_have_their_shape() {
    let t = generate_token();
    assert!(t.starts_with(API_KEY_PREFIX));
    assert_eq!(t.len(), 5 + 48);
    assert!(t[5..].chars().all(|c| c.is_ascii_hexdigit() && !c.is_ascii_uppercase()));
    let s = generate_secret();
    assert_eq!(s.len(), 48);
    assert_ne!(generate_secret(), s);
}

#[test]
fn roles_guard_admin_routes() {
    let admin = user(1, Role::Admin);
    let plain = user(2, Role::User);
    assert!(admin.is_admin());
    assert!(!plain.is_admin());
    assert!(admin.require_admin().is_ok());
    assert!(matches!(plain.require_admin(), Err(ApiError::Forbidden)));
    assert!(plain.require_self_or_admin(2).is_ok());
    assert!(matches!(plain.require_self_or_admin(3), Err(ApiError::Forbidden)));
    assert!(admin.require_self_or_admin(3).is_ok());
    assert_eq!(Role::Admin.as_str(), "Admin");
    assert_eq!(Role::User.as_str(), "User");
}

#[test]
fn bearer_tokens() {
    assert_eq!(bearer_token("Bearer warp_abc"), Some("warp_abc".to_string()));
    assert_eq!(bearer_token("bEaReR   tok  "), Some("tok".to_string()));
    assert_eq!(bearer_token("Basic abc"), None);
    assert_eq!(bearer_token("Bearer "), None);
    assert_eq!(bearer_token("Bearer"), None);
}

#[test]
fn credentials_prefer_the_bearer_token() {
    let c = Credentials::from_request(Some("Bearer k"), Some("s"));
    match authenticate(&c) {
        AuthLookup::ApiKey { digest } => assert_eq!(digest, hash_token("k")),
        other => panic!("unexpected {other:?}"),
    }
    let c = Credentials::from_request(None, Some("s"));
    match authenticate(&c) {
        AuthLookup::Session { digest } => assert_eq!(digest, hash_token("s")),
        other => panic!("unexpected {other:?}"),
    }
    let c = Credentials::from_request(None, None);
    assert!(matches!(authenticate(&c), AuthLookup::Anonymous));
    // A malformed header is not "no credentials" once a cookie is present.
    let c = Credentials::from_request(Some("Basic x"), Some("s"));
    assert!(matches!(authenticate(&c), AuthLookup::Session { .. }));
}

#[test]
fn expired_keys_are_refused() {
    let now = Timestamp { secs: 1_000, nanos: 0 };
    let key = KeyRow { id: 1, user_id: 2, expires_at: Some(Timestamp { secs: 1_000, nanos: 0 }) };
    assert!(matches!(check_api_key(Some(key), now), Err(ApiError::Unauthorized)));
    let key = KeyRow { id: 1, user_id: 2, expires_at: Some(Timestamp { secs: 1_000, nanos: 1 }) };
    assert_eq!(check_api_key(Some(key), now).unwrap().user_id, 2);
    let key = KeyRow { id: 1, user_id: 2, expires_at: None };
    assert!(check_api_key(Some(key), now).is_ok());
    assert!(matches!(check_api_key(None, now), Err(ApiError::Unauthorized)));
    assert!(matches!(require_user(None), Err(ApiError::Unauthorized)));
    assert_eq!(require_user(Some(user(4, Role::User))).unwrap().id, 4);
}

#[test]
fn sessions_and_cookies() {
    let s = new_session(7, 3600, Timestamp { secs: 100, nanos: 5 });
    assert_eq!(s.user_id, 7);
    assert_eq!(s.digest, hash_token(&s.token));
    assert_eq!(s.expires, Timestamp { secs: 3700, nanos: 5 });
    let c = session_cookie("tok", 60);
    assert_eq!(c.name, SESSION_COOKIE);
    assert_eq!(c.value, "tok");
    assert_eq!(c.path, "/");
    assert!(c.http_only && c.same_site_lax && !c.removal);
    assert_eq!(c.max_age_secs, Some(60));
    let c = clear_session_cookie();
    assert_eq!(c.value, "");
    assert!(c.removal);
}

#[test]
fn api_key_names() {
    assert_eq!(check_key_name("  laptop ").unwrap(), "laptop");
    match check_key_name(" ") {
        Err(ApiError::BadRequest(m)) => assert_eq!(m, "key name must be between 1 and 128 characters"),
        other => panic!("unexpected {other:?}"),
    }
    assert!(check_key_name(&"é".repeat(65)).is_err());
    let k = create("cli").unwrap();
    assert_eq!(k.name, "cli");
    assert_eq!(k.digest, hash_token(&k.token));
    assert!(k.token.starts_with("warp_"));
}

#[test]
fn errors_map_to_statuses_and_messages() {
    let cases: Vec<(ApiError, u16, &str)> = vec![
        (ApiError::bad_request("bad"), 400, "bad"),
        (ApiError::Unauthorized, 401, "authentication required"),
        (ApiError::Forbidden, 403, "forbidden"),
        (ApiError::not_found("user"), 404, "user not found"),
        (ApiError::Conflict("dup".into()), 409, "dup"),
        (ApiError::ServiceUnavailable("off".into()), 503, "off"),
        (ApiError::Internal("oops".into()), 500, "internal server error"),
        (ApiError::Database("no such table".into()), 500, "internal server error"),
    ];
    for (e, status, client) in cases {
        assert_eq!(e.status_code(), status);
        assert_eq!(e.client_message(), client);
        assert_eq!(e.asks_for_bearer(), status == 401);
    }
    assert_eq!(ApiError::Database("x".into()).message(), "database error: x");
    assert!(matches!(found::<i64>(None, "commit"), Err(ApiError::NotFound(m)) if m == "commit not found"));
    assert_eq!(found(Some(3), "commit").unwrap(), 3);
    assert!(require_exists(true, "user").is_ok());
    assert!(matches!(require_exists(false, "user"), Err(ApiError::NotFound(m)) if m == "user not found"));
}

#[test]
fn create_session_lasts_its_lifetime() {
    let s = create_session(42, 30 * 24 * 3600).expect("a thirty-day session opens");
    assert_eq!(s.user_id, 42);
    assert_eq!(s.token.len(), 48);
    assert_eq!(s.digest, hash_token(&s.token));
    assert!(s.created.secs > 1_600_000_000);
    assert_eq!(s.expires.secs, s.created.secs + 30 * 24 * 3600);
    assert_eq!(s.expires.nanos, s.created.nanos);
    match create_session(1, i64::MAX) {
        Err(ApiError::Internal(m)) => assert_eq!(m, "session expiry is out of range"),
        other => panic!("unexpected {:?}", other.map(|s| s.user_id)),
    }
}

//! The server's own scenarios, replayed against the decisions the library
//! makes for them (the storage and HTTP halves live in the program).

use warp_server::auth::{authenticate, check_api_key, use_api_key, AuthLookup, AuthUser, Credentials, KeyRow};
use warp_server::config::Config;
use warp_server::db::cascade::{delete_commit, delete_source, delete_user, DeleteStep};
use warp_server::db::uid;
use warp_server::db::users::{check_new_email, start_username_search, UsernamePolicy, UsernameStep};
use warp_server::error::ApiError;
use warp_server::handlers::auth::{oauth, Callback, CallbackAction};
use warp_server::handlers::files::{check_push_access, decode_upload};
use warp_server::handlers::functions::group_by_source;
use warp_server::handlers::search::{search, SearchKind};
use warp_server::handlers::sources::{check_delete, check_members, initial_members, plan_update, validate_name};
use warp_server::handlers::users::{check_username_free, role_changed, username_change};
use warp_server::handlers::Filter;
use warp_server::middleware::{claims_gzip, decode_body, BodyError};
use warp_server::models::records::{Role, Timestamp};
use warp_server::models::request::{ChangeUsername, PutSource, SearchQuery};
use warp_server::models::response::StatusResponse;

fn user(id: i64, name: &str, role: Role) -> AuthUser {
    AuthUser { id, username: name.into(), email: format!("{name}@test.local"), role }
}

fn query() -> SearchQuery {
    SearchQuery {
        q: None,
        kind: None,
        limit: None,
        offset: None,
        function_guid: None,
        commit_id: None,
        source_id: None,
        source_tags: None,
        retrieve_data: None,
    }
}

#[test]
fn malformed_and_unknown_keys_are_rejected() {
    // An unknown key is looked up and not found.
    let c = Credentials::from_request(Some("Bearer warp_not_a_real_key"), None);
    assert!(matches!(authenticate(&c), AuthLookup::ApiKey { .. }));
    let e = check_api_key(None, Timestamp { secs: 0, nanos: 0 }).unwrap_err();
    assert_eq!(e.status_code(), 401);
    assert!(e.asks_for_bearer());
    // A non-bearer scheme is no credential at all; the route then asks for one.
    let c = Credentials::from_request(Some("Basic abc"), None);
    assert!(matches!(authenticate(&c), AuthLookup::Anonymous));
    assert_eq!(ApiError::Unauthorized.status_code(), 401);
}

#[test]
fn expired_keys_are_rejected() {
    // 2000-01-01T00:00:00+00:00
    let expired = KeyRow { id: 1, user_id: 2, expires_at: Some(Timestamp { secs: 946_684_800, nanos: 0 }) };
    let now = Timestamp { secs: 1_700_000_000, nanos: 0 };
    assert!(check_api_key(Some(KeyRow { expires_at: None, ..expired }), now).is_ok());
    assert_eq!(check_api_key(Some(expired), now).unwrap_err().status_code(), 401);
    let dev = AuthUser { id: 2, username: "dev".into(), email: "dev@x.org".into(), role: Role::User };
    let fresh = KeyRow { expires_at: None, ..expired };
    let used = use_api_key(Some(fresh), Some(dev.clone()), now).unwrap();
    assert_eq!((used.key_id, used.user.id, used.last_used_at), (1, 2, now));
    assert_eq!(use_api_key(Some(expired), Some(dev.clone()), now).unwrap_err().status_code(), 401);
    assert_eq!(use_api_key(Some(fresh), None, now).unwrap_err().status_code(), 401);
    assert_eq!(use_api_key(None, Some(dev), now).unwrap_err().status_code(), 401);
}

#[test]
fn oauth_login_is_unavailable_without_configuration() {
    let config = Config::local();
    let e = oauth(&config).unwrap_err();
    assert_eq!(e.status_code(), 503);
    assert!(e.client_message().contains("OAuth"));
    match Callback::start(&config).1 {
        CallbackAction::Fail(e) => assert_eq!(e.status_code(), 503),
        other => panic!("unexpected {other:?}"),
    }
}

#[test]
fn plain_body_with_gzip_header_is_accepted() {
    assert!(claims_gzip(Some("gzip")));
    assert_eq!(decode_body(b"{}".to_vec()).unwrap(), b"{}".to_vec());
    let body = br#"{"name":"from-binja","user_ids":[]}"#.to_vec();
    assert_eq!(decode_body(body.clone()).unwrap(), body);
}

#[test]
fn gzipped_body_is_decoded() {
    // {"name":"nothing-matches"}, gzip-compressed.
    let gz: Vec<u8> = vec![
        0x1f, 0x8b, 0x08, 0x00, 0x00, 0x00, 0x00, 0x00, 0x02, 0x03, 0xab, 0x56, 0xca, 0x4b, 0xcc, 0x4d,
        0x55, 0xb2, 0x52, 0xca, 0xcb, 0x2f, 0xc9, 0xc8, 0xcc, 0x4b, 0xd7, 0xcd, 0x4d, 0x2c, 0x49, 0xce,
        0x48, 0x2d, 0x56, 0xaa, 0x05, 0x00, 0x57, 0xc5, 0x25, 0x11, 0x1a, 0x00, 0x00, 0x00,
    ];
    assert_eq!(decode_body(gz).unwrap(), br#"{"name":"nothing-matches"}"#.to_vec());
}

#[test]
fn corrupt_gzip_is_a_bad_request() {
    match decode_body(b"\x1f\x8bthis is not gzip".to_vec()) {
        Err(e @ BodyError::BadRequest(_)) => assert_eq!(e.status_code(), 400),
        other => panic!("unexpected {other:?}"),
    }
}

#[test]
fn requests_without_the_header_are_untouched() {
    assert!(!claims_gzip(None));
}

#[test]
fn status_reports_ok() {
    assert_eq!(StatusResponse::ok().status, "OK");
}

#[test]
fn creating_a_source_makes_the_creator_a_member() {
    let dev = user(2, "dev", Role::User);
    assert_eq!(validate_name("libfoo").unwrap(), "libfoo");
    assert_eq!(initial_members(&vec![], &dev), vec![2]);
}

#[test]
fn updating_a_source() {
    let dev = user(2, "dev", Role::User);
    let other = user(3, "other", Role::User);
    let admin = user(1, "admin", Role::Admin);
    let rename = PutSource { name: Some("pwned".into()), tags: None, user_ids: None };
    assert_eq!(plan_update(true, false, &other, &rename).unwrap_err().status_code(), 403);
    let rename = PutSource { name: Some("libbar".into()), tags: None, user_ids: None };
    assert_eq!(plan_update(true, true, &dev, &rename).unwrap().name.as_deref(), Some("libbar"));
    assert_eq!(check_members(&vec![2, 9999], &vec![true, false]).unwrap_err().status_code(), 404);
    assert!(check_members(&vec![2, 3], &vec![true, true]).is_ok());
    let tags = PutSource { name: None, tags: Some(vec!["official".into()]), user_ids: None };
    assert_eq!(plan_update(true, true, &dev, &tags).unwrap_err().status_code(), 403);
    let tags = PutSource { name: None, tags: Some(vec!["official".into(), "trusted".into(), " ".into()]), user_ids: None };
    assert_eq!(plan_update(true, false, &admin, &tags).unwrap().tags, Some(vec!["official".to_string(), "trusted".to_string()]));
}

#[test]
fn deleting_a_source() {
    let dev = user(2, "dev", Role::User);
    let other = user(3, "other", Role::User);
    let admin = user(1, "admin", Role::Admin);
    assert_eq!(check_delete(true, false, &other).unwrap_err().status_code(), 403);
    assert!(check_delete(true, true, &dev).is_ok());
    assert_eq!(check_delete(false, false, &admin).unwrap_err().status_code(), 404);
}

#[test]
fn creating_users_requires_an_admin() {
    assert_eq!(user(4, "user", Role::User).require_admin().unwrap_err().status_code(), 403);
    assert!(user(1, "admin", Role::Admin).require_admin().is_ok());
    let email = check_new_email("alice@test.local").unwrap();
    let s = start_username_search(&email, false, Some("alice"), UsernamePolicy::Strict).unwrap();
    assert!(matches!(s.step(false).unwrap(), UsernameStep::Insert(n) if n == "alice"));
    assert_eq!(start_username_search(&email, true, Some("alice"), UsernamePolicy::Strict).unwrap_err().status_code(), 409);
    let email = check_new_email("Bob@Test.local").unwrap();
    assert_eq!(email, "bob@test.local");
    let s = start_username_search(&email, false, None, UsernamePolicy::Strict).unwrap();
    assert!(matches!(s.step(false).unwrap(), UsernameStep::Insert(n) if n == "bob"));
    assert_eq!(check_new_email("not-an-email").unwrap_err().status_code(), 400);
}

#[test]
fn changing_roles_and_usernames() {
    let alice = user(2, "alice", Role::User);
    let bob = user(3, "bob", Role::User);
    assert_eq!(alice.require_admin().unwrap_err().status_code(), 403);
    assert_eq!(role_changed(0).unwrap_err().status_code(), 404);
    let mallory = ChangeUsername { username: "mallory".into() };
    assert_eq!(username_change(&bob, 2, &mallory).unwrap_err().status_code(), 403);
    let renamed = ChangeUsername { username: "alice.w".into() };
    assert_eq!(username_change(&alice, 2, &renamed).unwrap(), "alice.w");
    assert_eq!(check_username_free(true, true).unwrap_err().status_code(), 409);
    let bad = ChangeUsername { username: "not ok!".into() };
    assert_eq!(username_change(&alice, 2, &bad).unwrap_err().status_code(), 400);
}

#[test]
fn deleting_a_user_revokes_their_keys() {
    let steps = delete_user(5);
    assert!(steps.contains(&DeleteStep::ApiKeysOfUser(5)));
    assert!(steps.contains(&DeleteStep::SessionsOfUser(5)));
    assert_eq!(steps.last(), Some(&DeleteStep::User(5)));
}

#[test]
fn push_rejections() {
    let dev = user(2, "dev", Role::User);
    let other = user(3, "other", Role::User);
    let admin = user(1, "admin", Role::Admin);
    assert_eq!(check_push_access(true, false, &other).unwrap_err().status_code(), 403);
    assert_eq!(check_push_access(false, false, &dev).unwrap_err().status_code(), 404);
    assert_eq!(decode_upload("@@not base64@@").unwrap_err().status_code(), 400);
    assert!(check_push_access(true, false, &admin).is_ok());
}

#[test]
fn query_source_maps_sources_to_guids() {
    let s = uid(7);
    let rows = vec![(s.clone(), "g-alpha".to_string()), (s.clone(), "g-gamma".to_string())];
    let (keys, groups) = group_by_source(&rows);
    assert_eq!(keys, vec![s]);
    assert_eq!(groups[0].len(), 2);
    assert!(groups[0].contains(&"g-alpha".to_string()) && groups[0].contains(&"g-gamma".to_string()));
}

#[test]
fn search_across_kinds() {
    let mut q = query();
    q.q = Some("alp".into());
    q.retrieve_data = Some(true);
    let plan = search(&q).unwrap();
    assert_eq!(plan.parts.len(), 4);
    assert!(plan.filters.retrieve_data);
    q.kind = Some("function".into());
    q.retrieve_data = None;
    let plan = search(&q).unwrap();
    assert_eq!(plan.parts.len(), 1);
    assert!(!plan.filters.retrieve_data);
    let mut q = query();
    q.function_guid = Some(42);
    let kinds: Vec<SearchKind> = search(&q).unwrap().parts.iter().map(|p| p.kind).collect();
    assert_eq!(kinds, vec![SearchKind::Function]);
    let mut q = query();
    q.source_tags = Some(vec!["official".into()]);
    let plan = search(&q).unwrap();
    assert!(plan.parts.iter().all(|p| p.filters.contains(&Filter::SourceTagIn("[\"official\"]".into()))));
    let mut q = query();
    q.limit = Some(2);
    q.offset = Some(1);
    let plan = search(&q).unwrap();
    assert_eq!((plan.limit, plan.offset), (2, 1));
    q.kind = Some("bogus".into());
    assert_eq!(search(&q).unwrap_err().status_code(), 400);
}

#[test]
fn deleting_a_commit_removes_its_data() {
    assert_eq!(
        delete_commit(3),
        vec![
            DeleteStep::ConstraintsOfCommit(3),
            DeleteStep::CommentsOfCommit(3),
            DeleteStep::FunctionsOfCommit(3),
            DeleteStep::TypesOfCommit(3),
            DeleteStep::FilesOfCommit(3),
            DeleteStep::Commit(3),
            DeleteStep::UnusedSymbols,
            DeleteStep::UnusedTargets,
        ]
    );
}

#[test]
fn deleting_a_source_removes_its_commits() {
    let steps = delete_source(&uid(1), &vec![3]);
    assert_eq!(steps[..8].to_vec(), delete_commit(3));
    assert_eq!(steps.last(), Some(&DeleteStep::Source(uid(1))));
}

use warp_server::auth::AuthUser;
use warp_server::db::cascade::{delete_commit, delete_source, delete_user, DeleteStep};
use warp_server::db::sql::{filter_sql, search_sql, Columns, SqlPart};
use warp_server::db::uid;
use warp_server::error::ApiError;
use warp_server::handlers::commits::{check_delete as check_commit_delete, commit_filters};
use warp_server::handlers::files::{check_push_access, check_upload, decode_upload, parse_source_field};
use warp_server::handlers::functions::{function_filters, group_by_source, require_function, source_query_limit};
use warp_server::handlers::search::{search, Filters, SearchKind};
use warp_server::handlers::sources::{
    check_delete, check_members, initial_members, normalise_tags, plan_update, source_filters,
    validate_name,
};
use warp_server::handlers::symbols::symbol_filters;
use warp_server::handlers::targets::{first_target_text, target_filters};
use warp_server::handlers::types::type_filters;
use warp_server::handlers::users::{check_username_free, role_changed, user_filters, username_change};
use warp_server::handlers::{name_filter, Filter};
use warp_server::models::records::Role;
use warp_server::models::request::{
    ChangeUsername, CommitQuery, FunctionQuery, PutSource, SearchQuery, SourceQuery, SymbolQuery,
    TargetQuery, TypeQuery, UserQuery,
};

fn user(id: i64, role: Role) -> AuthUser {
    AuthUser { id, username: format!("u{id}"), email: format!("u{id}@x.org"), role }
}

fn empty_search() -> SearchQuery {
    SearchQuery {
        q: None,
        kind: None,
        limit: None,
        offset: None,
        function_guid: None,
        commit_id: None,
        source_id: None,
        source_tags: None,
        retrieve_data: None,
    }
}

#[test]
fn name_filters() {
    assert_eq!(name_filter(&None, None), None);
    assert_eq!(name_filter(&Some("   ".into()), Some(true)), None);
    assert_eq!(name_filter(&Some(" main ".into()), Some(true)), Some(Filter::NameIs("main".into())));
    assert_eq!(name_filter(&Some(" ma_n ".into()), None), Some(Filter::NameLike("%ma\\_n%".into())));
    let q = SymbolQuery { exact: Some(false), limit: None, name: Some("x".into()), page: None };
    assert_eq!(symbol_filters(&q), vec![Filter::NameLike("%x%".into())]);
    let q = TypeQuery { exact: None, format: None, limit: None, name: None, page: None };
    assert!(type_filters(&q).is_empty());
}

#[test]
fn query_filters_keep_their_order() {
    let q = CommitQuery { limit: None, page: None, source_id: Some(1), user_id: Some(9) };
    assert_eq!(commit_filters(&q), vec![Filter::SourceIs(uid(1)), Filter::UserIs(9)]);
    let q = SourceQuery { exact: Some(true), limit: None, name: Some("s".into()), page: None, user_id: Some(3) };
    assert_eq!(source_filters(&q), vec![Filter::NameIs("s".into()), Filter::MemberIs(3)]);
    let q = UserQuery { exact: None, limit: None, name: None, page: None, role: Some(Role::Admin) };
    assert_eq!(user_filters(&q), vec![Filter::RoleIs(Role::Admin)]);
    let q = TargetQuery { arch: Some(" x86_64 ".into()), platform: Some("".into()) };
    assert_eq!(target_filters(&q), vec![Filter::PlatformIs("".into()), Filter::ArchIs("x86_64".into())]);
}

#[test]
fn function_filters_skip_empty_lists() {
    let q = FunctionQuery {
        commit_id: Some(1),
        constraints: Some(vec![]),
        format: None,
        guids: Some(vec![2]),
        limit: None,
        page: None,
        source_id: None,
        source_tags: Some(vec!["trusted".into()]),
        symbol_id: Some(4),
        target_id: Some(5),
    };
    assert_eq!(
        function_filters(&q),
        vec![
            Filter::CommitIs(1),
            Filter::TargetIs(5),
            Filter::SymbolIs(4),
            Filter::GuidIn("[\"00000000-0000-0000-0000-000000000002\"]".into()),
            Filter::SourceTagIn("[\"trusted\"]".into()),
        ]
    );
    assert_eq!(source_query_limit(Some(-3)), Some(0));
    assert_eq!(source_query_limit(Some(7)), Some(7));
    assert_eq!(source_query_limit(None), None);
    assert!(require_function(1).is_ok());
    assert!(matches!(require_function(0), Err(ApiError::NotFound(m)) if m == "function not found"));
}

#[test]
fn guids_are_grouped_by_source() {
    let rows = vec![
        ("a".to_string(), "g1".to_string()),
        ("a".to_string(), "g2".to_string()),
        ("b".to_string(), "g3".to_string()),
        ("a".to_string(), "g4".to_string()),
    ];
    let (keys, groups) = group_by_source(&rows);
    assert_eq!(keys, vec!["a".to_string(), "b".to_string()]);
    assert_eq!(groups[0], vec!["g1".to_string(), "g2".to_string(), "g4".to_string()]);
    assert_eq!(groups[1], vec!["g3".to_string()]);
    let (keys, groups) = group_by_source(&vec![]);
    assert!(keys.is_empty() && groups.is_empty());
    let rows = vec![("z".to_string(), "1".to_string()), ("m".to_string(), "2".to_string()), ("za".to_string(), "3".to_string())];
    let (keys, _) = group_by_source(&rows);
    assert_eq!(keys, vec!["m".to_string(), "z".to_string(), "za".to_string()]);
}

#[test]
fn search_kinds_and_window() {
    let mut q = empty_search();
    let plan = search(&q).unwrap();
    let kinds: Vec<SearchKind> = plan.parts.iter().map(|p| p.kind).collect();
    assert_eq!(kinds, vec![SearchKind::Source, SearchKind::Function, SearchKind::Type, SearchKind::Symbol]);
    assert_eq!((plan.limit, plan.offset), (50, 0));

    q.limit = Some(5000);
    q.offset = Some(-4);
    q.kind = Some(" type ".into());
    let plan = search(&q).unwrap();
    assert_eq!((plan.limit, plan.offset), (1000, 0));
    assert_eq!(plan.parts.len(), 1);
    assert_eq!(plan.parts[0].kind, SearchKind::Type);

    q.kind = Some("nope".into());
    match search(&q) {
        Err(ApiError::BadRequest(m)) => {
            assert_eq!(m, "unknown kind 'nope'; expected one of source, function, type, symbol")
        }
        other => panic!("unexpected {other:?}"),
    }
}

#[test]
fn search_filters_exclude_kinds() {
    let mut q = empty_search();
    q.function_guid = Some(1);
    q.q = Some("  mem  ".into());
    q.retrieve_data = Some(true);
    let plan = search(&q).unwrap();
    let kinds: Vec<SearchKind> = plan.parts.iter().map(|p| p.kind).collect();
    assert_eq!(kinds, vec![SearchKind::Function]);
    assert!(plan.filters.retrieve_data);
    assert_eq!(
        plan.parts[0].filters,
        vec![Filter::NameLike("%mem%".into()), Filter::GuidIs(uid(1))]
    );

    let mut q = empty_search();
    q.source_tags = Some(vec!["official".into()]);
    let f = Filters::from_query(&q);
    assert!(f.applies_to(SearchKind::Source));
    assert!(f.applies_to(SearchKind::Type));
    assert!(!f.applies_to(SearchKind::Symbol));
    assert_eq!(f.tags_json, Some("[\"official\"]".to_string()));
    let mut q = empty_search();
    q.commit_id = Some(3);
    let plan = search(&q).unwrap();
    let kinds: Vec<SearchKind> = plan.parts.iter().map(|p| p.kind).collect();
    assert_eq!(kinds, vec![SearchKind::Function, SearchKind::Type]);
}

#[test]
fn source_names() {
    assert_eq!(validate_name("  tools  ").unwrap(), "tools");
    assert!(validate_name(&"a".repeat(256)).is_ok());
    for bad in ["", "   ", &"a".repeat(257)] {
        match validate_name(bad) {
            Err(ApiError::BadRequest(m)) => assert_eq!(m, "source name must be between 1 and 256 characters"),
            other => panic!("unexpected {other:?}"),
        }
    }
}

#[test]
fn creators_join_their_sources() {
    assert_eq!(initial_members(&vec![5, 3, 5], &user(4, Role::User)), vec![3, 4, 5]);
    assert_eq!(initial_members(&vec![5, 3], &user(4, Role::Admin)), vec![3, 5]);
    assert_eq!(initial_members(&vec![], &user(4, Role::Admin)), vec![4]);
    assert_eq!(initial_members(&vec![4], &user(4, Role::User)), vec![4]);
}

#[test]
fn members_must_exist() {
    assert!(check_members(&vec![1, 2], &vec![true, true]).is_ok());
    match check_members(&vec![1, -2, 3], &vec![true, false, false]) {
        Err(ApiError::NotFound(m)) => assert_eq!(m, "user -2 not found"),
        other => panic!("unexpected {other:?}"),
    }
}

#[test]
fn source_updates() {
    let body = PutSource { name: Some(" new ".into()), tags: Some(vec![" a ".into(), "".into(), "b".into()]), user_ids: None };
    let admin = user(1, Role::Admin);
    let member = user(2, Role::User);
    assert!(matches!(plan_update(false, true, &admin, &body), Err(ApiError::NotFound(m)) if m == "source not found"));
    assert!(matches!(plan_update(true, false, &member, &body), Err(ApiError::Forbidden)));
    assert!(matches!(plan_update(true, true, &member, &body), Err(ApiError::Forbidden)));
    let u = plan_update(true, false, &admin, &body).unwrap();
    assert_eq!(u.name, Some("new".to_string()));
    assert_eq!(u.tags, Some(vec!["a".to_string(), "b".to_string()]));
    assert_eq!(u.user_ids, None);
    let body = PutSource { name: Some("  ".into()), tags: None, user_ids: Some(vec![2]) };
    assert!(matches!(plan_update(true, true, &member, &body), Err(ApiError::BadRequest(_))));
    let body = PutSource { name: None, tags: None, user_ids: Some(vec![2]) };
    assert_eq!(plan_update(true, true, &member, &body).unwrap().user_ids, Some(vec![2]));
    assert_eq!(normalise_tags(&vec![" x".into(), " ".into()]), vec!["x".to_string()]);
    assert!(check_delete(true, true, &member).is_ok());
    assert!(matches!(check_delete(true, false, &member), Err(ApiError::Forbidden)));
    assert!(check_delete(true, false, &admin).is_ok());
    assert!(matches!(check_delete(false, true, &admin), Err(ApiError::NotFound(_))));
}

#[test]
fn commit_deletion_rights() {
    let author = user(2, Role::User);
    assert!(check_commit_delete(&author, Some(2), false).is_ok());
    assert!(check_commit_delete(&author, Some(3), true).is_ok());
    assert!(matches!(check_commit_delete(&author, None, false), Err(ApiError::Forbidden)));
    assert!(check_commit_delete(&user(9, Role::Admin), None, false).is_ok());
}

#[test]
fn cascades_delete_dependents_first() {
    let steps = delete_commit(7);
    assert_eq!(steps.first(), Some(&DeleteStep::ConstraintsOfCommit(7)));
    assert_eq!(steps[5], DeleteStep::Commit(7));
    assert_eq!(steps.last(), Some(&DeleteStep::UnusedTargets));
    assert_eq!(steps.len(), 8);
    let steps = delete_source(&"s".to_string(), &vec![1, 2]);
    assert_eq!(steps.len(), 19);
    assert_eq!(steps.last(), Some(&DeleteStep::Source("s".into())));
    let steps = delete_user(3);
    assert!(steps.contains(&DeleteStep::AnonymiseCommitsOfUser(3)));
    assert_eq!(steps.last(), Some(&DeleteStep::User(3)));
}

#[test]
fn uploads() {
    assert_eq!(check_upload("  f.warp ", 10).unwrap(), "f.warp");
    assert!(matches!(check_upload(" ", 10), Err(ApiError::BadRequest(m)) if m == "name must not be empty"));
    assert!(matches!(check_upload("f", 64 * 1024 * 1024 + 1), Err(ApiError::BadRequest(m)) if m == "file exceeds the 64 MiB limit"));
    assert!(check_upload("f", 64 * 1024 * 1024).is_ok());
    assert_eq!(decode_upload("aGVsbG8=").unwrap(), b"hello".to_vec());
    assert!(matches!(decode_upload("@@@"), Err(ApiError::BadRequest(m)) if m == "file is not valid base64"));
    assert_eq!(parse_source_field(" 00000000-0000-0000-0000-00000000000a ").unwrap(), 10);
    assert!(matches!(parse_source_field("x"), Err(ApiError::BadRequest(m)) if m == "source must be a UUID"));
    let member = user(2, Role::User);
    assert!(check_push_access(true, true, &member).is_ok());
    assert!(matches!(check_push_access(true, false, &member), Err(ApiError::Forbidden)));
    assert!(matches!(check_push_access(false, true, &member), Err(ApiError::NotFound(m)) if m == "source not found"));
}

#[test]
fn targets_answer_the_first_id() {
    assert_eq!(first_target_text(&vec![12, 3]).unwrap(), "12");
    assert!(matches!(first_target_text(&vec![]), Err(ApiError::NotFound(m)) if m == "target not found"));
}

#[test]
fn usernames_change() {
    let me = user(2, Role::User);
    let body = ChangeUsername { username: "  neo ".into() };
    assert_eq!(username_change(&me, 2, &body).unwrap(), "neo");
    assert!(matches!(username_change(&me, 3, &body), Err(ApiError::Forbidden)));
    let bad = ChangeUsername { username: "n e o".into() };
    assert!(matches!(username_change(&me, 2, &bad), Err(ApiError::BadRequest(_))));
    assert!(check_username_free(true, false).is_ok());
    assert!(matches!(check_username_free(true, true), Err(ApiError::Conflict(m)) if m == "username already taken"));
    assert!(matches!(check_username_free(false, false), Err(ApiError::NotFound(m)) if m == "user not found"));
    assert!(role_changed(1).is_ok());
    assert!(matches!(role_changed(0), Err(ApiError::NotFound(_))));
}

fn sql_text(parts: &[SqlPart]) -> (String, Vec<String>) {
    let mut text = String::new();
    let mut binds = Vec::new();
    for p in parts {
        match p {
            SqlPart::Text(t) => text.push_str(t),
            SqlPart::Int(i) => {
                text.push('?');
                binds.push(i.to_string());
            }
            SqlPart::Str(s) => {
                text.push('?');
                binds.push(s.clone());
            }
        }
    }
    (text, binds)
}

#[test]
fn filters_become_conditions_with_parameters() {
    let cols = Columns { name: "sym.name", source: "f.source_id", commit: "f.commit_id" };
    let filters = vec![
        Filter::CommitIs(4),
        Filter::NameLike("%a\\_b%".into()),
        Filter::SourceTagIn("[\"x\"]".into()),
        Filter::RoleIs(Role::Admin),
    ];
    let (text, binds) = sql_text(&filter_sql(&filters, cols));
    assert_eq!(
        text,
        " AND f.commit_id = ? AND sym.name LIKE ? ESCAPE '\\' AND EXISTS (SELECT 1 FROM source_tags st WHERE st.source_id = f.source_id AND st.tag IN (SELECT value FROM json_each(?))) AND role = ?"
    );
    assert_eq!(binds, vec!["4".to_string(), "%a\\_b%".into(), "[\"x\"]".into(), "Admin".into()]);
    assert!(filter_sql(&vec![], cols).is_empty());
}

#[test]
fn search_union_joins_its_parts() {
    let mut q = empty_search();
    q.kind = Some("symbol".into());
    let plan = search(&q).unwrap();
    let (text, binds) = sql_text(&search_sql(&plan));
    assert!(text.starts_with("SELECT 'symbol' AS kind"));
    assert!(!text.contains("UNION ALL"));
    assert!(binds.is_empty());
    let all = search(&empty_search()).unwrap();
    let (text, _) = sql_text(&search_sql(&all));
    assert_eq!(text.matches(" UNION ALL ").count(), 3);
    assert!(text.contains("NULL AS data FROM functions f"));
}

use warp_server::bootstrap::{bootstrap_admin, bootstrap_notice};
use warp_server::cli::{parse_admin, parse_command, AdminCommand, Command, USAGE};
use warp_server::config::{env_bool, Config};
use warp_server::db::ingest::{
    constraint_rows, function_row, require_warp_file, symbol_row, type_row, ChunkContent, ChunkModel,
    CommentModel, ConstraintModel, FunctionModel, Ingest, IngestAction, IngestEvent, IngestSummary, Upload,
    SymbolModel, TypeModel,
};
use warp_server::db::{SymbolClass, SymbolModifiers};
use warp_server::db::warpfile::{group_by_target, non_empty, type_guids, FunctionBlob, TypeBlob};
use warp_server::error::ApiError;
use warp_server::middleware::{claims_gzip, decode_body, gunzip, is_gzip, BodyBuffer, BodyError, MAX_BODY_BYTES};
use warp_server::models::pagination::Pagination;
use warp_server::models::records::Timestamp;
use warp_server::models::response::StatusResponse;

fn vars(pairs: &[(&str, &str)]) -> Vec<(String, String)> {
    pairs.iter().map(|(k, v)| (k.to_string(), v.to_string())).collect()
}

fn args(a: &[&str]) -> Vec<String> {
    a.iter().map(|s| s.to_string()).collect()
}

#[test]
fn local_defaults() {
    let c = Config::local();
    assert_eq!(c.database_url, "sqlite://sqlite.db?mode=rwc");
    assert_eq!(c.host, "127.0.0.1");
    assert_eq!(c.port, 8080);
    assert_eq!(c.public_url, "http://127.0.0.1:8080");
    assert!(c.auto_register);
    assert_eq!(c.session_ttl_hours, 720);
    assert!(c.oauth.is_none());
    assert_eq!(c.session_ttl(), 720 * 3600);
}

#[test]
fn from_env_reads_the_variables() {
    let c = Config::from_env(&vars(&[("WARP_PORT", "9000"), ("WARP_HOST", "0.0.0.0"), ("WARP_AUTO_REGISTER", " OFF ")])).unwrap();
    assert_eq!(c.port, 9000);
    assert_eq!(c.public_url, "http://0.0.0.0:9000");
    assert!(!c.auto_register);
    let c = Config::from_env(&vars(&[("WARP_PUBLIC_URL", "https://warp.example//"), ("WARP_SESSION_TTL_HOURS", "0")])).unwrap();
    assert_eq!(c.public_url, "https://warp.example");
    assert_eq!(c.session_ttl(), 3600);
    let c = Config::from_env(&vars(&[("DATABASE_URL", "   ")])).unwrap();
    assert_eq!(c.database_url, "sqlite://sqlite.db?mode=rwc");
}

#[test]
fn from_env_errors() {
    assert_eq!(
        Config::from_env(&vars(&[("WARP_PORT", "http")])).unwrap_err(),
        "WARP_PORT: expected a port number, got 'http'"
    );
    assert_eq!(
        Config::from_env(&vars(&[("WARP_SESSION_TTL_HOURS", "1.5")])).unwrap_err(),
        "WARP_SESSION_TTL_HOURS: expected an integer, got '1.5'"
    );
    assert_eq!(
        Config::from_env(&vars(&[("WARP_AUTO_REGISTER", "maybe")])).unwrap_err(),
        "WARP_AUTO_REGISTER: expected a boolean, got 'maybe'"
    );
    assert_eq!(
        Config::from_env(&vars(&[("OAUTH_CLIENT_ID", "id")])).unwrap_err(),
        "OAUTH_CLIENT_SECRET is required when OAUTH_CLIENT_ID is set"
    );
}

#[test]
fn from_env_oauth() {
    let c = Config::from_env(&vars(&[
        ("OAUTH_CLIENT_ID", "id"),
        ("OAUTH_CLIENT_SECRET", "secret"),
        ("OAUTH_AUTH_URL", "https://p/auth"),
        ("OAUTH_TOKEN_URL", "https://p/token"),
        ("OAUTH_USERINFO_URL", "https://p/me"),
    ]))
    .unwrap();
    let o = c.oauth.unwrap();
    assert_eq!(o.scopes, "openid email profile");
    assert_eq!(o.redirect_url, "http://127.0.0.1:8080/api/v1/auth/o/callback");
    assert_eq!(o.email_field, "email");
    assert_eq!(o.username_field, "preferred_username");
}

#[test]
fn booleans() {
    assert_eq!(env_bool(&vars(&[]), "X", true), Ok(true));
    assert_eq!(env_bool(&vars(&[("X", "Yes")]), "X", false), Ok(true));
    assert_eq!(env_bool(&vars(&[("X", "0")]), "X", true), Ok(false));
    assert_eq!(env_bool(&vars(&[("X", " ")]), "X", false), Ok(false));
    assert_eq!(env_bool(&vars(&[("X", "Nope")]), "X", false), Err("X: expected a boolean, got 'nope'".to_string()));
}

#[test]
fn pagination_clamps_and_counts() {
    let p = Pagination::new(None, None);
    assert_eq!((p.limit, p.page), (100, 0));
    let p = Pagination::new(Some(0), Some(-1));
    assert_eq!((p.limit, p.page), (1, 0));
    let p = Pagination::new(Some(20_000), Some(3));
    assert_eq!((p.limit, p.page, p.offset()), (10_000, 3, 30_000));
    let p = Pagination::new(Some(10), Some(i64::MAX));
    assert_eq!(p.offset(), i64::MAX);
    let p = Pagination::new(Some(10), Some(0));
    let w = p.wrap(vec![1, 2, 3], 21);
    assert_eq!((w.total_pages, w.total_results, w.items.len()), (3, 21, 3));
    assert_eq!(p.wrap(Vec::<i32>::new(), 0).total_pages, 0);
    assert_eq!(p.wrap(Vec::<i32>::new(), 20).total_pages, 2);
    let largest = i64::MAX - 10 + 1;
    assert_eq!(p.wrap(Vec::<i32>::new(), largest).total_pages, i64::MAX / 10);
}

#[test]
fn timestamps_order_by_instant() {
    let a = Timestamp { secs: 5, nanos: 10 };
    let b = Timestamp { secs: 5, nanos: 11 };
    assert!(a.at_or_before(&b));
    assert!(a.at_or_before(&a));
    assert!(!b.at_or_before(&a));
    assert!(Timestamp { secs: -1, nanos: 999_999_999 }.at_or_before(&Timestamp { secs: 0, nanos: 0 }));
    assert_eq!(StatusResponse::ok().status, "OK");
}

#[test]
fn gzip_sniffing() {
    assert!(claims_gzip(Some(" GZip ")));
    assert!(!claims_gzip(Some("br")));
    assert!(!claims_gzip(None));
    assert!(is_gzip(&[0x1f, 0x8b, 0]));
    assert!(!is_gzip(&[0x1f]));
    assert!(!is_gzip(b"{}"));
    assert_eq!(decode_body(b"{\"a\":1}".to_vec()).unwrap(), b"{\"a\":1}".to_vec());
    // "hello" compressed with gzip.
    let gz: Vec<u8> = vec![
        0x1f, 0x8b, 0x08, 0x00, 0x00, 0x00, 0x00, 0x00, 0x00, 0x03, 0xcb, 0x48, 0xcd, 0xc9, 0xc9,
        0x07, 0x00, 0x86, 0xa6, 0x10, 0x36, 0x05, 0x00, 0x00, 0x00,
    ];
    assert_eq!(decode_body(gz.clone()).unwrap(), b"hello".to_vec());
    assert_eq!(gunzip(&gz).unwrap(), b"hello".to_vec());
    match decode_body(vec![0x1f, 0x8b, 1, 2, 3]) {
        Err(BodyError::BadRequest(m)) => assert!(m.starts_with("invalid gzip request body: ")),
        other => panic!("unexpected {other:?}"),
    }
    assert_eq!(BodyError::PayloadTooLarge.status_code(), 413);
    assert_eq!(BodyError::PayloadTooLarge.message(), "request body too large");
}

#[test]
fn body_buffer_limit() {
    let mut b = BodyBuffer::new();
    assert!(b.push_chunk(b"ab").is_ok());
    assert!(b.push_chunk(b"c").is_ok());
    assert_eq!(b.bytes, b"abc".to_vec());
    let mut big = BodyBuffer { bytes: vec![0; MAX_BODY_BYTES - 1] };
    assert!(matches!(big.push_chunk(b"xy"), Err(BodyError::PayloadTooLarge)));
    assert_eq!(big.bytes.len(), MAX_BODY_BYTES - 1);
    assert!(big.push_chunk(b"x").is_ok());
}

#[test]
fn commands() {
    assert_eq!(parse_command(&args(&[])), Ok(Command::Serve));
    assert_eq!(parse_command(&args(&["serve"])), Ok(Command::Serve));
    assert_eq!(parse_command(&args(&["-h"])), Ok(Command::Help));
    assert_eq!(
        parse_command(&args(&["admin", "create", "a@b.c"])),
        Ok(Command::Admin(AdminCommand::Create { email: "a@b.c".into(), username: None }))
    );
    assert_eq!(
        parse_command(&args(&["admin", "key", "a@b.c"])),
        Ok(Command::Admin(AdminCommand::Key { email: "a@b.c".into(), name: "cli".into() }))
    );
    assert_eq!(
        parse_admin(&args(&["promote", "a@b.c"])),
        Ok(AdminCommand::Promote { email: "a@b.c".into() })
    );
    assert_eq!(parse_admin(&args(&["promote", "a@b.c", "x"])), Err(format!("invalid admin command\n\n{USAGE}")));
    assert_eq!(parse_command(&args(&["frob"])), Err(format!("unknown command 'frob'\n\n{USAGE}")));
    assert_eq!(
        parse_command(&args(&["admin", "promote", "root@x.org"])),
        Ok(Command::Admin(AdminCommand::Promote { email: "root@x.org".into() }))
    );
    assert_eq!(
        parse_command(&args(&["admin", "create", "a@b.c", "alice"])),
        Ok(Command::Admin(AdminCommand::Create { email: "a@b.c".into(), username: Some("alice".into()) }))
    );
}

#[test]
fn bootstrap_only_on_an_empty_server() {
    let mut c = Config::local();
    assert!(bootstrap_admin(&c, 0).is_none());
    c.bootstrap_admin_email = Some("root@x.org".into());
    let a = bootstrap_admin(&c, 0).unwrap();
    assert_eq!(a.email, "root@x.org");
    assert!(a.username.is_none());
    assert!(bootstrap_admin(&c, 1).is_none());
    assert_eq!(
        bootstrap_notice("root", "root@x.org", "warp_k"),
        "Created bootstrap admin 'root' <root@x.org>.\nAPI key (shown once, store it now): warp_k"
    );
}

fn blob(id: i64, platform: &str, arch: &str) -> FunctionBlob {
    FunctionBlob { id, data: vec![], platform: platform.into(), arch: arch.into() }
}

#[test]
fn one_chunk_per_target() {
    let rows = vec![blob(1, "linux", "x86"), blob(2, "", "arm"), blob(3, "linux", "x86"), blob(4, "linux", "arm")];
    let groups = group_by_target(&rows, &vec![true, true, true, false]);
    assert_eq!(groups.len(), 2);
    assert_eq!((groups[0].platform.as_str(), groups[0].arch.as_str()), ("", "arm"));
    assert_eq!(groups[0].rows, vec![1]);
    assert_eq!((groups[1].platform.as_str(), groups[1].arch.as_str()), ("linux", "x86"));
    assert_eq!(groups[1].rows, vec![0, 2]);
    let rows = vec![blob(1, "w", "b"), blob(2, "w", "a"), blob(3, "v", "z")];
    let groups = group_by_target(&rows, &vec![true, true, true]);
    let order: Vec<(String, String)> = groups.iter().map(|g| (g.platform.clone(), g.arch.clone())).collect();
    assert_eq!(order, vec![("v".into(), "z".into()), ("w".into(), "a".into()), ("w".into(), "b".into())]);
    assert_eq!(non_empty(String::new()), None);
    assert_eq!(non_empty("arm".into()), Some("arm".to_string()));
    let types = vec![
        TypeBlob { id: "00000000-0000-0000-0000-000000000001".into(), data: vec![] },
        TypeBlob { id: "bad".into(), data: vec![] },
    ];
    assert_eq!(type_guids(&types), vec![(0, 1)]);
}

#[test]
fn ingest_counts() {
    let mut s = IngestSummary::start(9, 3);
    s.add_functions(4);
    s.add_type(true);
    s.add_type(false);
    s.add_functions(1);
    assert_eq!((s.commit_id, s.chunks, s.functions, s.types), (9, 3, 5, 1));
    assert!(matches!(require_warp_file::<()>(None), Err(ApiError::BadRequest(m)) if m == "file is not a valid WARP file"));
}

#[test]
fn ingest_rows() {
    let ty = TypeModel { guid: 2, name: Some("T".into()), data: vec![9] };
    let f = FunctionModel {
        guid: 1,
        symbol: SymbolModel {
            name: "main".into(),
            class: SymbolClass::Function,
            modifiers: SymbolModifiers { exported: true, external: false },
        },
        ty: Some(ty.clone()),
        constraints: vec![ConstraintModel { guid: 3, offset: Some(-4) }, ConstraintModel { guid: 4, offset: None }],
        comments: vec![CommentModel { text: "hi".into(), offset: 8 }],
        data: vec![1, 2],
    };
    let s = symbol_row(&f.symbol);
    assert_eq!((s.name.as_str(), s.class, s.modifier), ("main", "Function", "Exported"));
    let t = type_row(&ty, 5, 6);
    assert_eq!(t.id, "00000000-0000-0000-0000-000000000002");
    assert_eq!(t.source_id, "00000000-0000-0000-0000-000000000005");
    assert_eq!((t.commit_id, t.name.as_deref(), t.data.clone()), (6, Some("T"), vec![9]));
    let r = function_row(&f, 5, 6, 7, 8);
    assert_eq!(r.guid, "00000000-0000-0000-0000-000000000001");
    assert_eq!(r.type_id.as_deref(), Some("00000000-0000-0000-0000-000000000002"));
    assert_eq!((r.commit_id, r.target_id, r.symbol_id, r.data), (6, 7, 8, vec![1, 2]));
    let c = constraint_rows(&f);
    assert_eq!(c, vec![("00000000-0000-0000-0000-000000000003".to_string(), Some(-4)), ("00000000-0000-0000-0000-000000000004".to_string(), None)]);
    let untyped = FunctionModel { ty: None, ..f };
    assert_eq!(function_row(&untyped, 5, 6, 7, 8).type_id, None);
}

#[test]
fn ingest_walks_a_whole_file() {
    let f = FunctionModel {
        guid: 1,
        symbol: SymbolModel {
            name: "main".into(),
            class: SymbolClass::Function,
            modifiers: SymbolModifiers { exported: true, external: false },
        },
        ty: Some(TypeModel { guid: 2, name: Some("T".into()), data: vec![9] }),
        constraints: vec![ConstraintModel { guid: 3, offset: Some(-4) }, ConstraintModel { guid: 4, offset: None }],
        comments: vec![CommentModel { text: "hi".into(), offset: 8 }],
        data: vec![1, 2],
    };
    let chunks = vec![
        ChunkModel {
            platform: Some("linux".into()),
            architecture: Some("x86_64".into()),
            content: ChunkContent::Signature(vec![f]),
        },
        ChunkModel {
            platform: None,
            architecture: None,
            content: ChunkContent::Type(vec![
                TypeModel { guid: 11, name: None, data: vec![] },
                TypeModel { guid: 12, name: Some("U".into()), data: vec![3] },
            ]),
        },
    ];
    let upload = Upload { user_id: 4, name: "libc".into(), description: Some("glibc 2.39".into()), file: vec![7, 8, 9] };
    let (mut ingest, first): (Ingest, IngestAction) = Ingest::new(chunks, 5, upload);
    match first {
        IngestAction::InsertCommit(r) => {
            assert_eq!(r.source_id, "00000000-0000-0000-0000-000000000005");
            assert_eq!((r.user_id, r.name.as_str(), r.description.as_deref()), (4, "libc", Some("glibc 2.39")));
        }
        other => panic!("unexpected {:?}", other),
    }
    match ingest.step(IngestEvent::CommitCreated(6)) {
        IngestAction::StoreFile(f) => {
            assert_eq!((f.commit_id, f.source_id.as_str(), f.name.as_str()), (6, "00000000-0000-0000-0000-000000000005", "libc"));
            assert_eq!(f.file, vec![7, 8, 9]);
        }
        other => panic!("unexpected {:?}", other),
    }
    match ingest.step(IngestEvent::FileStored) {
        IngestAction::UpsertTarget { platform, arch } => assert_eq!((platform.as_str(), arch.as_str()), ("linux", "x86_64")),
        other => panic!("unexpected {:?}", other),
    }
    match ingest.step(IngestEvent::TargetId(7)) {
        IngestAction::UpsertSymbol(r) => assert_eq!((r.name.as_str(), r.class, r.modifier), ("main", "Function", "Exported")),
        other => panic!("unexpected {:?}", other),
    }
    match ingest.step(IngestEvent::SymbolId(8)) {
        IngestAction::UpsertType(r) => assert_eq!(r.id, "00000000-0000-0000-0000-000000000002"),
        other => panic!("unexpected {:?}", other),
    }
    match ingest.step(IngestEvent::TypeStored(true)) {
        IngestAction::InsertFunction(r) => {
            assert_eq!(r.guid, "00000000-0000-0000-0000-000000000001");
            assert_eq!((r.commit_id, r.target_id, r.symbol_id), (6, 7, 8));
        }
        other => panic!("unexpected {:?}", other),
    }
    match ingest.step(IngestEvent::FunctionId(9)) {
        IngestAction::InsertConstraint { function_id, guid, offset } => {
            assert_eq!((function_id, guid.as_str(), offset), (9, "00000000-0000-0000-0000-000000000003", Some(-4)))
        }
        other => panic!("unexpected {:?}", other),
    }
    match ingest.step(IngestEvent::RowStored) {
        IngestAction::InsertConstraint { function_id, guid, offset } => {
            assert_eq!((function_id, guid.as_str(), offset), (9, "00000000-0000-0000-0000-000000000004", None))
        }
        other => panic!("unexpected {:?}", other),
    }
    match ingest.step(IngestEvent::RowStored) {
        IngestAction::InsertComment { function_id, text, offset } => assert_eq!((function_id, text.as_str(), offset), (9, "hi", 8)),
        other => panic!("unexpected {:?}", other),
    }
    match ingest.step(IngestEvent::RowStored) {
        IngestAction::UpsertTarget { platform, arch } => assert_eq!((platform.as_str(), arch.as_str()), ("", "")),
        other => panic!("unexpected {:?}", other),
    }
    match ingest.step(IngestEvent::TargetId(10)) {
        IngestAction::UpsertType(r) => assert_eq!((r.id.as_str(), r.name.as_deref()), ("00000000-0000-0000-0000-00000000000b", None)),
        other => panic!("unexpected {:?}", other),
    }
    match ingest.step(IngestEvent::TypeStored(true)) {
        IngestAction::UpsertType(r) => assert_eq!((r.id.as_str(), r.name.as_deref()), ("00000000-0000-0000-0000-00000000000c", Some("U"))),
        other => panic!("unexpected {:?}", other),
    }
    match ingest.step(IngestEvent::TypeStored(false)) {
        IngestAction::Finish(s) => {
            assert_eq!((s.commit_id, s.chunks, s.functions, s.types), (6, 2, 1, 1));
        }
        other => panic!("unexpected {:?}", other),
    }
}

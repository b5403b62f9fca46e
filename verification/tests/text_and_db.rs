use warp_server::db::users::{
    check_new_email, normalise_email, sanitise_username, start_username_search, validate_username,
    UsernamePolicy, UsernameStep,
};
use warp_server::db::{
    json_ints, json_strings, json_uuids, like_contains, symbol_class_name, symbol_modifier_name,
    target_columns, uid, uids, SymbolClass, SymbolModifiers,
};
use warp_server::error::ApiError;
use warp_server::text::{
    decimal_string, eq_ignore_ascii_case, parse_i64, parse_u16, same_text, signed_string,
    starts_with, text_less, to_ascii_lowercase,
};

#[test]
fn like_contains_wraps_and_escapes() {
    assert_eq!(like_contains("abc"), "%abc%");
    assert_eq!(like_contains("50%_off\\"), "%50\\%\\_off\\\\%");
    assert_eq!(like_contains(""), "%%");
}

#[test]
fn uid_is_lower_case_hyphenated() {
    assert_eq!(uid(0), "00000000-0000-0000-0000-000000000000");
    assert_eq!(
        uid(0x0123_4567_89ab_cdef_0011_2233_4455_6677),
        "01234567-89ab-cdef-0011-223344556677"
    );
    assert_eq!(uids(&vec![0, u128::MAX]).len(), 2);
}

#[test]
fn json_lists() {
    assert_eq!(json_strings(&vec!["a".to_string(), "b\"c".to_string()]), "[\"a\",\"b\\\"c\"]");
    assert_eq!(json_strings(&vec![]), "[]");
    assert_eq!(json_ints(&[1, -2, 3]), "[1,-2,3]");
    assert_eq!(json_uuids(&vec![1]), "[\"00000000-0000-0000-0000-000000000001\"]");
}

#[test]
fn symbol_names() {
    assert_eq!(symbol_class_name(SymbolClass::Function), "Function");
    assert_eq!(symbol_class_name(SymbolClass::Data), "Data");
    assert_eq!(symbol_class_name(SymbolClass::Bare), "Bare");
    let both = SymbolModifiers { exported: true, external: true };
    assert_eq!(symbol_modifier_name(both), "Exported");
    assert_eq!(symbol_modifier_name(SymbolModifiers { exported: false, external: true }), "Extern");
    assert_eq!(symbol_modifier_name(SymbolModifiers { exported: false, external: false }), "None");
}

#[test]
fn target_columns_default_to_empty() {
    let (p, a) = target_columns(&Some("windows".to_string()), &None);
    assert_eq!(p, "windows");
    assert_eq!(a, "");
}

#[test]
fn text_helpers() {
    assert!(same_text("abc", "abc"));
    assert!(!same_text("abc", "abd"));
    assert!(starts_with("/api", "/"));
    assert!(!starts_with("a", "ab"));
    assert_eq!(to_ascii_lowercase("GzIp-Ä"), "gzip-Ä");
    assert!(eq_ignore_ascii_case("BEARER", "bearer"));
    assert_eq!(parse_u16("8080"), Some(8080));
    assert_eq!(parse_u16("+1"), Some(1));
    assert_eq!(parse_u16("65536"), None);
    assert_eq!(parse_u16("x"), None);
    assert_eq!(parse_i64("-42"), Some(-42));
    assert_eq!(parse_i64("9223372036854775808"), None);
    assert_eq!(decimal_string(0), "0");
    assert_eq!(decimal_string(1234), "1234");
    assert_eq!(signed_string(-7), "-7");
    assert_eq!(signed_string(i64::MIN), "-9223372036854775808");
    for (a, b) in [("a", "b"), ("", "a"), ("ab", "abc"), ("Z", "a"), ("z", "é")] {
        assert!(text_less(a, b));
        assert!(!text_less(b, a));
        assert_eq!(text_less(a, b), a < b);
    }
    assert!(!text_less("same", "same"));
}

#[test]
fn normalise_email_trims_and_lowercases() {
    assert_eq!(normalise_email("  Alice@Example.COM "), "alice@example.com");
    let once = normalise_email(" Bob@X.org");
    assert_eq!(normalise_email(&once), once);
}

#[test]
fn sanitise_username_keeps_safe_characters() {
    assert_eq!(sanitise_username("  john.doe-1_x  "), "john.doe-1_x");
    assert_eq!(sanitise_username("jöhn doe!"), "jhndoe");
    assert_eq!(sanitise_username("!!!"), "user");
    assert_eq!(sanitise_username(""), "user");
    assert_eq!(sanitise_username(&"a".repeat(70)).len(), 64);
    let s = sanitise_username("we ird");
    assert_eq!(sanitise_username(&s), s);
    assert!(validate_username(&s).is_ok());
}

#[test]
fn validate_username_messages() {
    match validate_username("   ") {
        Err(ApiError::BadRequest(m)) => assert_eq!(m, "username must be between 1 and 64 characters"),
        other => panic!("unexpected {other:?}"),
    }
    match validate_username("bad name") {
        Err(ApiError::BadRequest(m)) => {
            assert_eq!(m, "username may only contain letters, digits, '.', '-' and '_'")
        }
        other => panic!("unexpected {other:?}"),
    }
    assert!(validate_username(" good.name ").is_ok());
    assert!(validate_username(&"a".repeat(65)).is_err());
}

#[test]
fn new_email_is_normalised_and_checked() {
    assert_eq!(check_new_email(" A@B.example ").unwrap(), "a@b.example");
    match check_new_email("not-an-email") {
        Err(ApiError::BadRequest(m)) => assert_eq!(m, "invalid email address"),
        other => panic!("unexpected {other:?}"),
    }
}

#[test]
fn username_search_deduplicates() {
    let s = start_username_search("alice@example.com", false, None, UsernamePolicy::Deduplicate).unwrap();
    assert_eq!(s.candidate, "alice");
    let s = match s.step(true).unwrap() {
        UsernameStep::Retry(next) => next,
        other => panic!("unexpected {other:?}"),
    };
    assert_eq!(s.candidate, "alice2");
    let s = match s.step(true).unwrap() {
        UsernameStep::Retry(next) => next,
        other => panic!("unexpected {other:?}"),
    };
    assert_eq!(s.candidate, "alice3");
    match s.step(false).unwrap() {
        UsernameStep::Insert(name) => assert_eq!(name, "alice3"),
        other => panic!("unexpected {other:?}"),
    }
}

#[test]
fn username_search_strict() {
    let s = start_username_search("a@b.c", false, Some(" bob "), UsernamePolicy::Strict).unwrap();
    assert_eq!(s.candidate, "bob");
    match s.step(true) {
        Err(ApiError::Conflict(m)) => assert_eq!(m, "username already taken"),
        other => panic!("unexpected {other:?}"),
    }
    match start_username_search("a@b.c", false, Some("b o b"), UsernamePolicy::Strict) {
        Err(ApiError::BadRequest(_)) => {}
        other => panic!("unexpected {other:?}"),
    }
    match start_username_search("a@b.c", true, None, UsernamePolicy::Strict) {
        Err(ApiError::Conflict(m)) => assert_eq!(m, "a user with this email already exists"),
        other => panic!("unexpected {other:?}"),
    }
    let s = start_username_search("a@b.c", false, Some("b o b"), UsernamePolicy::Deduplicate).unwrap();
    assert_eq!(s.candidate, "bob");
}

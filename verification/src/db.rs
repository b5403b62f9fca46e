//! Storage-side helpers: how values are written into columns and query
//! parameters.

pub mod api_keys;
pub mod cascade;
pub mod sql;
pub mod ingest;
pub mod users;
pub mod warpfile;

use vstd::prelude::*;
use vstd::arithmetic::power::pow;

use crate::text::{chars_of, hex_digit, push_char};

verus! {

// ---------------------------------------------------------------- UUIDs

/// Hexadecimal digit `k` (0 = most significant) of the 128-bit value `v`.
pub open spec fn uuid_nibble(v: u128, k: int) -> int {
    (v as int / pow(16, (31 - k) as nat)) % 16
}

/// Index among the 32 digits of the character at position `i` of the
/// hyphenated form.
pub open spec fn uuid_digit_index(i: int) -> int {
    if i < 8 {
        i
    } else if i < 13 {
        i - 1
    } else if i < 18 {
        i - 2
    } else if i < 23 {
        i - 3
    } else {
        i - 4
    }
}

/// Canonical hyphenated text of a UUID: 32 lower-case digits, most
/// significant first, grouped 8-4-4-4-12.
pub open spec fn hyphenated(v: u128) -> Seq<char> {
    Seq::new(
        36,
        |i: int|
            if i == 8 || i == 13 || i == 18 || i == 23 {
                '-'
            } else {
                hex_digit(uuid_nibble(v, uuid_digit_index(i)))
            },
    )
}

/// `uuid::Uuid::from_u128(v).hyphenated().to_string()`.
#[verifier::external_body]
fn hyphenated_text(v: u128) -> (r: String)
    ensures
        r@ == hyphenated(v),
{
    uuid::Uuid::from_u128(v).hyphenated().to_string()
}

/// Canonical textual form used for every UUID column.
pub fn uid(id: u128) -> (r: String)
    ensures
        r@ == hyphenated(id),
{
    hyphenated_text(id)
}

/// The UUID that `uuid::Uuid::parse_str` reads from `text`, if any.
pub uninterp spec fn uuid_parse(text: Seq<char>) -> Option<u128>;

/// `uuid::Uuid::parse_str`: the 128-bit value, or `None` when `text` is not
/// a UUID in one of the crate's formats.
#[verifier::external_body]
pub(crate) fn parse_uuid(text: &str) -> (r: Option<u128>)
    ensures
        r == uuid_parse(text@),
{
    match uuid::Uuid::parse_str(text) {
        Ok(u) => Some(u.as_u128()),
        Err(_) => None,
    }
}

// ---------------------------------------------------------------- LIKE

/// A character that `LIKE ... ESCAPE '\'` treats specially.
pub open spec fn is_like_special(c: char) -> bool {
    c == '%' || c == '_' || c == '\\'
}

/// `s` with every special character preceded by a backslash.
pub open spec fn like_escape(s: Seq<char>) -> Seq<char>
    decreases s.len(),
{
    if s.len() == 0 {
        Seq::empty()
    } else {
        (if is_like_special(s[0]) { seq!['\\', s[0]] } else { seq![s[0]] }) + like_escape(s.drop_first())
    }
}

/// Reads an escaped pattern back: a backslash takes the next character
/// literally.
pub open spec fn like_unescape(p: Seq<char>) -> Seq<char>
    decreases p.len(),
{
    if p.len() == 0 {
        Seq::empty()
    } else if p[0] == '\\' && p.len() >= 2 {
        seq![p[1]] + like_unescape(p.subrange(2, p.len() as int))
    } else {
        seq![p[0]] + like_unescape(p.drop_first())
    }
}

/// No wildcard of an escaped pattern is left unescaped: every `%` or `_` is
/// preceded by a backslash that is itself not escaped.
pub open spec fn no_bare_wildcard(p: Seq<char>) -> bool
    decreases p.len(),
{
    if p.len() == 0 {
        true
    } else if p[0] == '\\' {
        p.len() >= 2 && no_bare_wildcard(p.subrange(2, p.len() as int))
    } else {
        p[0] != '%' && p[0] != '_' && no_bare_wildcard(p.drop_first())
    }
}

proof fn lemma_like_escape_push(s: Seq<char>, c: char)
    ensures
        like_escape(s.push(c)) == like_escape(s) + (if is_like_special(c) { seq!['\\', c] } else { seq![c] }),
    decreases s.len(),
{
    if s.len() == 0 {
        let t = if is_like_special(c) { seq!['\\', c] } else { seq![c] };
        assert(s.push(c).drop_first() =~= Seq::<char>::empty());
        assert(s.push(c)[0] == c);
        assert(like_escape(Seq::<char>::empty()) == Seq::<char>::empty());
        assert(like_escape(s.push(c)) == t + like_escape(Seq::<char>::empty()));
        assert(t + Seq::<char>::empty() =~= t);
        assert(like_escape(s) == Seq::<char>::empty());
        assert(Seq::<char>::empty() + t =~= t);
    } else {
        lemma_like_escape_push(s.drop_first(), c);
        assert(s.push(c).drop_first() =~= s.drop_first().push(c));
        let h = if is_like_special(s[0]) { seq!['\\', s[0]] } else { seq![s[0]] };
        let t = if is_like_special(c) { seq!['\\', c] } else { seq![c] };
        assert(like_escape(s.push(c)) == h + like_escape(s.drop_first().push(c)));
        assert(h + (like_escape(s.drop_first()) + t) =~= (h + like_escape(s.drop_first())) + t);
    }
}

/// Unescaping an escaped term gives the term back, and the escaped term has
/// no bare wildcard: the pattern `%<escaped>%` matches exactly the texts
/// that contain the term.
pub proof fn lemma_like_escape_round_trip(s: Seq<char>)
    ensures
        like_unescape(like_escape(s)) == s,
        no_bare_wildcard(like_escape(s)),
    decreases s.len(),
{
    if s.len() > 0 {
        lemma_like_escape_round_trip(s.drop_first());
        let rest = like_escape(s.drop_first());
        let e = like_escape(s);
        if is_like_special(s[0]) {
            assert(e == seq!['\\', s[0]] + rest);
            assert(e.subrange(2, e.len() as int) =~= rest);
            assert(like_unescape(e) == seq![s[0]] + like_unescape(rest));
        } else {
            assert(e == seq![s[0]] + rest);
            assert(e.drop_first() =~= rest);
            assert(like_unescape(e) == seq![s[0]] + like_unescape(rest));
        }
        assert(seq![s[0]] + s.drop_first() =~= s);
    }
}

/// The parameter for a `%term%` search: the term with the `LIKE` wildcards
/// escaped, between two `%`. Pair with `LIKE ? ESCAPE '\'`.
pub fn like_contains(term: &str) -> (r: String)
    ensures
        r@ == seq!['%'] + like_escape(term@) + seq!['%'],
{
    let v = chars_of(term);
    let mut out = String::new();
    push_char(&mut out, '%');
    let mut i: usize = 0;
    while i < v.len()
        invariant
            v@ == term@,
            i <= v.len(),
            out@ == seq!['%'] + like_escape(v@.take(i as int)),
        decreases v.len() - i,
    {
        let ch = v[i];
        proof {
            lemma_like_escape_push(v@.take(i as int), ch);
            assert(v@.take(i + 1) =~= v@.take(i as int).push(ch));
        }
        if ch == '%' || ch == '_' || ch == '\\' {
            push_char(&mut out, '\\');
        }
        push_char(&mut out, ch);
        i += 1;
        assert(out@ =~= seq!['%'] + like_escape(v@.take(i as int)));
    }
    push_char(&mut out, '%');
    assert(v@.take(v.len() as int) =~= v@);
    out
}

// ---------------------------------------------------------------- JSON lists

/// The JSON text that `serde_json::to_string` writes for a list of strings.
pub uninterp spec fn json_strings_text(items: Seq<Seq<char>>) -> Option<Seq<char>>;

/// The JSON text that `serde_json::to_string` writes for a list of integers.
pub uninterp spec fn json_ints_text(items: Seq<i64>) -> Option<Seq<char>>;

pub open spec fn texts(v: Seq<String>) -> Seq<Seq<char>> {
    v.map_values(|s: String| s@)
}

/// `serde_json::to_string` of a list of strings; `None` on a serialiser
/// error.
#[verifier::external_body]
fn encode_json_strings(items: &Vec<String>) -> (r: Option<String>)
    ensures
        match r {
            Some(s) => json_strings_text(texts(items@)) == Some(s@),
            None => json_strings_text(texts(items@)) is None,
        },
{
    serde_json::to_string(items).ok()
}

/// `serde_json::to_string` of a list of integers; `None` on a serialiser
/// error.
#[verifier::external_body]
fn encode_json_ints(items: &[i64]) -> (r: Option<String>)
    ensures
        match r {
            Some(s) => json_ints_text(items@) == Some(s@),
            None => json_ints_text(items@) is None,
        },
{
    serde_json::to_string(items).ok()
}

/// JSON array of strings, for `IN (SELECT value FROM json_each(?))`
/// filters; `[]` should the serialiser fail.
pub fn json_strings(items: &Vec<String>) -> (r: String)
    ensures
        r@ == match json_strings_text(texts(items@)) {
            Some(s) => s,
            None => "[]"@,
        },
{
    match encode_json_strings(items) {
        Some(s) => s,
        None => String::from_str("[]"),
    }
}

/// JSON array of integers; `[]` should the serialiser fail.
pub fn json_ints(items: &[i64]) -> (r: String)
    ensures
        r@ == match json_ints_text(items@) {
            Some(s) => s,
            None => "[]"@,
        },
{
    match encode_json_ints(items) {
        Some(s) => s,
        None => String::from_str("[]"),
    }
}

/// The canonical texts of a list of UUIDs.
pub fn uids(ids: &Vec<u128>) -> (r: Vec<String>)
    ensures
        r@.len() == ids@.len(),
        forall|i: int| 0 <= i < ids@.len() ==> #[trigger] r@[i]@ == hyphenated(ids@[i]),
{
    let mut r: Vec<String> = Vec::new();
    let mut i: usize = 0;
    while i < ids.len()
        invariant
            i <= ids.len(),
            r@.len() == i,
            forall|j: int| 0 <= j < i ==> #[trigger] r@[j]@ == hyphenated(ids@[j]),
        decreases ids.len() - i,
    {
        r.push(uid(ids[i]));
        i += 1;
    }
    r
}

/// The JSON list text of `items`, or `[]` should the serialiser fail.
pub open spec fn json_list(items: Seq<Seq<char>>) -> Seq<char> {
    match json_strings_text(items) {
        Some(s) => s,
        None => "[]"@,
    }
}

pub open spec fn uuid_texts(ids: Seq<u128>) -> Seq<Seq<char>> {
    ids.map_values(|g: u128| hyphenated(g))
}

/// JSON list of the canonical texts of some UUIDs.
pub fn json_uuids(ids: &Vec<u128>) -> (r: String)
    ensures
        r@ == json_list(uuid_texts(ids@)),
{
    let v = uids(ids);
    assert(texts(v@) =~= uuid_texts(ids@));
    json_strings(&v)
}

// ---------------------------------------------------------------- symbols and targets

/// The class of a WARP symbol.
#[derive(Debug, Clone, Copy, PartialEq, Eq, Structural)]
pub enum SymbolClass {
    Function,
    Data,
    Bare,
}

/// The modifier flags of a WARP symbol.
#[derive(Debug, Clone, Copy, PartialEq, Eq, Structural)]
pub struct SymbolModifiers {
    pub exported: bool,
    pub external: bool,
}

/// The name stored in the `class` column.
pub open spec fn class_name(class: SymbolClass) -> Seq<char> {
    match class {
        SymbolClass::Function => "Function"@,
        SymbolClass::Data => "Data"@,
        SymbolClass::Bare => "Bare"@,
    }
}

/// The name stored in the `modifier` column: `Exported` wins over `Extern`;
/// a symbol with neither flag is `None`.
pub open spec fn modifier_name(modifiers: SymbolModifiers) -> Seq<char> {
    if modifiers.exported {
        "Exported"@
    } else if modifiers.external {
        "Extern"@
    } else {
        "None"@
    }
}

pub fn symbol_class_name(class: SymbolClass) -> (r: &'static str)
    ensures
        r@ == class_name(class),
{
    if class == SymbolClass::Function {
        "Function"
    } else if class == SymbolClass::Data {
        "Data"
    } else {
        "Bare"
    }
}

pub fn symbol_modifier_name(modifiers: SymbolModifiers) -> (r: &'static str)
    ensures
        r@ == modifier_name(modifiers),
{
    if modifiers.exported {
        "Exported"
    } else if modifiers.external {
        "Extern"
    } else {
        "None"
    }
}

/// The platform and architecture columns of a target: a missing part is
/// stored as the empty text.
pub fn target_columns(platform: &Option<String>, architecture: &Option<String>) -> (r: (String, String))
    ensures
        r.0@ == match platform { Some(p) => p@, None => Seq::<char>::empty() },
        r.1@ == match architecture { Some(a) => a@, None => Seq::<char>::empty() },
{
    let p = match platform {
        Some(p) => p.clone(),
        None => String::new(),
    };
    let a = match architecture {
        Some(a) => a.clone(),
        None => String::new(),
    };
    (p, a)
}

} // verus!

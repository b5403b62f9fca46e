//! User accounts: e-mail normalisation, usernames, and the decisions taken
//! when an account is created.

use vstd::prelude::*;
use validator::ValidateEmail;
use vstd::utf8::{encode_utf8, is_ascii_chars, is_ascii_chars_encode_utf8};

use crate::auth::is_first;
use crate::error::{ApiError, ApiResult};
use crate::text::{
    chars_of, decimal_string, decimal_text, is_ascii_alnum, is_ascii_alnum_char, is_ws,
    lemma_filter_all_kept, lemma_filter_only_kept, lemma_filter_step, lower_seq, ascii_lower,
    owned, string_of, to_ascii_lowercase, trim, trim_ws,
};

verus! {

/// What to do when the requested username is already taken.
#[derive(Debug, Clone, Copy, PartialEq, Eq, Structural)]
pub enum UsernamePolicy {
    /// Fail with 409.
    Strict,
    /// Append a numeric suffix (used for OAuth sign-ups).
    Deduplicate,
}

/// Characters a username may hold: letters, digits, `.`, `-`, `_`.
pub open spec fn username_char(c: char) -> bool {
    is_ascii_alnum(c) || c == '.' || c == '-' || c == '_'
}

/// The username made from `raw`: its allowed characters, at most 64 of
/// them, or `user` when none is left.
pub open spec fn sanitised(raw: Seq<char>) -> Seq<char> {
    let kept = trim_ws(raw).filter(|c: char| username_char(c));
    let cut = if kept.len() > 64 { kept.take(64) } else { kept };
    if cut.len() == 0 {
        "user"@
    } else {
        cut
    }
}

/// Why `username` is refused, if it is.
pub open spec fn username_problem(username: Seq<char>) -> Option<Seq<char>> {
    let t = trim_ws(username);
    if t.len() == 0 || encode_utf8(t).len() > 64 {
        Some("username must be between 1 and 64 characters"@)
    } else if sanitised(t) != t {
        Some("username may only contain letters, digits, '.', '-' and '_'"@)
    } else {
        None
    }
}

/// An e-mail address as stored: trimmed and in ASCII lower case.
pub open spec fn normalised_email(email: Seq<char>) -> Seq<char> {
    lower_seq(trim_ws(email))
}

pub fn normalise_email(email: &str) -> (r: String)
    ensures
        r@ == normalised_email(email@),
{
    to_ascii_lowercase(trim(email))
}

/// Keep usernames simple: letters, digits, `.`, `-`, `_`; max 64 chars.
pub fn sanitise_username(raw: &str) -> (r: String)
    ensures
        r@ == sanitised(raw@),
{
    let t = trim(raw);
    let v = chars_of(t);
    let ghost keep = |c: char| username_char(c);
    let mut kept: Vec<char> = Vec::new();
    let mut i: usize = 0;
    while i < v.len()
        invariant
            v@ == trim_ws(raw@),
            i <= v.len(),
            kept@ == v@.take(i as int).filter(keep),
            keep == (|c: char| username_char(c)),
        decreases v.len() - i,
    {
        let c = v[i];
        proof {
            lemma_filter_step(v@, keep, i as int);
            assert(keep(c) == username_char(c));
        }
        if is_ascii_alnum_char(c) || c == '.' || c == '-' || c == '_' {
            kept.push(c);
        }
        i += 1;
    }
    assert(v@.take(v.len() as int) =~= v@);
    let n = if kept.len() > 64 { 64 } else { kept.len() };
    if n == 0 {
        String::from_str("user")
    } else {
        let r = string_of(&kept, 0, n);
        assert(kept@.subrange(0, n as int) =~= (if kept@.len() > 64 { kept@.take(64) } else { kept@ }));
        r
    }
}

/// `Ok` when `username`, trimmed, is 1 to 64 bytes of allowed characters.
pub fn validate_username(username: &str) -> (r: ApiResult<()>)
    ensures
        match username_problem(username@) {
            None => r is Ok,
            Some(m) => r matches Err(ApiError::BadRequest(x)) && x@ == m,
        },
{
    let trimmed = trim(username);
    if trimmed.is_empty() || trimmed.as_bytes().len() > 64 {
        return Err(ApiError::bad_request("username must be between 1 and 64 characters"));
    }
    let clean = sanitise_username(trimmed);
    let t = owned(trimmed);
    if !(clean == t) {
        return Err(ApiError::bad_request(
            "username may only contain letters, digits, '.', '-' and '_'",
        ));
    }
    Ok(())
}

// ---------------------------------------------------------------- laws

proof fn lemma_username_char_not_ws(c: char)
    requires
        username_char(c),
    ensures
        !is_ws(c),
        '\0' <= c <= '\u{7f}',
{
}

/// A text with no white space at either end is its own trimmed form.
pub proof fn lemma_trim_fixed(s: Seq<char>)
    requires
        s.len() == 0 || (!is_ws(s[0]) && !is_ws(s.last())),
    ensures
        trim_ws(s) == s,
{
}

/// The trimmed form has no white space at either end.
pub proof fn lemma_trim_ends(s: Seq<char>)
    ensures
        trim_ws(s).len() == 0 || (!is_ws(trim_ws(s)[0]) && !is_ws(trim_ws(s).last())),
    decreases s.len(),
{
    if s.len() > 0 {
        if is_ws(s[0]) {
            lemma_trim_ends(s.drop_first());
        } else if is_ws(s.last()) {
            lemma_trim_ends(s.drop_last());
        }
    }
}

/// The result of sanitising: 1 to 64 allowed (ASCII) characters.
pub proof fn lemma_sanitised_shape(raw: Seq<char>)
    ensures
        1 <= sanitised(raw).len() <= 64,
        forall|i: int| 0 <= i < sanitised(raw).len() ==> username_char(#[trigger] sanitised(raw)[i]),
{
    reveal_strlit("user");
    let keep = |c: char| username_char(c);
    let kept = trim_ws(raw).filter(keep);
    lemma_filter_only_kept(trim_ws(raw), keep);
    let cut = if kept.len() > 64 { kept.take(64) } else { kept };
    assert forall|i: int| 0 <= i < cut.len() implies username_char(#[trigger] cut[i]) by {
        assert(cut[i] == kept[i]);
        assert(keep(kept[i]));
    }
}

/// Sanitising is idempotent, and a sanitised username always passes
/// [`validate_username`].
pub proof fn lemma_sanitised_is_valid(raw: Seq<char>)
    ensures
        sanitised(sanitised(raw)) == sanitised(raw),
        username_problem(sanitised(raw)) is None,
{
    let s = sanitised(raw);
    lemma_sanitised_shape(raw);
    lemma_username_char_not_ws(s[0]);
    lemma_username_char_not_ws(s.last());
    lemma_trim_fixed(s);
    let keep = |c: char| username_char(c);
    assert forall|i: int| 0 <= i < s.len() implies keep(#[trigger] s[i]) by {}
    lemma_filter_all_kept(s, keep);
    assert(trim_ws(s).filter(keep) == s);
    assert forall|i: int| 0 <= i < s.len() implies '\0' <= #[trigger] s[i] <= '\u{7f}' by {
        lemma_username_char_not_ws(s[i]);
    }
    assert(is_ascii_chars(s));
    is_ascii_chars_encode_utf8(s);
}

/// Normalising an e-mail address twice changes nothing more.
pub proof fn lemma_normalise_email_idempotent(email: Seq<char>)
    ensures
        normalised_email(normalised_email(email)) == normalised_email(email),
{
    let t = trim_ws(email);
    let n = lower_seq(t);
    lemma_trim_ends(email);
    if n.len() > 0 {
        assert(n[0] == ascii_lower(t[0]));
        assert(n.last() == ascii_lower(t.last()));
    }
    lemma_trim_fixed(n);
    assert(lower_seq(n) =~= n);
}

// ---------------------------------------------------------------- creation

/// The local part of an e-mail address: what precedes its first `@`, or the
/// whole address when it has none.
pub open spec fn local_part(email: Seq<char>) -> Seq<char> {
    if exists|i: int| is_first(email, '@', i) {
        email.subrange(0, choose|i: int| is_first(email, '@', i))
    } else {
        email
    }
}

/// Whether the `validator` crate accepts `email` as an e-mail address.
pub uninterp spec fn email_syntax_ok(email: Seq<char>) -> bool;

/// `validator::ValidateEmail::validate_email` on a text: HTML5 e-mail
/// syntax. An empty text, or one without `@`, is refused.
#[verifier::external_body]
fn validate_email(email: &str) -> (r: bool)
    ensures
        r == email_syntax_ok(email@),
        r ==> email@.contains('@'),
{
    email.validate_email()
}

/// The e-mail address of a new account: normalised, and refused with 400
/// when the `validator` crate does not accept it.
pub fn check_new_email(email: &str) -> (r: ApiResult<String>)
    ensures
        match r {
            Ok(e) => e@ == normalised_email(email@) && email_syntax_ok(e@),
            Err(x) => !email_syntax_ok(normalised_email(email@))
                && (x matches ApiError::BadRequest(m) && m@ == "invalid email address"@),
        },
{
    let e = normalise_email(email);
    if !validate_email(e.as_str()) {
        return Err(ApiError::bad_request("invalid email address"));
    }
    Ok(e)
}

/// The username asked for, trimmed, when it is not blank.
pub open spec fn requested_name(username: Option<Seq<char>>) -> Option<Seq<char>> {
    match username {
        Some(u) => if trim_ws(u).len() > 0 { Some(trim_ws(u)) } else { None },
        None => None,
    }
}

/// The username a search starts from.
pub open spec fn base_name(email: Seq<char>, username: Option<Seq<char>>) -> Seq<char> {
    match requested_name(username) {
        Some(n) => sanitised(n),
        None => sanitised(local_part(email)),
    }
}

/// The name tried at step `suffix`: the base, then the base followed by 2,
/// 3, ...
pub open spec fn candidate_name(base: Seq<char>, suffix: nat) -> Seq<char> {
    if suffix <= 1 {
        base
    } else {
        base + decimal_text(suffix)
    }
}

/// The search for a free username.
#[derive(Debug, Clone)]
pub struct UsernameSearch {
    pub base: String,
    /// A taken name ends the search with 409 instead of trying the next one.
    pub stop_on_taken: bool,
    pub suffix: u32,
    /// The name to check next.
    pub candidate: String,
}

impl UsernameSearch {
    pub open spec fn valid(self) -> bool {
        &&& 1 <= self.suffix
        &&& self.candidate@ == candidate_name(self.base@, self.suffix as nat)
    }
}

/// What to do once the store has said whether the candidate is taken.
#[derive(Debug, Clone)]
pub enum UsernameStep {
    /// Create the account under this name.
    Insert(String),
    /// Check the next candidate.
    Retry(UsernameSearch),
}

fn local_part_of(email: &str) -> (r: String)
    ensures
        r@ == local_part(email@),
{
    let v = chars_of(email);
    let mut i: usize = 0;
    while i < v.len() && v[i] != '@'
        invariant
            v@ == email@,
            i <= v.len(),
            forall|j: int| 0 <= j < i ==> v@[j] != '@',
        decreases v.len() - i,
    {
        i += 1;
    }
    if i == v.len() {
        assert(!exists|k: int| is_first(email@, '@', k));
        assert(v@.subrange(0, i as int) =~= email@);
        return string_of(&v, 0, i);
    }
    assert(is_first(email@, '@', i as int));
    proof {
        let k = choose|k: int| is_first(email@, '@', k);
        assert(k == i) by {
            if k < i {
                assert(v@[k] != '@');
            }
            if k > i {
                assert(email@[i as int] != '@');
            }
        }
    }
    string_of(&v, 0, i)
}

/// Starts the username search for a new account whose normalised e-mail is
/// `email`. An e-mail already in use is refused with 409. A requested name
/// is validated first under the strict policy; without one, the local part
/// of the e-mail is used.
pub fn start_username_search(
    email: &str,
    email_in_use: bool,
    username: Option<&str>,
    policy: UsernamePolicy,
) -> (r: ApiResult<UsernameSearch>)
    ensures
        email_in_use ==> (r matches Err(ApiError::Conflict(m))
            && m@ == "a user with this email already exists"@),
        !email_in_use ==> match requested_name(match username { Some(u) => Some(u@), None => None }) {
            Some(n) if policy == UsernamePolicy::Strict && username_problem(n) is Some =>
                r matches Err(ApiError::BadRequest(m)) && Some(m@) == username_problem(n),
            _ => r matches Ok(s) && s.valid() && s.suffix == 1
                && s.base@ == base_name(email@, match username { Some(u) => Some(u@), None => None })
                && s.stop_on_taken == (requested_name(match username { Some(u) => Some(u@), None => None }) is Some
                    && policy == UsernamePolicy::Strict),
        },
{
    if email_in_use {
        return Err(ApiError::Conflict(String::from_str("a user with this email already exists")));
    }
    let requested: Option<&str> = match username {
        Some(u) => {
            let t = trim(u);
            if t.is_empty() { None } else { Some(t) }
        },
        None => None,
    };
    let base = match requested {
        Some(name) => {
            if policy == UsernamePolicy::Strict {
                match validate_username(name) {
                    Ok(()) => {},
                    Err(e) => {
                        proof {
                            lemma_trim_ends(username.unwrap()@);
                            lemma_trim_fixed(name@);
                        }
                        return Err(e);
                    },
                }
            }
            proof {
                lemma_trim_ends(username.unwrap()@);
                lemma_trim_fixed(name@);
            }
            sanitise_username(name)
        },
        None => sanitise_username(local_part_of(email).as_str()),
    };
    let candidate = base.clone();
    Ok(UsernameSearch {
        base,
        stop_on_taken: requested.is_some() && policy == UsernamePolicy::Strict,
        suffix: 1,
        candidate,
    })
}

impl UsernameSearch {
    /// Answer to "is the candidate taken?". A free candidate is inserted; a
    /// taken one ends a strict search with 409 and otherwise moves on to the
    /// next suffix, so a deduplicating search never fails.
    pub fn step(self, taken: bool) -> (r: ApiResult<UsernameStep>)
        requires
            self.valid(),
            self.suffix < i32::MAX,
        ensures
            !taken ==> (r matches Ok(UsernameStep::Insert(n)) && n@ == self.candidate@),
            taken && self.stop_on_taken ==> (r matches Err(ApiError::Conflict(m))
                && m@ == "username already taken"@),
            taken && !self.stop_on_taken ==> (r matches Ok(UsernameStep::Retry(next))
                && next.valid() && next.base@ == self.base@ && next.suffix == self.suffix + 1
                && next.stop_on_taken == self.stop_on_taken),
    {
        if !taken {
            return Ok(UsernameStep::Insert(self.candidate));
        }
        if self.stop_on_taken {
            return Err(ApiError::Conflict(String::from_str("username already taken")));
        }
        let suffix = self.suffix + 1;
        let candidate = self.base.clone().concat(decimal_string(suffix as u64).as_str());
        Ok(UsernameStep::Retry(UsernameSearch {
            base: self.base,
            stop_on_taken: self.stop_on_taken,
            suffix,
            candidate,
        }))
    }
}

} // verus!

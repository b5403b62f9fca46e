//! Sources: named collections of uploaded WARP data with members and tags.

use vstd::prelude::*;

use crate::auth::AuthUser;
use crate::error::{ApiError, ApiResult};
use crate::handlers::{name_filter, name_filter_spec, opt_seq, opt_text, push_opt, views, Filter, FilterView};
use crate::models::records::Role;
use crate::models::request::{PutSource, SourceQuery};
use crate::text::{lemma_filter_step, owned, signed_string, signed_text, trim, trim_ws};

verus! {

pub const MAX_NAME_BYTES: usize = 256;

/// A source name: trimmed, and between 1 and 256 bytes of UTF-8.
pub open spec fn source_name(name: Seq<char>) -> Result<Seq<char>, Seq<char>> {
    let t = trim_ws(name);
    if t.len() == 0 || vstd::utf8::encode_utf8(t).len() > MAX_NAME_BYTES {
        Err("source name must be between 1 and 256 characters"@)
    } else {
        Ok(t)
    }
}

pub fn validate_name(name: &str) -> (r: ApiResult<String>)
    ensures
        match source_name(name@) {
            Ok(t) => r matches Ok(s) && s@ == t,
            Err(m) => r matches Err(ApiError::BadRequest(x)) && x@ == m,
        },
{
    let t = trim(name);
    if t.is_empty() || t.as_bytes().len() > MAX_NAME_BYTES {
        Err(ApiError::bad_request("source name must be between 1 and 256 characters"))
    } else {
        Ok(owned(t))
    }
}

/// Strictly increasing: sorted, with no value twice.
pub open spec fn strictly_increasing(s: Seq<i64>) -> bool {
    forall|i: int, j: int| 0 <= i < j < s.len() ==> s[i] < s[j]
}

/// Adds `x` to a strictly increasing list, keeping it so.
fn insert_sorted(v: &mut Vec<i64>, x: i64)
    requires
        strictly_increasing(old(v)@),
    ensures
        strictly_increasing(final(v)@),
        forall|y: i64| final(v)@.contains(y) <==> (old(v)@.contains(y) || y == x),
{
    let mut i: usize = 0;
    while i < v.len() && v[i] < x
        invariant
            v@ == old(v)@,
            i <= v.len(),
            forall|j: int| 0 <= j < i ==> v@[j] < x,
        decreases v.len() - i,
    {
        i += 1;
    }
    if i < v.len() && v[i] == x {
        assert(v@.contains(x) && v@[i as int] == x);
        return;
    }
    let ghost before = v@;
    assert(before == old(v)@);
    assert(i < v.len() ==> v@[i as int] > x);
    v.insert(i, x);
    assert(v@ == before.insert(i as int, x));
    assert forall|a: int, b: int| 0 <= a < b < v@.len() implies v@[a] < v@[b] by {
        if b < i {
        } else if b == i {
        } else if a < i {
            assert(before[a] < x);
            assert(v@[b] == before[b - 1]);
            assert(before[i as int] > x);
            assert(before[i as int] <= before[b - 1]);
        } else if a == i {
            assert(before[i as int] > x);
            assert(before[i as int] <= before[b - 1]);
        } else {
        }
    }
    assert forall|y: i64| v@.contains(y) <==> (before.contains(y) || y == x) by {
        if v@.contains(y) {
            let k = choose|k: int| 0 <= k < v@.len() && v@[k] == y;
            if k < i {
                assert(before[k] == y);
            } else if k > i {
                assert(before[k - 1] == y);
            }
        }
        if before.contains(y) {
            let k = choose|k: int| 0 <= k < before.len() && before[k] == y;
            if k < i {
                assert(v@[k] == y);
            } else {
                assert(v@[k + 1] == y);
            }
        }
        if y == x {
            assert(v@[i as int] == x);
        }
    }
    assert(forall|y: i64| v@.contains(y) <==> (old(v)@.contains(y) || y == x));
}

/// Who belongs to a new source: the requested users, plus the creator when
/// the list is empty or the creator is not an admin.
pub open spec fn new_members(user_ids: Seq<i64>, caller: i64, caller_is_admin: bool, y: i64) -> bool {
    user_ids.contains(y) || ((user_ids.len() == 0 || !caller_is_admin) && y == caller)
}

/// The members of a source that `auth` creates with `user_ids`, in
/// increasing order and without repeats.
pub fn initial_members(user_ids: &Vec<i64>, auth: &AuthUser) -> (r: Vec<i64>)
    ensures
        strictly_increasing(r@),
        forall|y: i64| r@.contains(y) <==> new_members(user_ids@, auth.id, auth.role == Role::Admin, y),
{
    let mut members: Vec<i64> = Vec::new();
    let mut i: usize = 0;
    while i < user_ids.len()
        invariant
            i <= user_ids.len(),
            strictly_increasing(members@),
            forall|y: i64| members@.contains(y) <==> user_ids@.take(i as int).contains(y),
        decreases user_ids.len() - i,
    {
        let ghost before = members@;
        insert_sorted(&mut members, user_ids[i]);
        assert forall|y: i64| members@.contains(y) <==> user_ids@.take(i + 1).contains(y) by {
            assert(user_ids@.take(i + 1) =~= user_ids@.take(i as int).push(user_ids@[i as int]));
            if user_ids@.take(i as int).contains(y) {
                let k = choose|k: int| 0 <= k < i && user_ids@.take(i as int)[k] == y;
                assert(user_ids@.take(i + 1)[k] == y);
            }
            if y == user_ids@[i as int] {
                assert(user_ids@.take(i + 1)[i as int] == y);
            }
        }
        i += 1;
    }
    assert(user_ids@.take(user_ids.len() as int) =~= user_ids@);
    if user_ids.len() == 0 || !auth.is_admin() {
        insert_sorted(&mut members, auth.id);
    }
    members
}

/// A non-admin is always a member of the source they create, and so is an
/// admin who lists no members.
pub proof fn lemma_creator_is_member(user_ids: Seq<i64>, caller: i64, caller_is_admin: bool)
    requires
        !caller_is_admin || user_ids.len() == 0,
    ensures
        new_members(user_ids, caller, caller_is_admin, caller),
{
}

/// The first user in `user_ids` that does not exist (`exists[i]` tells
/// whether `user_ids[i]` does).
pub open spec fn first_missing(user_ids: Seq<i64>, exists: Seq<bool>, k: int) -> bool {
    &&& 0 <= k < user_ids.len()
    &&& !exists[k]
    &&& forall|j: int| 0 <= j < k ==> exists[j]
}

/// Replacing a source's members needs every listed user to exist; the first
/// one that does not is answered `NotFound("user <id> not found")`.
pub fn check_members(user_ids: &Vec<i64>, exists: &Vec<bool>) -> (r: ApiResult<()>)
    requires
        exists.len() == user_ids.len(),
    ensures
        r is Ok <==> forall|j: int| 0 <= j < exists@.len() ==> exists@[j],
        r matches Err(e) ==> exists|k: int| #[trigger] first_missing(user_ids@, exists@, k)
            && (e matches ApiError::NotFound(m) && m@ == "user "@ + signed_text(user_ids@[k] as int) + " not found"@),
{
    let mut i: usize = 0;
    while i < user_ids.len()
        invariant
            i <= user_ids.len(),
            exists.len() == user_ids.len(),
            forall|j: int| 0 <= j < i ==> exists@[j],
        decreases user_ids.len() - i,
    {
        if !exists[i] {
            let id = user_ids[i];
            let m = String::from_str("user ").concat(signed_string(id).as_str()).concat(" not found");
            assert(first_missing(user_ids@, exists@, i as int));
            return Err(ApiError::NotFound(m));
        }
        i += 1;
    }
    Ok(())
}

/// Members and admins may change a source.
pub fn require_member(auth: &AuthUser, is_member: bool) -> (r: ApiResult<()>)
    ensures
        r is Ok <==> (auth.role == Role::Admin || is_member),
        r matches Err(e) ==> e is Forbidden,
{
    if auth.is_admin() || is_member {
        Ok(())
    } else {
        Err(ApiError::Forbidden)
    }
}

/// Source tags as stored: trimmed, blank ones dropped, order kept.
pub open spec fn stored_tags(tags: Seq<String>) -> Seq<Seq<char>> {
    tags.map_values(|t: String| trim_ws(t@)).filter(|t: Seq<char>| t.len() > 0)
}

pub open spec fn texts_of(v: Seq<String>) -> Seq<Seq<char>> {
    v.map_values(|t: String| t@)
}

pub fn normalise_tags(tags: &Vec<String>) -> (r: Vec<String>)
    ensures
        texts_of(r@) == stored_tags(tags@),
{
    let ghost trimmed = tags@.map_values(|t: String| trim_ws(t@));
    let ghost keep = |t: Seq<char>| t.len() > 0;
    let mut out: Vec<String> = Vec::new();
    let mut i: usize = 0;
    while i < tags.len()
        invariant
            i <= tags.len(),
            trimmed == tags@.map_values(|t: String| trim_ws(t@)),
            keep == (|t: Seq<char>| t.len() > 0),
            texts_of(out@) == trimmed.take(i as int).filter(keep),
        decreases tags.len() - i,
    {
        proof {
            lemma_filter_step(trimmed, keep, i as int);
        }
        let t = trim(tags[i].as_str());
        if !t.is_empty() {
            let ghost before = out@;
            out.push(owned(t));
            assert(texts_of(out@) =~= texts_of(before).push(t@));
        }
        i += 1;
    }
    assert(trimmed.take(tags.len() as int) =~= trimmed);
    out
}

/// What an accepted `PUT` of a source changes.
#[derive(Debug, Clone)]
pub struct SourceUpdate {
    /// The new (validated) name.
    pub name: Option<String>,
    /// The new member list, when one was given.
    pub user_ids: Option<Vec<i64>>,
    /// The new tag set, when one was given.
    pub tags: Option<Vec<String>>,
}

/// The answer to an update of a source: 404 when it does not exist, 403
/// unless the caller is an admin or a member, 403 when a non-admin sends
/// tags, 400 for a bad name; otherwise the changes to make.
pub fn plan_update(found: bool, is_member: bool, auth: &AuthUser, body: &PutSource) -> (r: ApiResult<SourceUpdate>)
    ensures
        !found ==> (r matches Err(ApiError::NotFound(m)) && m@ == "source not found"@),
        found && !(auth.role == Role::Admin || is_member) ==> r matches Err(ApiError::Forbidden),
        found && is_member && auth.role != Role::Admin && body.tags is Some ==> r matches Err(ApiError::Forbidden),
        found && (auth.role == Role::Admin || (is_member && body.tags is None)) ==> match body.name {
            Some(n) => match source_name(n@) {
                Err(m) => r matches Err(ApiError::BadRequest(x)) && x@ == m,
                Ok(t) => r matches Ok(u) && u.name matches Some(s) && s@ == t,
            },
            None => r matches Ok(u) && u.name is None,
        },
        r matches Ok(u) ==> {
            &&& match body.user_ids {
                Some(ids) => u.user_ids matches Some(v) && v@ == ids@,
                None => u.user_ids is None,
            }
            &&& match body.tags {
                Some(tags) => u.tags matches Some(ts) && texts_of(ts@) == stored_tags(tags@),
                None => u.tags is None,
            }
        },
{
    if !found {
        proof {
            reveal_strlit("source");
            reveal_strlit(" not found");
            reveal_strlit("source not found");
        }
        let e = ApiError::not_found("source");
        assert(e matches ApiError::NotFound(m) && m@ =~= "source not found"@);
        return Err(e);
    }
    match require_member(auth, is_member) {
        Ok(()) => {},
        Err(e) => {
            return Err(e);
        },
    }
    if body.tags.is_some() && !auth.is_admin() {
        return Err(ApiError::Forbidden);
    }
    let name = match &body.name {
        Some(n) => match validate_name(n.as_str()) {
            Ok(t) => Some(t),
            Err(e) => {
                return Err(e);
            },
        },
        None => None,
    };
    let tags = match &body.tags {
        Some(ts) => Some(normalise_tags(ts)),
        None => None,
    };
    let user_ids = match &body.user_ids {
        Some(ids) => Some(ids.clone()),
        None => None,
    };
    Ok(SourceUpdate { name, user_ids, tags })
}

/// The answer to a delete of a source, before the cascade runs.
pub fn check_delete(found: bool, is_member: bool, auth: &AuthUser) -> (r: ApiResult<()>)
    ensures
        !found ==> (r matches Err(ApiError::NotFound(m)) && m@ == "source not found"@),
        found ==> (r is Ok <==> (auth.role == Role::Admin || is_member)),
        found && r is Err ==> r matches Err(ApiError::Forbidden),
{
    if !found {
        proof {
            reveal_strlit("source");
            reveal_strlit(" not found");
            reveal_strlit("source not found");
        }
        let e = ApiError::not_found("source");
        assert(e matches ApiError::NotFound(m) && m@ =~= "source not found"@);
        return Err(e);
    }
    require_member(auth, is_member)
}

/// The conditions of a source query: its name, and one member.
pub open spec fn source_filters_spec(q: SourceQuery) -> Seq<FilterView> {
    opt_seq(name_filter_spec(opt_text(q.name), q.exact)) + opt_seq(
        match q.user_id {
            Some(u) => Some(FilterView::MemberIs(u)),
            None => None,
        },
    )
}

pub fn source_filters(q: &SourceQuery) -> (r: Vec<Filter>)
    ensures
        views(r@) == source_filters_spec(*q),
{
    let mut v: Vec<Filter> = Vec::new();
    let ghost empty = v@;
    assert(views(empty) =~= Seq::<FilterView>::empty());
    push_opt(&mut v, name_filter(&q.name, q.exact));
    let member = match q.user_id {
        Some(u) => Some(Filter::MemberIs(u)),
        None => None,
    };
    push_opt(&mut v, member);
    v
}

} // verus!

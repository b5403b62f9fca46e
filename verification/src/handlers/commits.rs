//! Commits: one upload of WARP data into a source.

use vstd::prelude::*;

use crate::auth::AuthUser;
use crate::db::{hyphenated, uid};
use crate::error::{ApiError, ApiResult};
use crate::handlers::{opt_seq, push_opt, views, Filter, FilterView};
use crate::models::records::Role;
use crate::models::request::CommitQuery;

verus! {

/// The conditions of a commit query: its source, then its author.
pub open spec fn commit_filters_spec(q: CommitQuery) -> Seq<FilterView> {
    opt_seq(
        match q.source_id {
            Some(s) => Some(FilterView::SourceIs(hyphenated(s))),
            None => None,
        },
    ) + opt_seq(
        match q.user_id {
            Some(u) => Some(FilterView::UserIs(u)),
            None => None,
        },
    )
}

pub fn commit_filters(q: &CommitQuery) -> (r: Vec<Filter>)
    ensures
        views(r@) == commit_filters_spec(*q),
{
    let mut v: Vec<Filter> = Vec::new();
    assert(views(v@) =~= Seq::<FilterView>::empty());
    let source = match q.source_id {
        Some(s) => Some(Filter::SourceIs(uid(s))),
        None => None,
    };
    push_opt(&mut v, source);
    let user = match q.user_id {
        Some(u) => Some(Filter::UserIs(u)),
        None => None,
    };
    push_opt(&mut v, user);
    v
}

/// Who may delete a commit: an admin, its author, or a member of its source.
pub open spec fn may_delete_commit(auth: AuthUser, author: Option<i64>, is_member: bool) -> bool {
    auth.role == Role::Admin || author == Some(auth.id) || is_member
}

/// `Forbidden` unless the caller may delete the commit written by `author`
/// into a source of which the caller is a member when `is_member` holds.
pub fn check_delete(auth: &AuthUser, author: Option<i64>, is_member: bool) -> (r: ApiResult<()>)
    ensures
        r is Ok <==> may_delete_commit(*auth, author, is_member),
        r matches Err(e) ==> e is Forbidden,
{
    let own = match author {
        Some(a) => a == auth.id,
        None => false,
    };
    if auth.is_admin() || own || is_member {
        Ok(())
    } else {
        Err(ApiError::Forbidden)
    }
}

/// The author of a commit may always delete it, whatever their role.
pub proof fn lemma_author_may_delete(auth: AuthUser, is_member: bool)
    ensures
        may_delete_commit(auth, Some(auth.id), is_member),
{
}

} // verus!

//! Users: listing, administration, usernames and API keys.

use vstd::prelude::*;

use crate::auth::AuthUser;
use crate::db::users::{username_problem, validate_username};
use crate::error::{ApiError, ApiResult};
use crate::handlers::{name_filter, name_filter_spec, opt_seq, opt_text, push_opt, views, Filter, FilterView};
use crate::models::records::Role;
use crate::models::request::{ChangeUsername, UserQuery};
use crate::text::{owned, trim, trim_ws};

verus! {

/// The conditions of a user query: the name (the username, or the e-mail of
/// a user without one), then the role.
pub open spec fn user_filters_spec(q: UserQuery) -> Seq<FilterView> {
    opt_seq(name_filter_spec(opt_text(q.name), q.exact)) + opt_seq(
        match q.role {
            Some(r) => Some(FilterView::RoleIs(r)),
            None => None,
        },
    )
}

pub fn user_filters(q: &UserQuery) -> (r: Vec<Filter>)
    ensures
        views(r@) == user_filters_spec(*q),
{
    let mut v: Vec<Filter> = Vec::new();
    assert(views(v@) =~= Seq::<FilterView>::empty());
    push_opt(&mut v, name_filter(&q.name, q.exact));
    let role = match q.role {
        Some(r) => Some(Filter::RoleIs(r)),
        None => None,
    };
    push_opt(&mut v, role);
    v
}

/// A request to rename user `id`: only the user or an admin may, and the new
/// name (trimmed) must be a valid username. Answers the trimmed name.
pub fn username_change(auth: &AuthUser, id: i64, body: &ChangeUsername) -> (r: ApiResult<String>)
    ensures
        !(auth.role == Role::Admin || auth.id == id) ==> (r matches Err(e) && e is Forbidden),
        (auth.role == Role::Admin || auth.id == id) ==> match username_problem(trim_ws(body.username@)) {
            Some(m) => r matches Err(ApiError::BadRequest(x)) && x@ == m,
            None => r matches Ok(n) && n@ == trim_ws(body.username@),
        },
{
    match auth.require_self_or_admin(id) {
        Ok(()) => {},
        Err(e) => {
            return Err(e);
        },
    }
    let name = trim(body.username.as_str());
    match validate_username(name) {
        Ok(()) => Ok(owned(name)),
        Err(e) => Err(e),
    }
}

/// The rename goes ahead only for an existing user whose new name no other
/// user holds.
pub fn check_username_free(exists: bool, taken: bool) -> (r: ApiResult<()>)
    ensures
        !exists ==> (r matches Err(ApiError::NotFound(m)) && m@ == "user"@ + " not found"@),
        exists && taken ==> (r matches Err(ApiError::Conflict(m)) && m@ == "username already taken"@),
        exists && !taken ==> r is Ok,
{
    if !exists {
        return Err(ApiError::not_found("user"));
    }
    if taken {
        return Err(ApiError::Conflict(String::from_str("username already taken")));
    }
    Ok(())
}

/// A role change that touched no row names a user that does not exist.
pub fn role_changed(rows_affected: u64) -> (r: ApiResult<()>)
    ensures
        rows_affected > 0 ==> r is Ok,
        rows_affected == 0 ==> (r matches Err(ApiError::NotFound(m)) && m@ == "user"@ + " not found"@),
{
    if rows_affected == 0 {
        Err(ApiError::not_found("user"))
    } else {
        Ok(())
    }
}

} // verus!

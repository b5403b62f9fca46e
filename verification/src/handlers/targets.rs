//! Targets (platform and architecture pairs) are created when files are
//! pushed; these routes only look them up.

use vstd::prelude::*;

use crate::error::{ApiError, ApiResult};
use crate::handlers::{opt_seq, push_opt, views, Filter, FilterView};
use crate::models::request::TargetQuery;
use crate::text::{owned, signed_string, signed_text, trim, trim_ws};

verus! {

/// The conditions of a target lookup: the trimmed platform and architecture
/// when given (a blank one matches targets stored without it).
pub open spec fn target_filters_spec(q: TargetQuery) -> Seq<FilterView> {
    opt_seq(
        match q.platform {
            Some(p) => Some(FilterView::PlatformIs(trim_ws(p@))),
            None => None,
        },
    ) + opt_seq(
        match q.arch {
            Some(a) => Some(FilterView::ArchIs(trim_ws(a@))),
            None => None,
        },
    )
}

pub fn target_filters(q: &TargetQuery) -> (r: Vec<Filter>)
    ensures
        views(r@) == target_filters_spec(*q),
{
    let mut v: Vec<Filter> = Vec::new();
    assert(views(v@) =~= Seq::<FilterView>::empty());
    let platform = match &q.platform {
        Some(p) => Some(Filter::PlatformIs(owned(trim(p.as_str())))),
        None => None,
    };
    push_opt(&mut v, platform);
    let arch = match &q.arch {
        Some(a) => Some(Filter::ArchIs(owned(trim(a.as_str())))),
        None => None,
    };
    push_opt(&mut v, arch);
    v
}

/// The plain-text answer of a `GET` lookup: the first matching id, or
/// `NotFound("target not found")` when nothing matched.
pub fn first_target_text(ids: &Vec<i64>) -> (r: ApiResult<String>)
    ensures
        ids@.len() > 0 ==> (r matches Ok(s) && s@ == signed_text(ids@[0] as int)),
        ids@.len() == 0 ==> (r matches Err(ApiError::NotFound(m)) && m@ == "target"@ + " not found"@),
{
    if ids.len() == 0 {
        Err(ApiError::not_found("target"))
    } else {
        Ok(signed_string(ids[0]))
    }
}

} // verus!

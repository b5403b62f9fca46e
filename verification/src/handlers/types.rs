//! Types: WARP type records, queried by name.

use vstd::prelude::*;

use crate::handlers::{name_filter, name_filter_spec, opt_seq, opt_text, push_opt, views, Filter, FilterView};
use crate::models::request::TypeQuery;

verus! {

pub open spec fn type_filters_spec(q: TypeQuery) -> Seq<FilterView> {
    opt_seq(name_filter_spec(opt_text(q.name), q.exact))
}

/// The conditions of a type query: its name only.
pub fn type_filters(q: &TypeQuery) -> (r: Vec<Filter>)
    ensures
        views(r@) == type_filters_spec(*q),
{
    let mut v: Vec<Filter> = Vec::new();
    assert(views(v@) =~= Seq::<FilterView>::empty());
    push_opt(&mut v, name_filter(&q.name, q.exact));
    v
}

} // verus!

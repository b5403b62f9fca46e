//! Symbols: the names functions are known by.

use vstd::prelude::*;

use crate::handlers::{name_filter, name_filter_spec, opt_seq, opt_text, push_opt, views, Filter, FilterView};
use crate::models::request::SymbolQuery;

verus! {

pub open spec fn symbol_filters_spec(q: SymbolQuery) -> Seq<FilterView> {
    opt_seq(name_filter_spec(opt_text(q.name), q.exact))
}

/// The conditions of a symbol query: its name only.
pub fn symbol_filters(q: &SymbolQuery) -> (r: Vec<Filter>)
    ensures
        views(r@) == symbol_filters_spec(*q),
{
    let mut v: Vec<Filter> = Vec::new();
    assert(views(v@) =~= Seq::<FilterView>::empty());
    push_opt(&mut v, name_filter(&q.name, q.exact));
    v
}

} // verus!

//! The decisions behind each route: which filters a query applies, who may
//! change what, and what a request is answered with.

pub mod auth;
pub mod commits;
pub mod files;
pub mod functions;
pub mod search;
pub mod sources;
pub mod symbols;
pub mod targets;
pub mod types;
pub mod users;

use vstd::prelude::*;

use crate::db::like_escape;
use crate::db::like_contains;
use crate::models::records::Role;
use crate::text::{owned, trim, trim_ws};

verus! {

/// One condition of a `WHERE` clause. Each route maps it onto its own
/// columns.
#[derive(Debug, Clone, PartialEq, Eq)]
pub enum Filter {
    CommitIs(i64),
    /// A source, by its canonical UUID text.
    SourceIs(String),
    UserIs(i64),
    TargetIs(i64),
    SymbolIs(i64),
    /// A function GUID, by its canonical UUID text.
    GuidIs(String),
    /// The GUID is one of a JSON list of GUID texts.
    GuidIn(String),
    /// The function carries a constraint whose GUID is in a JSON list.
    ConstraintIn(String),
    /// The source carries a tag from a JSON list.
    SourceTagIn(String),
    NameIs(String),
    /// `LIKE` pattern, escaped with `\`.
    NameLike(String),
    /// The source has this member.
    MemberIs(i64),
    RoleIs(Role),
    PlatformIs(String),
    ArchIs(String),
}

/// A [`Filter`] with its texts as character sequences.
pub ghost enum FilterView {
    CommitIs(i64),
    SourceIs(Seq<char>),
    UserIs(i64),
    TargetIs(i64),
    SymbolIs(i64),
    GuidIs(Seq<char>),
    GuidIn(Seq<char>),
    ConstraintIn(Seq<char>),
    SourceTagIn(Seq<char>),
    NameIs(Seq<char>),
    NameLike(Seq<char>),
    MemberIs(i64),
    RoleIs(Role),
    PlatformIs(Seq<char>),
    ArchIs(Seq<char>),
}

impl View for Filter {
    type V = FilterView;

    open spec fn view(&self) -> FilterView {
        match self {
            Filter::CommitIs(x) => FilterView::CommitIs(*x),
            Filter::SourceIs(x) => FilterView::SourceIs(x@),
            Filter::UserIs(x) => FilterView::UserIs(*x),
            Filter::TargetIs(x) => FilterView::TargetIs(*x),
            Filter::SymbolIs(x) => FilterView::SymbolIs(*x),
            Filter::GuidIs(x) => FilterView::GuidIs(x@),
            Filter::GuidIn(x) => FilterView::GuidIn(x@),
            Filter::ConstraintIn(x) => FilterView::ConstraintIn(x@),
            Filter::SourceTagIn(x) => FilterView::SourceTagIn(x@),
            Filter::NameIs(x) => FilterView::NameIs(x@),
            Filter::NameLike(x) => FilterView::NameLike(x@),
            Filter::MemberIs(x) => FilterView::MemberIs(*x),
            Filter::RoleIs(x) => FilterView::RoleIs(*x),
            Filter::PlatformIs(x) => FilterView::PlatformIs(x@),
            Filter::ArchIs(x) => FilterView::ArchIs(x@),
        }
    }
}

pub open spec fn views(v: Seq<Filter>) -> Seq<FilterView> {
    v.map_values(|f: Filter| f@)
}

pub open spec fn opt_seq(o: Option<FilterView>) -> Seq<FilterView> {
    match o {
        Some(f) => seq![f],
        None => Seq::empty(),
    }
}

/// The `%term%` pattern of a search term.
pub open spec fn like_pattern(term: Seq<char>) -> Seq<char> {
    seq!['%'] + like_escape(term) + seq!['%']
}

/// The name filter of a query: none for a missing or blank name; the exact
/// name when `exact` is `true`; otherwise a substring match.
pub open spec fn name_filter_spec(name: Option<Seq<char>>, exact: Option<bool>) -> Option<FilterView> {
    match name {
        Some(n) => if trim_ws(n).len() == 0 {
            None
        } else if exact == Some(true) {
            Some(FilterView::NameIs(trim_ws(n)))
        } else {
            Some(FilterView::NameLike(like_pattern(trim_ws(n))))
        },
        None => None,
    }
}

pub open spec fn opt_text(o: Option<String>) -> Option<Seq<char>> {
    match o {
        Some(s) => Some(s@),
        None => None,
    }
}

pub fn name_filter(name: &Option<String>, exact: Option<bool>) -> (r: Option<Filter>)
    ensures
        match r {
            Some(f) => name_filter_spec(opt_text(*name), exact) == Some(f@),
            None => name_filter_spec(opt_text(*name), exact) is None,
        },
{
    match name {
        Some(n) => {
            let t = trim(n.as_str());
            if t.is_empty() {
                None
            } else if exact == Some(true) {
                Some(Filter::NameIs(owned(t)))
            } else {
                Some(Filter::NameLike(like_contains(t)))
            }
        },
        None => None,
    }
}

/// Appends `f`, when present, to a filter list.
pub fn push_opt(v: &mut Vec<Filter>, f: Option<Filter>)
    ensures
        views(final(v)@) == views(old(v)@) + opt_seq(match f { Some(x) => Some(x@), None => None }),
{
    let ghost before = v@;
    match f {
        Some(x) => {
            v.push(x);
            assert(views(v@) =~= views(before) + opt_seq(Some(x@)));
        },
        None => {
            assert(views(v@) =~= views(before) + Seq::<FilterView>::empty());
        },
    }
}

} // verus!

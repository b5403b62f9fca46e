//! Free-text search across sources, functions, types and symbols.

use vstd::prelude::*;

use crate::db::{hyphenated, json_strings, json_strings_text, like_contains, texts, uid};
use crate::error::{ApiError, ApiResult};
use crate::handlers::{like_pattern, opt_seq, opt_text, views, Filter, FilterView};
use crate::models::pagination::clamp;
use crate::models::request::SearchQuery;
use crate::models::response::{SearchIndexRow, SearchResponse};
use crate::text::{lemma_filter_only_kept, lemma_filter_step, owned, same_text, trim, trim_ws};

verus! {

/// The kinds of records a search covers.
#[derive(Debug, Clone, Copy, PartialEq, Eq, Structural)]
pub enum SearchKind {
    Source,
    Function,
    Type,
    Symbol,
}

pub const DEFAULT_LIMIT: i64 = 50;

pub const MAX_LIMIT: i64 = 1000;

/// Every kind, in the order results are built.
pub open spec fn all_kinds() -> Seq<SearchKind> {
    seq![SearchKind::Source, SearchKind::Function, SearchKind::Type, SearchKind::Symbol]
}

/// The kind named `t`, if any.
pub open spec fn kind_named(t: Seq<char>) -> Option<SearchKind> {
    if t == "source"@ {
        Some(SearchKind::Source)
    } else if t == "function"@ {
        Some(SearchKind::Function)
    } else if t == "type"@ {
        Some(SearchKind::Type)
    } else if t == "symbol"@ {
        Some(SearchKind::Symbol)
    } else {
        None
    }
}

/// The kinds a `kind` parameter asks for: all of them when it is missing
/// or blank, the one it names, or an error.
pub open spec fn kinds_spec(kind: Option<Seq<char>>) -> Result<Seq<SearchKind>, Seq<char>> {
    match kind {
        None => Ok(all_kinds()),
        Some(k) => {
            let t = trim_ws(k);
            if t.len() == 0 {
                Ok(all_kinds())
            } else {
                match kind_named(t) {
                    Some(x) => Ok(seq![x]),
                    None => Err("unknown kind '"@ + t + "'; expected one of source, function, type, symbol"@),
                }
            }
        },
    }
}

pub fn parse_kinds(kind: &Option<String>) -> (r: ApiResult<Vec<SearchKind>>)
    ensures
        match kinds_spec(opt_text(*kind)) {
            Ok(ks) => r matches Ok(v) && v@ == ks,
            Err(m) => r matches Err(ApiError::BadRequest(x)) && x@ == m,
        },
{
    let all = vec![SearchKind::Source, SearchKind::Function, SearchKind::Type, SearchKind::Symbol];
    assert(all@ =~= all_kinds());
    match kind {
        None => Ok(all),
        Some(k) => {
            let t = trim(k.as_str());
            if t.is_empty() {
                Ok(all)
            } else if same_text(t, "source") {
                Ok(vec![SearchKind::Source])
            } else if same_text(t, "function") {
                Ok(vec![SearchKind::Function])
            } else if same_text(t, "type") {
                Ok(vec![SearchKind::Type])
            } else if same_text(t, "symbol") {
                Ok(vec![SearchKind::Symbol])
            } else {
                Err(ApiError::BadRequest(
                    owned("unknown kind '").concat(t).concat(
                        "'; expected one of source, function, type, symbol",
                    ),
                ))
            }
        },
    }
}

/// The search filters, ready to be bound.
#[derive(Debug, Clone)]
pub struct Filters {
    /// `%term%` pattern of the trimmed, non-blank `q`.
    pub term: Option<String>,
    pub function_guid: Option<String>,
    pub commit_id: Option<i64>,
    pub source_id: Option<String>,
    /// JSON list of the requested source tags, when there are any.
    pub tags_json: Option<String>,
    pub retrieve_data: bool,
}

impl Filters {
    /// `self` holds exactly the filters that `q` asks for.
    pub open spec fn built_from(self, q: SearchQuery) -> bool {
        &&& match q.q {
            Some(t) if trim_ws(t@).len() > 0 => self.term matches Some(p) && p@ == like_pattern(trim_ws(t@)),
            _ => self.term is None,
        }
        &&& match q.function_guid {
            Some(g) => self.function_guid matches Some(s) && s@ == hyphenated(g),
            None => self.function_guid is None,
        }
        &&& self.commit_id == q.commit_id
        &&& match q.source_id {
            Some(g) => self.source_id matches Some(s) && s@ == hyphenated(g),
            None => self.source_id is None,
        }
        &&& match q.source_tags {
            Some(tags) if tags@.len() > 0 => self.tags_json matches Some(j) && j@ == match json_strings_text(texts(tags@)) {
                Some(s) => s,
                None => "[]"@,
            },
            _ => self.tags_json is None,
        }
        &&& self.retrieve_data == (q.retrieve_data == Some(true))
    }

    pub fn from_query(q: &SearchQuery) -> (r: Self)
        ensures
            r.built_from(*q),
    {
        let term = match &q.q {
            Some(t) => {
                let t = trim(t.as_str());
                if t.is_empty() { None } else { Some(like_contains(t)) }
            },
            None => None,
        };
        let function_guid = match q.function_guid {
            Some(g) => Some(uid(g)),
            None => None,
        };
        let source_id = match q.source_id {
            Some(g) => Some(uid(g)),
            None => None,
        };
        let tags_json = match &q.source_tags {
            Some(tags) => if tags.len() > 0 { Some(json_strings(tags)) } else { None },
            None => None,
        };
        let retrieve_data = match q.retrieve_data {
            Some(b) => b,
            None => false,
        };
        Filters { term, function_guid, commit_id: q.commit_id, source_id, tags_json, retrieve_data }
    }

    /// A kind is skipped when a filter it cannot satisfy is present.
    pub open spec fn applies_spec(self, kind: SearchKind) -> bool {
        match kind {
            SearchKind::Source => self.function_guid is None && self.commit_id is None,
            SearchKind::Type => self.function_guid is None,
            SearchKind::Symbol => {
                &&& self.function_guid is None
                &&& self.commit_id is None
                &&& self.source_id is None
                &&& self.tags_json is None
            },
            SearchKind::Function => true,
        }
    }

    pub fn applies_to(&self, kind: SearchKind) -> (r: bool)
        ensures
            r == self.applies_spec(kind),
    {
        match kind {
            SearchKind::Source => self.function_guid.is_none() && self.commit_id.is_none(),
            SearchKind::Type => self.function_guid.is_none(),
            SearchKind::Symbol => {
                self.function_guid.is_none() && self.commit_id.is_none() && self.source_id.is_none()
                    && self.tags_json.is_none()
            },
            SearchKind::Function => true,
        }
    }

    pub open spec fn term_view(self) -> Option<FilterView> {
        match self.term {
            Some(t) => Some(FilterView::NameLike(t@)),
            None => None,
        }
    }

    pub open spec fn source_view(self) -> Option<FilterView> {
        match self.source_id {
            Some(s) => Some(FilterView::SourceIs(s@)),
            None => None,
        }
    }

    pub open spec fn tags_view(self) -> Option<FilterView> {
        match self.tags_json {
            Some(t) => Some(FilterView::SourceTagIn(t@)),
            None => None,
        }
    }

    pub open spec fn commit_view(self) -> Option<FilterView> {
        match self.commit_id {
            Some(c) => Some(FilterView::CommitIs(c)),
            None => None,
        }
    }

    pub open spec fn guid_view(self) -> Option<FilterView> {
        match self.function_guid {
            Some(g) => Some(FilterView::GuidIs(g@)),
            None => None,
        }
    }

    /// The conditions each kind's part of the search applies, in order.
    pub open spec fn filters_spec(self, kind: SearchKind) -> Seq<FilterView> {
        match kind {
            SearchKind::Source => opt_seq(self.term_view()) + opt_seq(self.source_view()) + opt_seq(
                self.tags_view(),
            ),
            SearchKind::Function => opt_seq(self.term_view()) + opt_seq(self.guid_view()) + opt_seq(
                self.commit_view(),
            ) + opt_seq(self.source_view()) + opt_seq(self.tags_view()),
            SearchKind::Type => opt_seq(self.term_view()) + opt_seq(self.commit_view()) + opt_seq(
                self.source_view(),
            ) + opt_seq(self.tags_view()),
            SearchKind::Symbol => opt_seq(self.term_view()),
        }
    }

    pub fn filters_for(&self, kind: SearchKind) -> (r: Vec<Filter>)
        ensures
            views(r@) == self.filters_spec(kind),
    {
        let mut v: Vec<Filter> = Vec::new();
        let term = match &self.term {
            Some(t) => Some(Filter::NameLike(t.clone())),
            None => None,
        };
        let source = match &self.source_id {
            Some(s) => Some(Filter::SourceIs(s.clone())),
            None => None,
        };
        let tags = match &self.tags_json {
            Some(t) => Some(Filter::SourceTagIn(t.clone())),
            None => None,
        };
        let commit = match self.commit_id {
            Some(c) => Some(Filter::CommitIs(c)),
            None => None,
        };
        let guid = match &self.function_guid {
            Some(g) => Some(Filter::GuidIs(g.clone())),
            None => None,
        };
        assert(views(v@) =~= Seq::<FilterView>::empty());
        crate::handlers::push_opt(&mut v, term);
        match kind {
            SearchKind::Source => {
                crate::handlers::push_opt(&mut v, source);
                crate::handlers::push_opt(&mut v, tags);
            },
            SearchKind::Function => {
                crate::handlers::push_opt(&mut v, guid);
                crate::handlers::push_opt(&mut v, commit);
                crate::handlers::push_opt(&mut v, source);
                crate::handlers::push_opt(&mut v, tags);
            },
            SearchKind::Type => {
                crate::handlers::push_opt(&mut v, commit);
                crate::handlers::push_opt(&mut v, source);
                crate::handlers::push_opt(&mut v, tags);
            },
            SearchKind::Symbol => {},
        }
        v
    }
}

/// One `SELECT` of the union.
#[derive(Debug, Clone)]
pub struct SearchPart {
    pub kind: SearchKind,
    pub filters: Vec<Filter>,
}

/// Everything a search runs: the union of one part per kind that applies
/// (an empty union answers nothing), and the window of results.
#[derive(Debug, Clone)]
pub struct SearchPlan {
    pub filters: Filters,
    pub parts: Vec<SearchPart>,
    pub limit: i64,
    pub offset: i64,
}

pub open spec fn part_kinds(parts: Seq<SearchPart>) -> Seq<SearchKind> {
    parts.map_values(|p: SearchPart| p.kind)
}

/// The page size a search uses: the requested one, or the default, kept
/// within `1..=MAX_LIMIT`.
pub open spec fn search_limit(limit: Option<i64>) -> int {
    clamp(match limit { Some(l) => l as int, None => DEFAULT_LIMIT as int }, 1, MAX_LIMIT as int)
}

pub open spec fn search_offset(offset: Option<i64>) -> int {
    match offset {
        Some(o) => if o < 0 { 0 } else { o as int },
        None => 0,
    }
}

/// `plan` searches the kinds `ks` with the filters of `q`.
pub open spec fn plans(plan: SearchPlan, q: SearchQuery, ks: Seq<SearchKind>) -> bool {
    let f = plan.filters;
    &&& f.built_from(q)
    &&& plan.limit == search_limit(q.limit)
    &&& plan.offset == search_offset(q.offset)
    &&& part_kinds(plan.parts@) == ks.filter(|k: SearchKind| f.applies_spec(k))
    &&& forall|i: int| 0 <= i < plan.parts@.len() ==> views(#[trigger] plan.parts@[i].filters@)
        == f.filters_spec(plan.parts@[i].kind)
}

impl SearchPlan {
    /// The answer to the search: the hits of its window, and the number of
    /// hits in all.
    pub fn respond(&self, items: Vec<SearchIndexRow>, total: i64) -> (r: SearchResponse)
        ensures
            r.items@ == items@,
            r.limit == self.limit,
            r.offset == self.offset,
            r.total == total,
    {
        SearchResponse { items, limit: self.limit, offset: self.offset, total }
    }
}

/// Plan the search that `q` asks for.
pub fn search(q: &SearchQuery) -> (r: ApiResult<SearchPlan>)
    ensures
        match kinds_spec(opt_text(q.kind)) {
            Err(m) => r matches Err(ApiError::BadRequest(x)) && x@ == m,
            Ok(ks) => r matches Ok(plan) && plans(plan, *q, ks),
        },
{
    let kinds = match parse_kinds(&q.kind) {
        Ok(k) => k,
        Err(e) => {
            return Err(e);
        },
    };
    let limit: i64 = match q.limit {
        Some(l) => if l < 1 { 1 } else if l > MAX_LIMIT { MAX_LIMIT } else { l },
        None => DEFAULT_LIMIT,
    };
    let offset: i64 = match q.offset {
        Some(o) => if o < 0 { 0 } else { o },
        None => 0,
    };
    let filters = Filters::from_query(q);
    let ghost f = filters;
    let ghost p = |k: SearchKind| f.applies_spec(k);
    let mut parts: Vec<SearchPart> = Vec::new();
    let mut i: usize = 0;
    while i < kinds.len()
        invariant
            i <= kinds.len(),
            f == filters,
            p == (|k: SearchKind| f.applies_spec(k)),
            part_kinds(parts@) == kinds@.take(i as int).filter(p),
            forall|j: int| 0 <= j < parts@.len() ==> views(#[trigger] parts@[j].filters@)
                == f.filters_spec(parts@[j].kind),
        decreases kinds.len() - i,
    {
        let k = kinds[i];
        proof {
            lemma_filter_step(kinds@, p, i as int);
        }
        if filters.applies_to(k) {
            let part = SearchPart { kind: k, filters: filters.filters_for(k) };
            let ghost before = parts@;
            parts.push(part);
            assert(part_kinds(parts@) =~= part_kinds(before).push(k));
        }
        i = i + 1;
    }
    assert(kinds@.take(kinds@.len() as int) =~= kinds@);
    Ok(SearchPlan { filters, parts, limit, offset })
}

/// A search over kinds that include types searches types exactly when it
/// names no function GUID: a source, commit, tag or term condition never
/// drops the type kind. The type part then keeps the query's source
/// condition, so it answers only that source's types.
pub proof fn lemma_types_searched_unless_function_guid(plan: SearchPlan, q: SearchQuery, ks: Seq<SearchKind>)
    requires
        plans(plan, q, ks),
        ks.contains(SearchKind::Type),
    ensures
        part_kinds(plan.parts@).contains(SearchKind::Type) <==> q.function_guid is None,
        forall|i: int|
            0 <= i < plan.parts@.len() && plan.parts@[i].kind == SearchKind::Type && q.source_id is Some
                ==> views(#[trigger] plan.parts@[i].filters@).contains(
                FilterView::SourceIs(hyphenated(q.source_id->0)),
            ),
{
    let f = plan.filters;
    let p = |k: SearchKind| f.applies_spec(k);
    let kept = ks.filter(p);
    assert(part_kinds(plan.parts@) == kept);
    if q.function_guid is None {
        let j = choose|j: int| 0 <= j < ks.len() && ks[j] == SearchKind::Type;
        ks.lemma_filter_contains(p, j);
    } else {
        if kept.contains(SearchKind::Type) {
            let j = choose|j: int| 0 <= j < kept.len() && kept[j] == SearchKind::Type;
            lemma_filter_only_kept(ks, p);
            assert(p(kept[j]));
        }
    }
    assert forall|i: int|
        0 <= i < plan.parts@.len() && plan.parts@[i].kind == SearchKind::Type && q.source_id is Some
            implies views(#[trigger] plan.parts@[i].filters@).contains(
            FilterView::SourceIs(hyphenated(q.source_id->0)),
        ) by {
        let g = q.source_id->0;
        let fs = views(plan.parts@[i].filters@);
        assert(fs == f.filters_spec(SearchKind::Type));
        let a = opt_seq(f.term_view()) + opt_seq(f.commit_view());
        let src = opt_seq(f.source_view());
        assert(src =~= seq![FilterView::SourceIs(hyphenated(g))]);
        assert(fs == a + src + opt_seq(f.tags_view()));
        assert(fs[a.len() as int] == FilterView::SourceIs(hyphenated(g)));
    }
}

} // verus!

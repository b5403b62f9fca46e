//! Functions: WARP function records with their symbols, types, comments and
//! constraints.

use vstd::prelude::*;

use crate::db::{hyphenated, json_list, json_strings, json_uuids, texts, uid, uuid_texts};
use crate::error::{ApiError, ApiResult};
use crate::handlers::{opt_seq, push_opt, views, Filter, FilterView};
use crate::models::request::FunctionQuery;
use crate::text::{
    lemma_filter_step, lemma_text_lt_irreflexive, lemma_text_lt_total, lemma_text_lt_transitive, owned,
    same_text, text_less, text_lt,
};

verus! {

/// A filter on a list that is present and not empty.
pub open spec fn list_filter<T>(l: Option<Vec<T>>, f: spec_fn(Seq<T>) -> FilterView) -> Option<FilterView> {
    match l {
        Some(v) => if v@.len() > 0 { Some(f(v@)) } else { None },
        None => None,
    }
}

/// The conditions of a function query, in the order they are applied;
/// empty lists filter nothing.
pub open spec fn function_filters_spec(q: FunctionQuery) -> Seq<FilterView> {
    opt_seq(
        match q.commit_id {
            Some(c) => Some(FilterView::CommitIs(c)),
            None => None,
        },
    ) + opt_seq(
        match q.source_id {
            Some(s) => Some(FilterView::SourceIs(hyphenated(s))),
            None => None,
        },
    ) + opt_seq(
        match q.target_id {
            Some(t) => Some(FilterView::TargetIs(t)),
            None => None,
        },
    ) + opt_seq(
        match q.symbol_id {
            Some(s) => Some(FilterView::SymbolIs(s)),
            None => None,
        },
    ) + opt_seq(list_filter(q.guids, |g: Seq<u128>| FilterView::GuidIn(json_list(uuid_texts(g)))))
        + opt_seq(list_filter(q.constraints, |c: Seq<u128>| FilterView::ConstraintIn(json_list(uuid_texts(c)))))
        + opt_seq(list_filter(q.source_tags, |t: Seq<String>| FilterView::SourceTagIn(json_list(texts(t)))))
}

pub fn function_filters(q: &FunctionQuery) -> (r: Vec<Filter>)
    ensures
        views(r@) == function_filters_spec(*q),
{
    let mut v: Vec<Filter> = Vec::new();
    assert(views(v@) =~= Seq::<FilterView>::empty());
    let commit = match q.commit_id {
        Some(c) => Some(Filter::CommitIs(c)),
        None => None,
    };
    push_opt(&mut v, commit);
    let source = match q.source_id {
        Some(s) => Some(Filter::SourceIs(uid(s))),
        None => None,
    };
    push_opt(&mut v, source);
    let target = match q.target_id {
        Some(t) => Some(Filter::TargetIs(t)),
        None => None,
    };
    push_opt(&mut v, target);
    let symbol = match q.symbol_id {
        Some(s) => Some(Filter::SymbolIs(s)),
        None => None,
    };
    push_opt(&mut v, symbol);
    let guids = match &q.guids {
        Some(g) => if g.len() > 0 { Some(Filter::GuidIn(json_uuids(g))) } else { None },
        None => None,
    };
    push_opt(&mut v, guids);
    let constraints = match &q.constraints {
        Some(c) => if c.len() > 0 { Some(Filter::ConstraintIn(json_uuids(c))) } else { None },
        None => None,
    };
    push_opt(&mut v, constraints);
    let tags = match &q.source_tags {
        Some(t) => if t.len() > 0 { Some(Filter::SourceTagIn(json_strings(t))) } else { None },
        None => None,
    };
    push_opt(&mut v, tags);
    v
}

/// The row limit of a "which sources know these GUIDs" query: the given
/// one, never below zero.
pub fn source_query_limit(limit: Option<i64>) -> (r: Option<i64>)
    ensures
        match limit {
            Some(l) => r == Some(if l < 0 { 0i64 } else { l }),
            None => r is None,
        },
{
    match limit {
        Some(l) => Some(if l < 0 { 0 } else { l }),
        None => None,
    }
}

/// A function must exist (`count` rows carry its id) before its comments,
/// constraints, symbol or type are looked up.
pub fn require_function(count: i64) -> (r: ApiResult<()>)
    ensures
        count > 0 ==> r is Ok,
        count <= 0 ==> (r matches Err(ApiError::NotFound(m)) && m@ == "function"@ + " not found"@),
{
    if count > 0 {
        Ok(())
    } else {
        Err(ApiError::not_found("function"))
    }
}

/// The GUIDs that rows `(source, guid)` list for `source`, in row order.
pub open spec fn guids_of(rows: Seq<(String, String)>, source: Seq<char>) -> Seq<Seq<char>> {
    rows.filter(|r: (String, String)| r.0@ == source).map_values(|r: (String, String)| r.1@)
}

/// `s` is one of `keys`.
pub open spec fn listed(keys: Seq<String>, s: Seq<char>) -> bool {
    exists|i: int| 0 <= i < keys.len() && keys[i]@ == s
}

/// `keys` holds each source of `rows` once, in text order, and `groups[i]`
/// the GUIDs of `keys[i]`.
pub open spec fn grouped(rows: Seq<(String, String)>, keys: Seq<String>, groups: Seq<Vec<String>>) -> bool {
    &&& keys.len() == groups.len()
    &&& forall|i: int, j: int| 0 <= i < j < keys.len() ==> text_lt(keys[i]@, keys[j]@)
    &&& forall|k: int| 0 <= k < rows.len() ==> listed(keys, (#[trigger] rows[k]).0@)
    &&& forall|i: int| 0 <= i < keys.len() ==> texts(#[trigger] groups[i]@) == guids_of(rows, keys[i]@)
}

/// Groups `(source, guid)` rows by source for the `{ source: [guid, ...] }`
/// answer: sources in text order, the GUIDs of each in row order.
pub fn group_by_source(rows: &Vec<(String, String)>) -> (r: (Vec<String>, Vec<Vec<String>>))
    ensures
        grouped(rows@, r.0@, r.1@),
{
    let mut keys: Vec<String> = Vec::new();
    let mut groups: Vec<Vec<String>> = Vec::new();
    let mut k: usize = 0;
    while k < rows.len()
        invariant
            k <= rows.len(),
            grouped(rows@.take(k as int), keys@, groups@),
        decreases rows.len() - k,
    {
        let ghost pre = rows@.take(k as int);
        let ghost post = rows@.take(k + 1);
        let ghost row = rows@[k as int];
        assert(post =~= pre.push(row));
        let source = &rows[k].0;
        let guid = &rows[k].1;
        proof {
            assert forall|s: Seq<char>| guids_of(post, s) == (if row.0@ == s {
                guids_of(pre, s).push(row.1@)
            } else {
                guids_of(pre, s)
            }) by {
                let p = |r: (String, String)| r.0@ == s;
                lemma_filter_step(post, p, k as int);
                assert(post.take(k as int) =~= pre);
                assert(post.take(k + 1) =~= post);
                assert(guids_of(post, s) =~= (if row.0@ == s {
                    guids_of(pre, s).push(row.1@)
                } else {
                    guids_of(pre, s)
                }));
            }
        }
        let mut j: usize = 0;
        while j < keys.len() && text_less(keys[j].as_str(), source.as_str())
            invariant
                j <= keys.len(),
                forall|i: int| 0 <= i < j ==> text_lt(keys@[i]@, source@),
            decreases keys.len() - j,
        {
            j += 1;
        }
        let ghost old_keys = keys@;
        let ghost old_groups = groups@;
        let ghost t = source@;
        assert(t == row.0@);
        assert(j < old_keys.len() ==> !text_lt(old_keys[j as int]@, t));
        if j < keys.len() && same_text(keys[j].as_str(), source.as_str()) {
            let mut g = groups.remove(j);
            g.push(owned(guid.as_str()));
            groups.insert(j, g);
            assert forall|i: int| 0 <= i < keys@.len() implies texts(#[trigger] groups@[i]@) == guids_of(post, keys@[i]@) by {
                if i == j {
                    assert(texts(groups@[i]@) =~= texts(old_groups[i]@).push(row.1@));
                } else {
                    assert(groups@[i] == old_groups[i]);
                }
            }
            assert forall|m: int| 0 <= m < post.len() implies listed(keys@, (#[trigger] post[m]).0@) by {
                if m < k {
                    assert(post[m] == pre[m]);
                } else {
                    assert(keys@[j as int]@ == post[m].0@);
                }
            }
            assert(grouped(post, keys@, groups@));
        } else {
            proof {
                lemma_text_lt_irreflexive(t);
                if j < old_keys.len() {
                    lemma_text_lt_total(old_keys[j as int]@, t);
                    assert(text_lt(t, old_keys[j as int]@));
                }
            }
            keys.insert(j, owned(source.as_str()));
            let mut g: Vec<String> = Vec::new();
            g.push(owned(guid.as_str()));
            groups.insert(j, g);
            assert(keys@[j as int]@ == t);
            assert forall|i: int| 0 <= i < keys@.len() implies texts(#[trigger] groups@[i]@) == guids_of(post, keys@[i]@) by {
                if i == j {
                    assert(guids_of(pre, row.0@) =~= Seq::<Seq<char>>::empty()) by {
                        if guids_of(pre, row.0@).len() > 0 {
                            let p = |r: (String, String)| r.0@ == row.0@;
                            crate::text::lemma_filter_only_kept(pre, p);
                            let e = pre.filter(p)[0];
                            assert(p(e));
                            assert(pre.filter(p).contains(e));
                            pre.lemma_filter_contains_rev(p, e);
                            let m = choose|m: int| 0 <= m < pre.len() && pre[m] == e;
                            assert(listed(old_keys, pre[m].0@));
                            let w = choose|w: int| 0 <= w < old_keys.len() && old_keys[w]@ == pre[m].0@;
                            if w > j {
                                assert(text_lt(old_keys[j as int]@, old_keys[w]@));
                                lemma_text_lt_transitive(t, old_keys[j as int]@, old_keys[w]@);
                            }
                            assert(false);
                        }
                    }
                    assert(texts(groups@[i]@) =~= seq![row.1@]);
                } else if i < j {
                    assert(groups@[i] == old_groups[i]);
                    assert(keys@[i] == old_keys[i]);
                    assert(old_keys[i]@ != t);
                } else {
                    assert(groups@[i] == old_groups[i - 1]);
                    assert(keys@[i] == old_keys[i - 1]);
                    if i - 1 > j {
                        assert(text_lt(old_keys[j as int]@, old_keys[i - 1]@));
                        lemma_text_lt_transitive(t, old_keys[j as int]@, old_keys[i - 1]@);
                    }
                    assert(old_keys[i - 1]@ != t);
                }
            }
            assert forall|m: int| 0 <= m < post.len() implies listed(keys@, (#[trigger] post[m]).0@) by {
                if m < k {
                    assert(post[m] == pre[m]);
                    assert(listed(old_keys, pre[m].0@));
                    let w = choose|w: int| 0 <= w < old_keys.len() && old_keys[w]@ == pre[m].0@;
                    if w < j {
                        assert(keys@[w] == old_keys[w]);
                    } else {
                        assert(keys@[w + 1] == old_keys[w]);
                    }
                } else {
                    assert(keys@[j as int]@ == post[m].0@);
                }
            }
            assert forall|a: int, b: int| 0 <= a < b < keys@.len() implies text_lt(keys@[a]@, keys@[b]@) by {
                if b < j {
                    assert(keys@[a] == old_keys[a]);
                    assert(keys@[b] == old_keys[b]);
                } else if b == j {
                    assert(keys@[a] == old_keys[a]);
                } else if a < j {
                    assert(keys@[a] == old_keys[a]);
                    assert(keys@[b] == old_keys[b - 1]);
                    if b - 1 > j {
                        assert(text_lt(old_keys[j as int]@, old_keys[b - 1]@));
                        lemma_text_lt_transitive(t, old_keys[j as int]@, old_keys[b - 1]@);
                    }
                    lemma_text_lt_transitive(old_keys[a]@, t, old_keys[b - 1]@);
                } else if a == j {
                    assert(keys@[b] == old_keys[b - 1]);
                    if b - 1 > j {
                        assert(text_lt(old_keys[j as int]@, old_keys[b - 1]@));
                        lemma_text_lt_transitive(t, old_keys[j as int]@, old_keys[b - 1]@);
                    }
                } else {
                    assert(keys@[a] == old_keys[a - 1]);
                    assert(keys@[b] == old_keys[b - 1]);
                }
            }
            assert(grouped(post, keys@, groups@));
        }
        k += 1;
    }
    assert(rows@.take(rows@.len() as int) =~= rows@);
    (keys, groups)
}

/// A function query keeps exactly the rows its scalar conditions name: a
/// given commit, source, target or symbol is always among its conditions
/// (so every row returned belongs to it), and no such condition appears
/// that the query did not give.
pub proof fn lemma_function_query_conditions(q: FunctionQuery)
    ensures
        ({
            let fs = function_filters_spec(q);
            &&& q.commit_id is Some ==> fs.contains(FilterView::CommitIs(q.commit_id->0))
            &&& q.source_id is Some ==> fs.contains(FilterView::SourceIs(hyphenated(q.source_id->0)))
            &&& q.target_id is Some ==> fs.contains(FilterView::TargetIs(q.target_id->0))
            &&& q.symbol_id is Some ==> fs.contains(FilterView::SymbolIs(q.symbol_id->0))
            &&& forall|i: int|
                0 <= i < fs.len() ==> match #[trigger] fs[i] {
                    FilterView::CommitIs(c) => q.commit_id == Some(c),
                    FilterView::SourceIs(x) => q.source_id is Some && x == hyphenated(q.source_id->0),
                    FilterView::TargetIs(t) => q.target_id == Some(t),
                    FilterView::SymbolIs(y) => q.symbol_id == Some(y),
                    FilterView::GuidIn(_) | FilterView::ConstraintIn(_) | FilterView::SourceTagIn(_) => true,
                    _ => false,
                }
        }),
{
    let a = opt_seq(
        match q.commit_id {
            Some(c) => Some(FilterView::CommitIs(c)),
            None => None,
        },
    );
    let b = opt_seq(
        match q.source_id {
            Some(s) => Some(FilterView::SourceIs(hyphenated(s))),
            None => None,
        },
    );
    let c = opt_seq(
        match q.target_id {
            Some(t) => Some(FilterView::TargetIs(t)),
            None => None,
        },
    );
    let d = opt_seq(
        match q.symbol_id {
            Some(s) => Some(FilterView::SymbolIs(s)),
            None => None,
        },
    );
    let e = opt_seq(list_filter(q.guids, |g: Seq<u128>| FilterView::GuidIn(json_list(uuid_texts(g)))));
    let f = opt_seq(list_filter(q.constraints, |c: Seq<u128>| FilterView::ConstraintIn(json_list(uuid_texts(c)))));
    let g = opt_seq(list_filter(q.source_tags, |t: Seq<String>| FilterView::SourceTagIn(json_list(texts(t)))));
    let fs = function_filters_spec(q);
    assert(fs == a + b + c + d + e + f + g);
    if q.commit_id is Some {
        assert(fs[0] == a[0]);
    }
    if q.source_id is Some {
        assert(fs[a.len() as int] == b[0]);
    }
    if q.target_id is Some {
        assert(fs[(a.len() + b.len()) as int] == c[0]);
    }
    if q.symbol_id is Some {
        assert(fs[(a.len() + b.len() + c.len()) as int] == d[0]);
    }
    assert forall|i: int| 0 <= i < fs.len() implies match #[trigger] fs[i] {
        FilterView::CommitIs(x) => q.commit_id == Some(x),
        FilterView::SourceIs(x) => q.source_id is Some && x == hyphenated(q.source_id->0),
        FilterView::TargetIs(t) => q.target_id == Some(t),
        FilterView::SymbolIs(y) => q.symbol_id == Some(y),
        FilterView::GuidIn(_) | FilterView::ConstraintIn(_) | FilterView::SourceTagIn(_) => true,
        _ => false,
    } by {
        let n1 = a.len() as int;
        let n2 = n1 + b.len();
        let n3 = n2 + c.len();
        let n4 = n3 + d.len();
        let n5 = n4 + e.len();
        let n6 = n5 + f.len();
        if i < n1 {
            assert(fs[i] == a[i]);
        } else if i < n2 {
            assert(fs[i] == b[i - n1]);
        } else if i < n3 {
            assert(fs[i] == c[i - n2]);
        } else if i < n4 {
            assert(fs[i] == d[i - n3]);
        } else if i < n5 {
            assert(fs[i] == e[i - n4]);
        } else if i < n6 {
            assert(fs[i] == f[i - n5]);
        } else {
            assert(fs[i] == g[i - n6]);
        }
    }
}

} // verus!

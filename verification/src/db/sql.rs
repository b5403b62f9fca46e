//! The `WHERE` conditions of the query routes and the union behind
//! `/search`, as SQL text interleaved with the parameters bound into it.

use vstd::prelude::*;

use crate::handlers::search::{SearchKind, SearchPart, SearchPlan};
use crate::handlers::{views, Filter, FilterView};
use crate::models::records::role_name;

verus! {

/// A piece of a statement: SQL text, or a parameter bound at that place.
#[derive(Debug, Clone)]
pub enum SqlPart {
    Text(String),
    Int(i64),
    Str(String),
}

/// A [`SqlPart`] with its texts as character sequences.
pub ghost enum PartView {
    Text(Seq<char>),
    Int(i64),
    Str(Seq<char>),
}

impl View for SqlPart {
    type V = PartView;

    open spec fn view(&self) -> PartView {
        match self {
            SqlPart::Text(t) => PartView::Text(t@),
            SqlPart::Int(i) => PartView::Int(*i),
            SqlPart::Str(s) => PartView::Str(s@),
        }
    }
}

pub open spec fn parts_view(v: Seq<SqlPart>) -> Seq<PartView> {
    v.map_values(|p: SqlPart| p@)
}

/// The columns that name, source and commit conditions test on a route.
#[derive(Debug, Clone, Copy)]
pub struct Columns {
    pub name: &'static str,
    pub source: &'static str,
    pub commit: &'static str,
}

/// ` AND <column> = `.
pub open spec fn equals_text(column: Seq<char>) -> Seq<char> {
    " AND "@ + column + " = "@
}

/// The SQL of one condition on the columns `c`.
pub open spec fn filter_parts(f: FilterView, c: Columns) -> Seq<PartView> {
    match f {
        FilterView::CommitIs(x) => seq![PartView::Text(equals_text(c.commit@)), PartView::Int(x)],
        FilterView::SourceIs(s) => seq![PartView::Text(equals_text(c.source@)), PartView::Str(s)],
        FilterView::UserIs(u) => seq![PartView::Text(" AND user_id = "@), PartView::Int(u)],
        FilterView::TargetIs(t) => seq![PartView::Text(" AND f.target_id = "@), PartView::Int(t)],
        FilterView::SymbolIs(s) => seq![PartView::Text(" AND f.symbol_id = "@), PartView::Int(s)],
        FilterView::GuidIs(g) => seq![PartView::Text(" AND f.guid = "@), PartView::Str(g)],
        FilterView::GuidIn(j) => seq![
            PartView::Text(" AND f.guid IN (SELECT value FROM json_each("@),
            PartView::Str(j),
            PartView::Text("))"@),
        ],
        FilterView::ConstraintIn(j) => seq![
            PartView::Text(
                " AND EXISTS (SELECT 1 FROM function_constraints fc WHERE fc.function_id = f.id AND fc.guid IN (SELECT value FROM json_each("@,
            ),
            PartView::Str(j),
            PartView::Text(")))"@),
        ],
        FilterView::SourceTagIn(j) => seq![
            PartView::Text(
                " AND EXISTS (SELECT 1 FROM source_tags st WHERE st.source_id = "@ + c.source@
                    + " AND st.tag IN (SELECT value FROM json_each("@,
            ),
            PartView::Str(j),
            PartView::Text(")))"@),
        ],
        FilterView::NameIs(n) => seq![PartView::Text(equals_text(c.name@)), PartView::Str(n)],
        FilterView::NameLike(p) => seq![
            PartView::Text(" AND "@ + c.name@ + " LIKE "@),
            PartView::Str(p),
            PartView::Text(" ESCAPE '\\'"@),
        ],
        FilterView::MemberIs(u) => seq![
            PartView::Text(
                " AND EXISTS (SELECT 1 FROM source_users su WHERE su.source_id = source.id AND su.user_id = "@,
            ),
            PartView::Int(u),
            PartView::Text(")"@),
        ],
        FilterView::RoleIs(r) => seq![PartView::Text(" AND role = "@), PartView::Str(role_name(r))],
        FilterView::PlatformIs(p) => seq![PartView::Text(" AND platform = "@), PartView::Str(p)],
        FilterView::ArchIs(a) => seq![PartView::Text(" AND arch = "@), PartView::Str(a)],
    }
}

/// The SQL of the conditions `fs`, in order.
pub open spec fn filters_parts(fs: Seq<FilterView>, c: Columns) -> Seq<PartView>
    decreases fs.len(),
{
    if fs.len() == 0 {
        Seq::empty()
    } else {
        filters_parts(fs.drop_last(), c) + filter_parts(fs.last(), c)
    }
}

fn text3(a: &str, b: &str, c: &str) -> (r: String)
    ensures
        r@ == a@ + b@ + c@,
{
    String::from_str(a).concat(b).concat(c)
}

fn push_part(v: &mut Vec<SqlPart>, p: SqlPart)
    ensures
        parts_view(final(v)@) == parts_view(old(v)@).push(p@),
{
    let ghost before = v@;
    v.push(p);
    assert(parts_view(v@) =~= parts_view(before).push(p@));
}

/// Appends the SQL of condition `f` on the columns `c`.
fn push_filter(v: &mut Vec<SqlPart>, f: &Filter, c: Columns)
    ensures
        parts_view(final(v)@) == parts_view(old(v)@) + filter_parts(f@, c),
{
    let ghost before = parts_view(v@);
    match f {
        Filter::CommitIs(x) => {
            push_part(v, SqlPart::Text(text3(" AND ", c.commit, " = ")));
            push_part(v, SqlPart::Int(*x));
        },
        Filter::SourceIs(s) => {
            push_part(v, SqlPart::Text(text3(" AND ", c.source, " = ")));
            push_part(v, SqlPart::Str(s.clone()));
        },
        Filter::UserIs(u) => {
            push_part(v, SqlPart::Text(String::from_str(" AND user_id = ")));
            push_part(v, SqlPart::Int(*u));
        },
        Filter::TargetIs(t) => {
            push_part(v, SqlPart::Text(String::from_str(" AND f.target_id = ")));
            push_part(v, SqlPart::Int(*t));
        },
        Filter::SymbolIs(s) => {
            push_part(v, SqlPart::Text(String::from_str(" AND f.symbol_id = ")));
            push_part(v, SqlPart::Int(*s));
        },
        Filter::GuidIs(g) => {
            push_part(v, SqlPart::Text(String::from_str(" AND f.guid = ")));
            push_part(v, SqlPart::Str(g.clone()));
        },
        Filter::GuidIn(j) => {
            push_part(v, SqlPart::Text(String::from_str(" AND f.guid IN (SELECT value FROM json_each(")));
            push_part(v, SqlPart::Str(j.clone()));
            push_part(v, SqlPart::Text(String::from_str("))")));
        },
        Filter::ConstraintIn(j) => {
            push_part(
                v,
                SqlPart::Text(
                    String::from_str(
                        " AND EXISTS (SELECT 1 FROM function_constraints fc WHERE fc.function_id = f.id AND fc.guid IN (SELECT value FROM json_each(",
                    ),
                ),
            );
            push_part(v, SqlPart::Str(j.clone()));
            push_part(v, SqlPart::Text(String::from_str(")))")));
        },
        Filter::SourceTagIn(j) => {
            push_part(
                v,
                SqlPart::Text(
                    text3(
                        " AND EXISTS (SELECT 1 FROM source_tags st WHERE st.source_id = ",
                        c.source,
                        " AND st.tag IN (SELECT value FROM json_each(",
                    ),
                ),
            );
            push_part(v, SqlPart::Str(j.clone()));
            push_part(v, SqlPart::Text(String::from_str(")))")));
        },
        Filter::NameIs(n) => {
            push_part(v, SqlPart::Text(text3(" AND ", c.name, " = ")));
            push_part(v, SqlPart::Str(n.clone()));
        },
        Filter::NameLike(p) => {
            push_part(v, SqlPart::Text(text3(" AND ", c.name, " LIKE ")));
            push_part(v, SqlPart::Str(p.clone()));
            push_part(v, SqlPart::Text(String::from_str(" ESCAPE '\\'")));
        },
        Filter::MemberIs(u) => {
            push_part(
                v,
                SqlPart::Text(
                    String::from_str(
                        " AND EXISTS (SELECT 1 FROM source_users su WHERE su.source_id = source.id AND su.user_id = ",
                    ),
                ),
            );
            push_part(v, SqlPart::Int(*u));
            push_part(v, SqlPart::Text(String::from_str(")")));
        },
        Filter::RoleIs(r) => {
            push_part(v, SqlPart::Text(String::from_str(" AND role = ")));
            push_part(v, SqlPart::Str(String::from_str(r.as_str())));
        },
        Filter::PlatformIs(p) => {
            push_part(v, SqlPart::Text(String::from_str(" AND platform = ")));
            push_part(v, SqlPart::Str(p.clone()));
        },
        Filter::ArchIs(a) => {
            push_part(v, SqlPart::Text(String::from_str(" AND arch = ")));
            push_part(v, SqlPart::Str(a.clone()));
        },
    }
    assert(parts_view(v@) =~= before + filter_parts(f@, c));
}

/// Appends the SQL of the conditions `filters` on the columns `c`.
fn push_filters(v: &mut Vec<SqlPart>, filters: &Vec<Filter>, c: Columns)
    ensures
        parts_view(final(v)@) == parts_view(old(v)@) + filters_parts(views(filters@), c),
{
    let ghost before = parts_view(v@);
    let mut i: usize = 0;
    while i < filters.len()
        invariant
            i <= filters.len(),
            parts_view(v@) == before + filters_parts(views(filters@.take(i as int)), c),
        decreases filters.len() - i,
    {
        push_filter(v, &filters[i], c);
        assert(views(filters@.take(i + 1)).drop_last() =~= views(filters@.take(i as int)));
        assert(views(filters@.take(i + 1)).last() == filters@[i as int]@);
        i += 1;
    }
    assert(filters@.take(filters.len() as int) =~= filters@);
    assert(views(filters@.take(0)) =~= Seq::<FilterView>::empty());
}

/// The conditions `filters` on the columns `c`, each starting with ` AND `.
pub fn filter_sql(filters: &Vec<Filter>, c: Columns) -> (r: Vec<SqlPart>)
    ensures
        parts_view(r@) == filters_parts(views(filters@), c),
{
    let mut v: Vec<SqlPart> = Vec::new();
    assert(parts_view(v@) =~= Seq::<PartView>::empty());
    push_filters(&mut v, filters, c);
    v
}

// ---------------------------------------------------------------- search

/// The payload column of a hit: `<column> AS data` when the search asks for
/// data, `NULL AS data` otherwise.
pub open spec fn data_text(column: Seq<char>, retrieve_data: bool) -> Seq<char> {
    if retrieve_data {
        column + " AS data"@
    } else {
        "NULL AS data"@
    }
}

/// The `SELECT` of one kind of hit, up to its conditions.
pub open spec fn select_text(kind: SearchKind, retrieve_data: bool) -> Seq<char> {
    match kind {
        SearchKind::Source => "SELECT 'source' AS kind, s.id AS id, s.name AS name, s.id AS source_id, NULL AS commit_id, s.created_at AS created_at, NULL AS function_guid, NULL AS symbol_id, NULL AS data FROM source s WHERE 1=1"@,
        SearchKind::Function => "SELECT 'function' AS kind, CAST(f.id AS TEXT) AS id, sym.name AS name, f.source_id AS source_id, f.commit_id AS commit_id, f.created_at AS created_at, f.guid AS function_guid, f.symbol_id AS symbol_id, "@
            + data_text("f.data"@, retrieve_data) + " FROM functions f JOIN symbols sym ON sym.id = f.symbol_id WHERE 1=1"@,
        SearchKind::Type => "SELECT 'type' AS kind, t.id AS id, t.name AS name, t.source_id AS source_id, t.commit_id AS commit_id, t.created_at AS created_at, NULL AS function_guid, NULL AS symbol_id, "@
            + data_text("t.data"@, retrieve_data) + " FROM types t WHERE 1=1"@,
        SearchKind::Symbol => "SELECT 'symbol' AS kind, CAST(sym.id AS TEXT) AS id, sym.name AS name, NULL AS source_id, NULL AS commit_id, sym.created_at AS created_at, NULL AS function_guid, sym.id AS symbol_id, NULL AS data FROM symbols sym WHERE 1=1"@,
    }
}

/// The columns that the conditions of a kind of hit test.
pub open spec fn kind_columns(kind: SearchKind) -> Columns {
    match kind {
        SearchKind::Source => Columns { name: "s.name", source: "s.id", commit: "NULL" },
        SearchKind::Function => Columns { name: "sym.name", source: "f.source_id", commit: "f.commit_id" },
        SearchKind::Type => Columns { name: "t.name", source: "t.source_id", commit: "t.commit_id" },
        SearchKind::Symbol => Columns { name: "sym.name", source: "NULL", commit: "NULL" },
    }
}

fn columns_of(kind: SearchKind) -> (r: Columns)
    ensures
        r == kind_columns(kind),
{
    match kind {
        SearchKind::Source => Columns { name: "s.name", source: "s.id", commit: "NULL" },
        SearchKind::Function => Columns { name: "sym.name", source: "f.source_id", commit: "f.commit_id" },
        SearchKind::Type => Columns { name: "t.name", source: "t.source_id", commit: "t.commit_id" },
        SearchKind::Symbol => Columns { name: "sym.name", source: "NULL", commit: "NULL" },
    }
}

/// One part of the union: its `SELECT`, then its conditions.
pub open spec fn part_parts(p: SearchPart, retrieve_data: bool) -> Seq<PartView> {
    seq![PartView::Text(select_text(p.kind, retrieve_data))] + filters_parts(views(p.filters@), kind_columns(p.kind))
}

/// The parts joined by ` UNION ALL `.
pub open spec fn union_parts(ps: Seq<SearchPart>, retrieve_data: bool) -> Seq<PartView>
    decreases ps.len(),
{
    if ps.len() == 0 {
        Seq::empty()
    } else if ps.len() == 1 {
        part_parts(ps[0], retrieve_data)
    } else {
        union_parts(ps.drop_last(), retrieve_data) + seq![PartView::Text(" UNION ALL "@)] + part_parts(
            ps.last(),
            retrieve_data,
        )
    }
}

/// A `SELECT` of the union's columns that answers nothing.
pub open spec fn empty_select() -> Seq<char> {
    "SELECT 'none' AS kind, '' AS id, NULL AS name, NULL AS source_id, NULL AS commit_id, '' AS created_at, NULL AS function_guid, NULL AS symbol_id, NULL AS data WHERE 0"@
}

/// The statement of a search: the union of its parts, or, with no part, a
/// `SELECT` that answers nothing.
pub open spec fn search_parts(plan: SearchPlan) -> Seq<PartView> {
    if plan.parts@.len() == 0 {
        seq![PartView::Text(empty_select())]
    } else {
        union_parts(plan.parts@, plan.filters.retrieve_data)
    }
}

fn select_of(kind: SearchKind, retrieve_data: bool) -> (r: String)
    ensures
        r@ == select_text(kind, retrieve_data),
{
    match kind {
        SearchKind::Source => String::from_str(
            "SELECT 'source' AS kind, s.id AS id, s.name AS name, s.id AS source_id, NULL AS commit_id, s.created_at AS created_at, NULL AS function_guid, NULL AS symbol_id, NULL AS data FROM source s WHERE 1=1",
        ),
        SearchKind::Function => {
            let data = if retrieve_data {
                "f.data AS data"
            } else {
                "NULL AS data"
            };
            proof {
                reveal_strlit("f.data AS data");
                reveal_strlit("f.data");
                reveal_strlit(" AS data");
                assert(data@ == data_text("f.data"@, retrieve_data));
            }
            text3(
                "SELECT 'function' AS kind, CAST(f.id AS TEXT) AS id, sym.name AS name, f.source_id AS source_id, f.commit_id AS commit_id, f.created_at AS created_at, f.guid AS function_guid, f.symbol_id AS symbol_id, ",
                data,
                " FROM functions f JOIN symbols sym ON sym.id = f.symbol_id WHERE 1=1",
            )
        },
        SearchKind::Type => {
            let data = if retrieve_data {
                "t.data AS data"
            } else {
                "NULL AS data"
            };
            proof {
                reveal_strlit("t.data AS data");
                reveal_strlit("t.data");
                reveal_strlit(" AS data");
                assert(data@ == data_text("t.data"@, retrieve_data));
            }
            text3(
                "SELECT 'type' AS kind, t.id AS id, t.name AS name, t.source_id AS source_id, t.commit_id AS commit_id, t.created_at AS created_at, NULL AS function_guid, NULL AS symbol_id, ",
                data,
                " FROM types t WHERE 1=1",
            )
        },
        SearchKind::Symbol => String::from_str(
            "SELECT 'symbol' AS kind, CAST(sym.id AS TEXT) AS id, sym.name AS name, NULL AS source_id, NULL AS commit_id, sym.created_at AS created_at, NULL AS function_guid, sym.id AS symbol_id, NULL AS data FROM symbols sym WHERE 1=1",
        ),
    }
}

/// The statement behind `/search`: one `SELECT` per part, with its
/// conditions, joined by ` UNION ALL `; with no part, a `SELECT` that
/// answers nothing.
pub fn search_sql(plan: &SearchPlan) -> (r: Vec<SqlPart>)
    ensures
        parts_view(r@) == search_parts(*plan),
{
    let mut v: Vec<SqlPart> = Vec::new();
    assert(parts_view(v@) =~= Seq::<PartView>::empty());
    if plan.parts.len() == 0 {
        push_part(
            &mut v,
            SqlPart::Text(
                String::from_str(
                    "SELECT 'none' AS kind, '' AS id, NULL AS name, NULL AS source_id, NULL AS commit_id, '' AS created_at, NULL AS function_guid, NULL AS symbol_id, NULL AS data WHERE 0",
                ),
            ),
        );
        assert(parts_view(v@) =~= seq![PartView::Text(empty_select())]);
        return v;
    }
    let retrieve = plan.filters.retrieve_data;
    let mut i: usize = 0;
    while i < plan.parts.len()
        invariant
            0 < plan.parts@.len(),
            i <= plan.parts.len(),
            retrieve == plan.filters.retrieve_data,
            parts_view(v@) == union_parts(plan.parts@.take(i as int), retrieve),
        decreases plan.parts.len() - i,
    {
        let ghost before = parts_view(v@);
        let part = &plan.parts[i];
        if i > 0 {
            push_part(&mut v, SqlPart::Text(String::from_str(" UNION ALL ")));
        }
        push_part(&mut v, SqlPart::Text(select_of(part.kind, retrieve)));
        push_filters(&mut v, &part.filters, columns_of(part.kind));
        proof {
            let ps = plan.parts@.take(i + 1);
            assert(ps.drop_last() =~= plan.parts@.take(i as int));
            assert(ps.last() == plan.parts@[i as int]);
            if i == 0 {
                assert(before =~= Seq::<PartView>::empty());
                assert(parts_view(v@) =~= part_parts(ps[0], retrieve));
            } else {
                assert(parts_view(v@) =~= before + seq![PartView::Text(" UNION ALL "@)] + part_parts(
                    ps.last(),
                    retrieve,
                ));
            }
        }
        i += 1;
    }
    assert(plan.parts@.take(plan.parts.len() as int) =~= plan.parts@);
    v
}

} // verus!

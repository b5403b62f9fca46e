//! Re-assembling stored functions and types into WARP files for clients:
//! which stored rows go into which chunk.

use vstd::prelude::*;

use crate::db::{parse_uuid, uuid_parse};
use crate::text::{
    lemma_filter_step, lemma_text_lt_irreflexive, lemma_text_lt_total, lemma_text_lt_transitive, owned,
    same_text, text_less, text_lt,
};

verus! {

/// Columns needed to rebuild a function inside a target-specific chunk.
pub const FUNCTION_BLOB_SELECT: &'static str =
    "SELECT f.id, f.data, t.platform, t.arch FROM functions f JOIN targets t ON t.id = f.target_id";

/// A stored function with the target it was pushed for.
#[derive(Debug, Clone)]
pub struct FunctionBlob {
    pub id: i64,
    pub data: Vec<u8>,
    pub platform: String,
    pub arch: String,
}

/// A stored type, by the text of its GUID.
#[derive(Debug, Clone)]
pub struct TypeBlob {
    pub id: String,
    pub data: Vec<u8>,
}

/// A target field as a chunk carries it: an empty text means "none".
pub fn non_empty(s: String) -> (r: Option<String>)
    ensures
        s@.len() == 0 ==> r is None,
        s@.len() > 0 ==> r == Some(s),
{
    if s.as_str().is_empty() {
        None
    } else {
        Some(s)
    }
}

/// The target of a stored function: its platform and architecture texts.
pub open spec fn target_of(b: FunctionBlob) -> (Seq<char>, Seq<char>) {
    (b.platform@, b.arch@)
}

/// `0, 1, ..., n - 1`.
pub open spec fn upto(n: int) -> Seq<int> {
    Seq::new(n as nat, |i: int| i)
}

/// The rows, by position, that go into the chunk of target `t`: those that
/// hold a valid function for that target, in row order.
pub open spec fn chunk_rows(rows: Seq<FunctionBlob>, valid: Seq<bool>, n: int, t: (Seq<char>, Seq<char>)) -> Seq<int> {
    upto(n).filter(|i: int| valid[i] && target_of(rows[i]) == t)
}

/// The functions of one signature chunk.
#[derive(Debug, Clone)]
pub struct TargetGroup {
    pub platform: String,
    pub arch: String,
    /// Positions of the rows whose functions the chunk holds, in row order.
    pub rows: Vec<usize>,
}

pub open spec fn group_target(g: TargetGroup) -> (Seq<char>, Seq<char>) {
    (g.platform@, g.arch@)
}

pub open spec fn positions(v: Seq<usize>) -> Seq<int> {
    v.map_values(|i: usize| i as int)
}

/// `t` is the target of one of `groups`.
pub open spec fn has_target(groups: Seq<TargetGroup>, t: (Seq<char>, Seq<char>)) -> bool {
    exists|g: int| 0 <= g < groups.len() && group_target(groups[g]) == t
}

/// Targets are ordered by platform, then architecture.
pub open spec fn target_lt(s: (Seq<char>, Seq<char>), t: (Seq<char>, Seq<char>)) -> bool {
    text_lt(s.0, t.0) || (s.0 == t.0 && text_lt(s.1, t.1))
}

proof fn lemma_target_lt_order(s: (Seq<char>, Seq<char>), t: (Seq<char>, Seq<char>), u: (Seq<char>, Seq<char>))
    ensures
        !target_lt(s, s),
        !(target_lt(s, t) && target_lt(t, s)),
        s != t ==> target_lt(s, t) || target_lt(t, s),
        target_lt(s, t) && target_lt(t, u) ==> target_lt(s, u),
{
    lemma_text_lt_irreflexive(s.0);
    lemma_text_lt_irreflexive(s.1);
    lemma_text_lt_total(s.0, t.0);
    lemma_text_lt_total(s.1, t.1);
    if text_lt(s.0, t.0) && text_lt(t.0, u.0) {
        lemma_text_lt_transitive(s.0, t.0, u.0);
    }
    if text_lt(s.1, t.1) && text_lt(t.1, u.1) {
        lemma_text_lt_transitive(s.1, t.1, u.1);
    }
}

/// One chunk per target, in target order: each target with a valid
/// function among the first `n` rows has exactly one group, and the group
/// lists that target's rows.
pub open spec fn chunks_of(rows: Seq<FunctionBlob>, valid: Seq<bool>, n: int, groups: Seq<TargetGroup>) -> bool {
    &&& forall|a: int, b: int| 0 <= a < b < groups.len() ==> target_lt(group_target(groups[a]), group_target(groups[b]))
    &&& forall|i: int| 0 <= i < n && valid[i] ==> has_target(groups, target_of(#[trigger] rows[i]))
    &&& forall|g: int| 0 <= g < groups.len() ==> positions((#[trigger] groups[g]).rows@)
        == chunk_rows(rows, valid, n, group_target(groups[g]))
    &&& forall|g: int| 0 <= g < groups.len() ==> (#[trigger] groups[g]).rows@.len() > 0
}

/// A group's target sorts before the target `platform`/`arch`.
fn before(g: &TargetGroup, platform: &str, arch: &str) -> (r: bool)
    ensures
        r == target_lt(group_target(*g), (platform@, arch@)),
{
    text_less(g.platform.as_str(), platform) || (same_text(g.platform.as_str(), platform) && text_less(
        g.arch.as_str(),
        arch,
    ))
}

/// The chunks of the WARP file that answers a function query: one per
/// target, in target order, holding the rows whose data is a valid WARP
/// function (`valid[i]` tells whether row `i` parsed), in row order.
pub fn group_by_target(rows: &Vec<FunctionBlob>, valid: &Vec<bool>) -> (r: Vec<TargetGroup>)
    requires
        valid.len() == rows.len(),
    ensures
        chunks_of(rows@, valid@, rows@.len() as int, r@),
{
    let mut groups: Vec<TargetGroup> = Vec::new();
    let mut k: usize = 0;
    while k < rows.len()
        invariant
            k <= rows.len(),
            valid.len() == rows.len(),
            chunks_of(rows@, valid@, k as int, groups@),
        decreases rows.len() - k,
    {
        let ghost t = target_of(rows@[k as int]);
        proof {
            assert forall|u: (Seq<char>, Seq<char>)| chunk_rows(rows@, valid@, k + 1, u) == (if valid@[k as int] && t == u {
                chunk_rows(rows@, valid@, k as int, u).push(k as int)
            } else {
                chunk_rows(rows@, valid@, k as int, u)
            }) by {
                let p = |i: int| valid@[i] && target_of(rows@[i]) == u;
                lemma_filter_step(upto(k + 1), p, k as int);
                assert(upto(k + 1).take(k as int) =~= upto(k as int));
                assert(upto(k + 1).take(k + 1) =~= upto(k + 1));
            }
        }
        if !valid[k] {
            k += 1;
            continue;
        }
        let platform = &rows[k].platform;
        let arch = &rows[k].arch;
        let mut j: usize = 0;
        while j < groups.len() && before(&groups[j], platform.as_str(), arch.as_str())
            invariant
                j <= groups.len(),
                t == (platform@, arch@),
                forall|g: int| 0 <= g < j ==> target_lt(group_target(groups@[g]), t),
            decreases groups.len() - j,
        {
            j += 1;
        }
        let ghost old_groups = groups@;
        assert(j < old_groups.len() ==> !target_lt(group_target(old_groups[j as int]), t));
        if j < groups.len() && same_text(groups[j].platform.as_str(), platform.as_str()) && same_text(
            groups[j].arch.as_str(),
            arch.as_str(),
        ) {
            assert(group_target(old_groups[j as int]) == t);
            let mut g = groups.remove(j);
            g.rows.push(k);
            groups.insert(j, g);
            assert(groups@ == old_groups.update(j as int, groups@[j as int]));
            assert forall|h: int| 0 <= h < groups@.len() implies positions((#[trigger] groups@[h]).rows@)
                == chunk_rows(rows@, valid@, k + 1, group_target(groups@[h])) by {
                if h == j {
                    assert(positions(groups@[h].rows@) =~= positions(old_groups[h].rows@).push(k as int));
                } else {
                    assert(groups@[h] == old_groups[h]);
                }
            }
            assert forall|i: int| 0 <= i < k + 1 && valid@[i] implies has_target(groups@, target_of(#[trigger] rows@[i])) by {
                if i < k {
                    let w = choose|w: int| 0 <= w < old_groups.len() && group_target(old_groups[w]) == target_of(rows@[i]);
                    assert(group_target(groups@[w]) == group_target(old_groups[w]));
                } else {
                    assert(group_target(groups@[j as int]) == t);
                }
            }
            assert forall|a: int, b: int| 0 <= a < b < groups@.len() implies target_lt(group_target(groups@[a]), group_target(groups@[b])) by {
                assert(group_target(groups@[a]) == group_target(old_groups[a]));
                assert(group_target(groups@[b]) == group_target(old_groups[b]));
            }
            assert forall|h: int| 0 <= h < groups@.len() implies (#[trigger] groups@[h]).rows@.len() > 0 by {
                if h != j {
                    assert(groups@[h] == old_groups[h]);
                }
            }
        } else {
            proof {
                if j < old_groups.len() {
                    lemma_target_lt_order(group_target(old_groups[j as int]), t, t);
                    assert(target_lt(t, group_target(old_groups[j as int])));
                }
            }
            let mut members: Vec<usize> = Vec::new();
            members.push(k);
            let fresh = TargetGroup { platform: owned(platform.as_str()), arch: owned(arch.as_str()), rows: members };
            groups.insert(j, fresh);
            assert(groups@ == old_groups.insert(j as int, groups@[j as int]));
            assert(group_target(groups@[j as int]) == t);
            assert forall|h: int| 0 <= h < groups@.len() implies positions((#[trigger] groups@[h]).rows@)
                == chunk_rows(rows@, valid@, k + 1, group_target(groups@[h])) by {
                if h == j {
                    assert(chunk_rows(rows@, valid@, k as int, t) =~= Seq::<int>::empty()) by {
                        let c = chunk_rows(rows@, valid@, k as int, t);
                        if c.len() > 0 {
                            let p = |i: int| valid@[i] && target_of(rows@[i]) == t;
                            crate::text::lemma_filter_only_kept(upto(k as int), p);
                            let e = c[0];
                            assert(p(e));
                            assert(c.contains(e));
                            upto(k as int).lemma_filter_contains_rev(p, e);
                            assert(0 <= e < k);
                            assert(has_target(old_groups, target_of(rows@[e])));
                            let w = choose|w: int| 0 <= w < old_groups.len() && group_target(old_groups[w]) == target_of(rows@[e]);
                            if w < j {
                                lemma_target_lt_order(t, t, t);
                            } else {
                                lemma_target_lt_order(t, t, t);
                                if w > j {
                                    assert(target_lt(group_target(old_groups[j as int]), group_target(old_groups[w])));
                                    lemma_target_lt_order(t, group_target(old_groups[j as int]), t);
                                }
                            }
                            assert(false);
                        }
                    }
                    assert(positions(groups@[h].rows@) =~= seq![k as int]);
                } else if h < j {
                    assert(groups@[h] == old_groups[h]);
                    lemma_target_lt_order(t, t, t);
                    assert(group_target(old_groups[h]) != t);
                } else {
                    assert(groups@[h] == old_groups[h - 1]);
                    lemma_target_lt_order(t, t, t);
                    if h - 1 > j {
                        assert(target_lt(group_target(old_groups[j as int]), group_target(old_groups[h - 1])));
                        lemma_target_lt_order(t, group_target(old_groups[j as int]), group_target(old_groups[h - 1]));
                    }
                    assert(group_target(old_groups[h - 1]) != t);
                }
            }
            assert forall|i: int| 0 <= i < k + 1 && valid@[i] implies has_target(groups@, target_of(#[trigger] rows@[i])) by {
                if i < k {
                    let w = choose|w: int| 0 <= w < old_groups.len() && group_target(old_groups[w]) == target_of(rows@[i]);
                    if w < j {
                        assert(groups@[w] == old_groups[w]);
                    } else {
                        assert(groups@[w + 1] == old_groups[w]);
                    }
                } else {
                    assert(group_target(groups@[j as int]) == t);
                }
            }
            assert forall|a: int, b: int| 0 <= a < b < groups@.len() implies target_lt(group_target(groups@[a]), group_target(groups@[b])) by {
                if b < j {
                    assert(groups@[a] == old_groups[a]);
                    assert(groups@[b] == old_groups[b]);
                } else if b == j {
                    assert(groups@[a] == old_groups[a]);
                } else if a < j {
                    assert(groups@[a] == old_groups[a]);
                    assert(groups@[b] == old_groups[b - 1]);
                    assert(target_lt(group_target(old_groups[a]), t));
                    if b - 1 > j {
                        assert(target_lt(group_target(old_groups[j as int]), group_target(old_groups[b - 1])));
                        lemma_target_lt_order(t, group_target(old_groups[j as int]), group_target(old_groups[b - 1]));
                    }
                    lemma_target_lt_order(group_target(old_groups[a]), t, group_target(old_groups[b - 1]));
                } else if a == j {
                    assert(groups@[b] == old_groups[b - 1]);
                    if b - 1 > j {
                        assert(target_lt(group_target(old_groups[j as int]), group_target(old_groups[b - 1])));
                        lemma_target_lt_order(t, group_target(old_groups[j as int]), group_target(old_groups[b - 1]));
                    }
                } else {
                    assert(groups@[a] == old_groups[a - 1]);
                    assert(groups@[b] == old_groups[b - 1]);
                }
            }
            assert forall|h: int| 0 <= h < groups@.len() implies (#[trigger] groups@[h]).rows@.len() > 0 by {
                if h < j {
                    assert(groups@[h] == old_groups[h]);
                } else if h > j {
                    assert(groups@[h] == old_groups[h - 1]);
                }
            }
        }
        k += 1;
    }
    groups
}

/// The stored types that go into a type chunk: those whose id reads as a
/// UUID, with that UUID, in row order.
pub open spec fn typed_rows(rows: Seq<TypeBlob>) -> Seq<(int, u128)>
    decreases rows.len(),
{
    if rows.len() == 0 {
        Seq::empty()
    } else {
        let rest = typed_rows(rows.drop_last());
        match uuid_parse(rows.last().id@) {
            Some(u) => rest.push(((rows.len() - 1) as int, u)),
            None => rest,
        }
    }
}

/// Rows whose id is not a UUID are left out of the file.
pub fn type_guids(rows: &Vec<TypeBlob>) -> (r: Vec<(usize, u128)>)
    ensures
        r@.map_values(|p: (usize, u128)| (p.0 as int, p.1)) == typed_rows(rows@),
{
    let mut out: Vec<(usize, u128)> = Vec::new();
    let mut k: usize = 0;
    while k < rows.len()
        invariant
            k <= rows.len(),
            out@.map_values(|p: (usize, u128)| (p.0 as int, p.1)) == typed_rows(rows@.take(k as int)),
        decreases rows.len() - k,
    {
        let ghost before = out@;
        assert(rows@.take(k + 1).drop_last() =~= rows@.take(k as int));
        match parse_uuid(rows[k].id.as_str()) {
            Some(u) => {
                out.push((k, u));
                assert(out@.map_values(|p: (usize, u128)| (p.0 as int, p.1)) =~= before.map_values(
                    |p: (usize, u128)| (p.0 as int, p.1),
                ).push((k as int, u)));
            },
            None => {},
        }
        k += 1;
    }
    assert(rows@.take(rows@.len() as int) =~= rows@);
    out
}

/// Every stored type whose id reads as a UUID goes into the type chunk,
/// once, under that UUID, in row order; no other row does.
pub proof fn lemma_type_chunk_holds_every_type(rows: Seq<TypeBlob>)
    ensures
        ({
            let t = typed_rows(rows);
            &&& forall|j: int| 0 <= j < t.len() ==> 0 <= (#[trigger] t[j]).0 < rows.len() && uuid_parse(
                rows[t[j].0].id@,
            ) == Some(t[j].1)
            &&& forall|i: int|
                0 <= i < rows.len() && (#[trigger] uuid_parse(rows[i].id@)) is Some ==> exists|j: int|
                    0 <= j < t.len() && #[trigger] t[j] == (i, uuid_parse(rows[i].id@)->0)
            &&& forall|j: int, k: int| 0 <= j < k < t.len() ==> (#[trigger] t[j]).0 < (#[trigger] t[k]).0
        }),
    decreases rows.len(),
{
    if rows.len() > 0 {
        let p = rows.drop_last();
        lemma_type_chunk_holds_every_type(p);
        let tp = typed_rows(p);
        let t = typed_rows(rows);
        let n = rows.len() - 1;
        assert forall|i: int| 0 <= i < p.len() implies p[i] == rows[i] by {}
        assert forall|j: int| 0 <= j < t.len() implies 0 <= (#[trigger] t[j]).0 < rows.len() && uuid_parse(
            rows[t[j].0].id@,
        ) == Some(t[j].1) by {
            if j < tp.len() {
                assert(t[j] == tp[j]);
                assert(p[tp[j].0] == rows[tp[j].0]);
            }
        }
        assert forall|i: int|
            0 <= i < rows.len() && (#[trigger] uuid_parse(rows[i].id@)) is Some implies exists|j: int|
                0 <= j < t.len() && #[trigger] t[j] == (i, uuid_parse(rows[i].id@)->0) by {
            if i < n {
                assert(p[i] == rows[i]);
                assert(uuid_parse(p[i].id@) is Some);
                let j = choose|j: int| 0 <= j < tp.len() && #[trigger] tp[j] == (i, uuid_parse(p[i].id@)->0);
                assert(t[j] == tp[j]);
            } else {
                assert(t[tp.len() as int] == (n, uuid_parse(rows[i].id@)->0));
            }
        }
        assert forall|j: int, k: int| 0 <= j < k < t.len() implies (#[trigger] t[j]).0 < (#[trigger] t[k]).0 by {
            if k < tp.len() {
                assert(t[j] == tp[j] && t[k] == tp[k]);
            } else {
                assert(t[j] == tp[j]);
                assert(tp[j].0 < p.len());
            }
        }
    }
}

} // verus!

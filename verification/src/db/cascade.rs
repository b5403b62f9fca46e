//! Cascading deletes, written out as the ordered list of statements to run
//! (the schema does not rely on SQLite foreign keys). Rows that refer to a
//! record are always removed before the record itself.

use vstd::prelude::*;

verus! {

/// One delete (or update) statement of a cascade.
#[derive(Debug, Clone, PartialEq, Eq)]
pub enum DeleteStep {
    /// `function_constraints` of the functions of a commit.
    ConstraintsOfCommit(i64),
    /// `function_comments` of the functions of a commit.
    CommentsOfCommit(i64),
    FunctionsOfCommit(i64),
    TypesOfCommit(i64),
    FilesOfCommit(i64),
    Commit(i64),
    /// `symbols` that no remaining function uses.
    UnusedSymbols,
    /// `targets` that no remaining function uses.
    UnusedTargets,
    MembersOfSource(String),
    TagsOfSource(String),
    Source(String),
    ApiKeysOfUser(i64),
    SessionsOfUser(i64),
    MembershipsOfUser(i64),
    /// The user's commits are kept; their author becomes anonymous.
    AnonymiseCommitsOfUser(i64),
    User(i64),
}

pub open spec fn commit_steps(commit_id: i64) -> Seq<DeleteStep> {
    seq![
        DeleteStep::ConstraintsOfCommit(commit_id),
        DeleteStep::CommentsOfCommit(commit_id),
        DeleteStep::FunctionsOfCommit(commit_id),
        DeleteStep::TypesOfCommit(commit_id),
        DeleteStep::FilesOfCommit(commit_id),
        DeleteStep::Commit(commit_id),
        DeleteStep::UnusedSymbols,
        DeleteStep::UnusedTargets,
    ]
}

/// The steps removing every commit of `commits`, in order.
pub open spec fn commits_steps(commits: Seq<i64>) -> Seq<DeleteStep>
    decreases commits.len(),
{
    if commits.len() == 0 {
        Seq::empty()
    } else {
        commits_steps(commits.drop_last()) + commit_steps(commits.last())
    }
}

/// Remove a commit and everything it introduced: its functions with their
/// constraints and comments, its types, its file and its row, then the
/// symbols and targets that no remaining function uses (see
/// [`lemma_delete_commit_tables`]).
pub fn delete_commit(commit_id: i64) -> (r: Vec<DeleteStep>)
    ensures
        r@ == commit_steps(commit_id),
{
    let r = vec![
        DeleteStep::ConstraintsOfCommit(commit_id),
        DeleteStep::CommentsOfCommit(commit_id),
        DeleteStep::FunctionsOfCommit(commit_id),
        DeleteStep::TypesOfCommit(commit_id),
        DeleteStep::FilesOfCommit(commit_id),
        DeleteStep::Commit(commit_id),
        DeleteStep::UnusedSymbols,
        DeleteStep::UnusedTargets,
    ];
    assert(r@ =~= commit_steps(commit_id));
    r
}

/// Remove a source: each of its commits (`commits`, as the store lists
/// them) as [`delete_commit`] does, then its members and tags, then the
/// source (see [`lemma_delete_source_tables`]).
pub fn delete_source(source_id: &String, commits: &Vec<i64>) -> (r: Vec<DeleteStep>)
    ensures
        r@ == commits_steps(commits@) + seq![
            DeleteStep::MembersOfSource(*source_id),
            DeleteStep::TagsOfSource(*source_id),
            DeleteStep::Source(*source_id),
        ],
{
    let mut r: Vec<DeleteStep> = Vec::new();
    let mut i: usize = 0;
    while i < commits.len()
        invariant
            i <= commits.len(),
            r@ == commits_steps(commits@.take(i as int)),
        decreases commits.len() - i,
    {
        let mut steps = delete_commit(commits[i]);
        r.append(&mut steps);
        assert(commits@.take(i + 1).drop_last() =~= commits@.take(i as int));
        i += 1;
    }
    assert(commits@.take(commits.len() as int) =~= commits@);
    let s1 = DeleteStep::MembersOfSource(source_id.clone());
    let s2 = DeleteStep::TagsOfSource(source_id.clone());
    let s3 = DeleteStep::Source(source_id.clone());
    let ghost before = r@;
    r.push(s1);
    r.push(s2);
    r.push(s3);
    assert(r@ =~= before + seq![
        DeleteStep::MembersOfSource(*source_id),
        DeleteStep::TagsOfSource(*source_id),
        DeleteStep::Source(*source_id),
    ]);
    r
}

/// Remove a user. Their commits are kept (authorship becomes anonymous;
/// see [`lemma_delete_user_tables`]).
pub fn delete_user(user_id: i64) -> (r: Vec<DeleteStep>)
    ensures
        r@ == seq![
            DeleteStep::ApiKeysOfUser(user_id),
            DeleteStep::SessionsOfUser(user_id),
            DeleteStep::MembershipsOfUser(user_id),
            DeleteStep::AnonymiseCommitsOfUser(user_id),
            DeleteStep::User(user_id),
        ],
{
    let r = vec![
        DeleteStep::ApiKeysOfUser(user_id),
        DeleteStep::SessionsOfUser(user_id),
        DeleteStep::MembershipsOfUser(user_id),
        DeleteStep::AnonymiseCommitsOfUser(user_id),
        DeleteStep::User(user_id),
    ];
    assert(r@ =~= seq![
        DeleteStep::ApiKeysOfUser(user_id),
        DeleteStep::SessionsOfUser(user_id),
        DeleteStep::MembershipsOfUser(user_id),
        DeleteStep::AnonymiseCommitsOfUser(user_id),
        DeleteStep::User(user_id),
    ]);
    r
}

/// A source's cascade is made of one block of eight steps per commit, in the
/// order the commits are listed; each block removes the commit's
/// constraints, comments, functions, types and files before the commit's
/// own row, then the symbols and targets left unused.
pub proof fn lemma_commit_blocks(commits: Seq<i64>)
    ensures
        commits_steps(commits).len() == 8 * commits.len(),
        forall|k: int, j: int|
            0 <= k < commits.len() && 0 <= j < 8 ==> #[trigger] commits_steps(commits)[8 * k + j]
                == commit_steps(commits[k])[j],
    decreases commits.len(),
{
    if commits.len() > 0 {
        let p = commits.drop_last();
        lemma_commit_blocks(p);
        let n = commits.len() - 1;
        assert forall|k: int, j: int|
            0 <= k < commits.len() && 0 <= j < 8 implies #[trigger] commits_steps(commits)[8 * k + j]
                == commit_steps(commits[k])[j] by {
            if k < n {
                assert(commits_steps(commits)[8 * k + j] == commits_steps(p)[8 * k + j]);
                assert(commits[k] == p[k]);
            } else {
                assert(commits_steps(commits)[8 * k + j] == commit_steps(commits.last())[8 * k + j - 8 * n]);
            }
        }
    }
}

// ---------------------------------------------------------------- what a cascade does to the tables

/// The rows that cascades touch, by the columns they read or write.
pub ghost struct Tables {
    /// `functions`: id, commit, symbol, target.
    pub functions: Set<(i64, i64, i64, i64)>,
    /// `function_constraints`: id, function.
    pub constraints: Set<(i64, i64)>,
    /// `function_comments`: id, function.
    pub comments: Set<(i64, i64)>,
    /// `types`: GUID, commit.
    pub types: Set<(Seq<char>, i64)>,
    /// `files`: id, commit.
    pub files: Set<(i64, i64)>,
    /// `commits`: id, source, author.
    pub commits: Set<(i64, Seq<char>, Option<i64>)>,
    pub symbols: Set<i64>,
    pub targets: Set<i64>,
    pub sources: Set<Seq<char>>,
    /// `source_users`: source, user.
    pub members: Set<(Seq<char>, i64)>,
    /// `source_tags`: source, tag.
    pub tags: Set<(Seq<char>, Seq<char>)>,
    pub users: Set<i64>,
    /// `api_keys`: id, user.
    pub api_keys: Set<(i64, i64)>,
    /// `sessions`: digest, user.
    pub sessions: Set<(Seq<char>, i64)>,
}

/// Function `id` is in `fs` and belongs to one of the commits `cs`.
pub open spec fn function_of(fs: Set<(i64, i64, i64, i64)>, id: i64, cs: Seq<i64>) -> bool {
    exists|f: (i64, i64, i64, i64)| #[trigger] fs.contains(f) && f.0 == id && cs.contains(f.1)
}

/// Some function of `fs` uses symbol `s`.
pub open spec fn symbol_used(fs: Set<(i64, i64, i64, i64)>, s: i64) -> bool {
    exists|f: (i64, i64, i64, i64)| #[trigger] fs.contains(f) && f.2 == s
}

/// Some function of `fs` uses target `g`.
pub open spec fn target_used(fs: Set<(i64, i64, i64, i64)>, g: i64) -> bool {
    exists|f: (i64, i64, i64, i64)| #[trigger] fs.contains(f) && f.3 == g
}

/// A commit row once user `u` is removed: anonymous if `u` wrote it.
pub open spec fn without_author(r: (i64, Seq<char>, Option<i64>), u: i64) -> (i64, Seq<char>, Option<i64>) {
    if r.2 == Some(u) {
        (r.0, r.1, None)
    } else {
        r
    }
}

/// What one statement does to the tables.
pub open spec fn apply_step(t: Tables, step: DeleteStep) -> Tables {
    match step {
        DeleteStep::ConstraintsOfCommit(c) => Tables {
            constraints: t.constraints.filter(|r: (i64, i64)| !function_of(t.functions, r.1, seq![c])),
            ..t
        },
        DeleteStep::CommentsOfCommit(c) => Tables {
            comments: t.comments.filter(|r: (i64, i64)| !function_of(t.functions, r.1, seq![c])),
            ..t
        },
        DeleteStep::FunctionsOfCommit(c) => Tables {
            functions: t.functions.filter(|f: (i64, i64, i64, i64)| f.1 != c),
            ..t
        },
        DeleteStep::TypesOfCommit(c) => Tables { types: t.types.filter(|r: (Seq<char>, i64)| r.1 != c), ..t },
        DeleteStep::FilesOfCommit(c) => Tables { files: t.files.filter(|r: (i64, i64)| r.1 != c), ..t },
        DeleteStep::Commit(c) => Tables {
            commits: t.commits.filter(|r: (i64, Seq<char>, Option<i64>)| r.0 != c),
            ..t
        },
        DeleteStep::UnusedSymbols => Tables {
            symbols: t.symbols.filter(|s: i64| symbol_used(t.functions, s)),
            ..t
        },
        DeleteStep::UnusedTargets => Tables {
            targets: t.targets.filter(|g: i64| target_used(t.functions, g)),
            ..t
        },
        DeleteStep::MembersOfSource(s) => Tables {
            members: t.members.filter(|r: (Seq<char>, i64)| r.0 != s@),
            ..t
        },
        DeleteStep::TagsOfSource(s) => Tables {
            tags: t.tags.filter(|r: (Seq<char>, Seq<char>)| r.0 != s@),
            ..t
        },
        DeleteStep::Source(s) => Tables { sources: t.sources.filter(|x: Seq<char>| x != s@), ..t },
        DeleteStep::ApiKeysOfUser(u) => Tables { api_keys: t.api_keys.filter(|r: (i64, i64)| r.1 != u), ..t },
        DeleteStep::SessionsOfUser(u) => Tables {
            sessions: t.sessions.filter(|r: (Seq<char>, i64)| r.1 != u),
            ..t
        },
        DeleteStep::MembershipsOfUser(u) => Tables {
            members: t.members.filter(|r: (Seq<char>, i64)| r.1 != u),
            ..t
        },
        DeleteStep::AnonymiseCommitsOfUser(u) => Tables {
            commits: t.commits.map(|r: (i64, Seq<char>, Option<i64>)| without_author(r, u)),
            ..t
        },
        DeleteStep::User(u) => Tables { users: t.users.filter(|x: i64| x != u), ..t },
    }
}

/// What a list of statements, run in order, does to the tables.
pub open spec fn apply_steps(t: Tables, steps: Seq<DeleteStep>) -> Tables
    decreases steps.len(),
{
    if steps.len() == 0 {
        t
    } else {
        apply_step(apply_steps(t, steps.drop_last()), steps.last())
    }
}

proof fn lemma_apply_append(t: Tables, a: Seq<DeleteStep>, b: Seq<DeleteStep>)
    ensures
        apply_steps(t, a + b) == apply_steps(apply_steps(t, a), b),
    decreases b.len(),
{
    if b.len() == 0 {
        assert(a + b =~= a);
    } else {
        lemma_apply_append(t, a, b.drop_last());
        assert((a + b).drop_last() =~= a + b.drop_last());
        assert((a + b).last() == b.last());
    }
}

proof fn lemma_apply_prefix(t: Tables, s: Seq<DeleteStep>, k: int)
    requires
        0 < k <= s.len(),
    ensures
        apply_steps(t, s.take(k)) == apply_step(apply_steps(t, s.take(k - 1)), s[k - 1]),
{
    assert(s.take(k).drop_last() =~= s.take(k - 1));
}

/// Deleting commit `c` leaves no function, constraint, comment, type, file
/// or row of `c`, and every row of other commits as it was; of the symbols
/// and targets, exactly those that a remaining function uses are kept; the
/// other tables are untouched.
pub proof fn lemma_delete_commit_tables(t: Tables, c: i64)
    ensures
        ({
            let r = apply_steps(t, commit_steps(c));
            &&& r.functions == t.functions.filter(|f: (i64, i64, i64, i64)| f.1 != c)
            &&& r.constraints == t.constraints.filter(|x: (i64, i64)| !function_of(t.functions, x.1, seq![c]))
            &&& r.comments == t.comments.filter(|x: (i64, i64)| !function_of(t.functions, x.1, seq![c]))
            &&& r.types == t.types.filter(|x: (Seq<char>, i64)| x.1 != c)
            &&& r.files == t.files.filter(|x: (i64, i64)| x.1 != c)
            &&& r.commits == t.commits.filter(|x: (i64, Seq<char>, Option<i64>)| x.0 != c)
            &&& r.symbols == t.symbols.filter(|s: i64| symbol_used(r.functions, s))
            &&& r.targets == t.targets.filter(|g: i64| target_used(r.functions, g))
            &&& r.sources == t.sources
            &&& r.members == t.members
            &&& r.tags == t.tags
            &&& r.users == t.users
            &&& r.api_keys == t.api_keys
            &&& r.sessions == t.sessions
        }),
{
    let s = commit_steps(c);
    lemma_apply_prefix(t, s, 1);
    lemma_apply_prefix(t, s, 2);
    lemma_apply_prefix(t, s, 3);
    lemma_apply_prefix(t, s, 4);
    lemma_apply_prefix(t, s, 5);
    lemma_apply_prefix(t, s, 6);
    lemma_apply_prefix(t, s, 7);
    lemma_apply_prefix(t, s, 8);
    assert(s.take(0) =~= Seq::<DeleteStep>::empty());
    assert(s.take(8) =~= s);
    let r = apply_steps(t, s);
    assert(r.functions =~= t.functions.filter(|f: (i64, i64, i64, i64)| f.1 != c));
}

/// Deleting user `u` leaves no API key, session, membership or row of `u`;
/// the commits `u` wrote stay, without an author; nothing else changes.
/// With no key of `u` left, [`crate::auth::check_api_key`] refuses every
/// token that was one of them.
pub proof fn lemma_delete_user_tables(t: Tables, u: i64)
    ensures
        ({
            let r = apply_steps(t, seq![
                DeleteStep::ApiKeysOfUser(u),
                DeleteStep::SessionsOfUser(u),
                DeleteStep::MembershipsOfUser(u),
                DeleteStep::AnonymiseCommitsOfUser(u),
                DeleteStep::User(u),
            ]);
            &&& r.api_keys == t.api_keys.filter(|x: (i64, i64)| x.1 != u)
            &&& r.sessions == t.sessions.filter(|x: (Seq<char>, i64)| x.1 != u)
            &&& r.members == t.members.filter(|x: (Seq<char>, i64)| x.1 != u)
            &&& r.users == t.users.filter(|x: i64| x != u)
            &&& r.commits == t.commits.map(|x: (i64, Seq<char>, Option<i64>)| without_author(x, u))
            &&& forall|x: (i64, Seq<char>, Option<i64>)| #[trigger] r.commits.contains(x) ==> x.2 != Some(u)
            &&& forall|x: (i64, Seq<char>, Option<i64>)| #[trigger] t.commits.contains(x) && x.2 == Some(u)
                ==> r.commits.contains((x.0, x.1, None))
            &&& forall|x: (i64, Seq<char>, Option<i64>)| #[trigger] t.commits.contains(x) && x.2 != Some(u)
                ==> r.commits.contains(x)
            &&& forall|k: (i64, i64)| #[trigger] r.api_keys.contains(k) ==> k.1 != u
            &&& r.functions == t.functions
            &&& r.constraints == t.constraints
            &&& r.comments == t.comments
            &&& r.types == t.types
            &&& r.files == t.files
            &&& r.symbols == t.symbols
            &&& r.targets == t.targets
            &&& r.sources == t.sources
            &&& r.tags == t.tags
        }),
{
    let s = seq![
        DeleteStep::ApiKeysOfUser(u),
        DeleteStep::SessionsOfUser(u),
        DeleteStep::MembershipsOfUser(u),
        DeleteStep::AnonymiseCommitsOfUser(u),
        DeleteStep::User(u),
    ];
    lemma_apply_prefix(t, s, 1);
    lemma_apply_prefix(t, s, 2);
    lemma_apply_prefix(t, s, 3);
    lemma_apply_prefix(t, s, 4);
    lemma_apply_prefix(t, s, 5);
    assert(s.take(0) =~= Seq::<DeleteStep>::empty());
    assert(s.take(5) =~= s);
    let r = apply_steps(t, s);
    let f = |x: (i64, Seq<char>, Option<i64>)| without_author(x, u);
    assert(r.commits == t.commits.map(f));
    assert forall|x: (i64, Seq<char>, Option<i64>)| #[trigger] r.commits.contains(x) implies x.2 != Some(u) by {
        let y = choose|y: (i64, Seq<char>, Option<i64>)| t.commits.contains(y) && f(y) == x;
    }
    assert forall|x: (i64, Seq<char>, Option<i64>)| #[trigger] t.commits.contains(x) && x.2 == Some(u) implies r.commits.contains(
        (x.0, x.1, None),
    ) by {
        assert(f(x) == (x.0, x.1, None::<i64>));
    }
    assert forall|x: (i64, Seq<char>, Option<i64>)| #[trigger] t.commits.contains(x) && x.2 != Some(u) implies r.commits.contains(x) by {
        assert(f(x) == x);
    }
}

/// Deleting the commits `cs` one after another leaves no function,
/// constraint, comment, type, file or row of any of them and every row of
/// other commits as it was; once at least one commit is deleted, exactly
/// the symbols and targets that a remaining function uses are kept.
pub proof fn lemma_delete_commits_tables(t: Tables, cs: Seq<i64>)
    ensures
        ({
            let r = apply_steps(t, commits_steps(cs));
            &&& r.functions == t.functions.filter(|f: (i64, i64, i64, i64)| !cs.contains(f.1))
            &&& r.constraints == t.constraints.filter(|x: (i64, i64)| !function_of(t.functions, x.1, cs))
            &&& r.comments == t.comments.filter(|x: (i64, i64)| !function_of(t.functions, x.1, cs))
            &&& r.types == t.types.filter(|x: (Seq<char>, i64)| !cs.contains(x.1))
            &&& r.files == t.files.filter(|x: (i64, i64)| !cs.contains(x.1))
            &&& r.commits == t.commits.filter(|x: (i64, Seq<char>, Option<i64>)| !cs.contains(x.0))
            &&& cs.len() > 0 ==> r.symbols == t.symbols.filter(|x: i64| symbol_used(r.functions, x))
            &&& cs.len() > 0 ==> r.targets == t.targets.filter(|g: i64| target_used(r.functions, g))
            &&& cs.len() == 0 ==> r.symbols == t.symbols && r.targets == t.targets
            &&& r.sources == t.sources
            &&& r.members == t.members
            &&& r.tags == t.tags
            &&& r.users == t.users
            &&& r.api_keys == t.api_keys
            &&& r.sessions == t.sessions
        }),
    decreases cs.len(),
{
    if cs.len() == 0 {
        assert(t.functions.filter(|f: (i64, i64, i64, i64)| !cs.contains(f.1)) =~= t.functions);
        assert(t.constraints.filter(|x: (i64, i64)| !function_of(t.functions, x.1, cs)) =~= t.constraints);
        assert(t.comments.filter(|x: (i64, i64)| !function_of(t.functions, x.1, cs)) =~= t.comments);
        assert(t.types.filter(|x: (Seq<char>, i64)| !cs.contains(x.1)) =~= t.types);
        assert(t.files.filter(|x: (i64, i64)| !cs.contains(x.1)) =~= t.files);
        assert(t.commits.filter(|x: (i64, Seq<char>, Option<i64>)| !cs.contains(x.0)) =~= t.commits);
    } else {
        let p = cs.drop_last();
        let c = cs.last();
        lemma_delete_commits_tables(t, p);
        assert(commits_steps(cs) == commits_steps(p) + commit_steps(c));
        lemma_apply_append(t, commits_steps(p), commit_steps(c));
        let q = apply_steps(t, commits_steps(p));
        lemma_delete_commit_tables(q, c);
        let r = apply_steps(t, commits_steps(cs));
        assert forall|x: i64| #[trigger] cs.contains(x) <==> (p.contains(x) || x == c) by {
            if cs.contains(x) {
                let i = choose|i: int| 0 <= i < cs.len() && cs[i] == x;
                if i < p.len() {
                    assert(p[i] == x);
                }
            }
            if p.contains(x) {
                let i = choose|i: int| 0 <= i < p.len() && p[i] == x;
                assert(cs[i] == x);
            }
            if x == c {
                assert(cs[cs.len() - 1] == x);
            }
        }
        assert(r.functions =~= t.functions.filter(|f: (i64, i64, i64, i64)| !cs.contains(f.1)));
        assert forall|x: (i64, i64)| #[trigger] r.constraints.contains(x) <==> t.constraints.contains(x)
            && !function_of(t.functions, x.1, cs) by {
            if t.constraints.contains(x) && !function_of(t.functions, x.1, cs) {
                if function_of(t.functions, x.1, p) {
                    let f = choose|f: (i64, i64, i64, i64)| #[trigger] t.functions.contains(f) && f.0 == x.1 && p.contains(f.1);
                    assert(cs.contains(f.1));
                }
                if function_of(q.functions, x.1, seq![c]) {
                    let f = choose|f: (i64, i64, i64, i64)| #[trigger] q.functions.contains(f) && f.0 == x.1 && seq![c].contains(f.1);
                    assert(seq![c][0] == c);
                    assert(f.1 == c);
                    assert(cs.contains(f.1));
                }
            }
            if r.constraints.contains(x) {
                if function_of(t.functions, x.1, cs) {
                    let f = choose|f: (i64, i64, i64, i64)| #[trigger] t.functions.contains(f) && f.0 == x.1 && cs.contains(f.1);
                    if !p.contains(f.1) {
                        assert(q.functions.contains(f));
                        assert(seq![c][0] == c);
                        assert(seq![c].contains(f.1));
                    }
                }
            }
        }
        assert(r.constraints =~= t.constraints.filter(|x: (i64, i64)| !function_of(t.functions, x.1, cs)));
        assert forall|x: (i64, i64)| #[trigger] r.comments.contains(x) <==> t.comments.contains(x)
            && !function_of(t.functions, x.1, cs) by {
            if t.comments.contains(x) && !function_of(t.functions, x.1, cs) {
                if function_of(t.functions, x.1, p) {
                    let f = choose|f: (i64, i64, i64, i64)| #[trigger] t.functions.contains(f) && f.0 == x.1 && p.contains(f.1);
                    assert(cs.contains(f.1));
                }
                if function_of(q.functions, x.1, seq![c]) {
                    let f = choose|f: (i64, i64, i64, i64)| #[trigger] q.functions.contains(f) && f.0 == x.1 && seq![c].contains(f.1);
                    assert(seq![c][0] == c);
                    assert(f.1 == c);
                    assert(cs.contains(f.1));
                }
            }
            if r.comments.contains(x) {
                if function_of(t.functions, x.1, cs) {
                    let f = choose|f: (i64, i64, i64, i64)| #[trigger] t.functions.contains(f) && f.0 == x.1 && cs.contains(f.1);
                    if !p.contains(f.1) {
                        assert(q.functions.contains(f));
                        assert(seq![c][0] == c);
                        assert(seq![c].contains(f.1));
                    }
                }
            }
        }
        assert(r.comments =~= t.comments.filter(|x: (i64, i64)| !function_of(t.functions, x.1, cs)));
        assert(r.types =~= t.types.filter(|x: (Seq<char>, i64)| !cs.contains(x.1)));
        assert(r.files =~= t.files.filter(|x: (i64, i64)| !cs.contains(x.1)));
        assert(r.commits =~= t.commits.filter(|x: (i64, Seq<char>, Option<i64>)| !cs.contains(x.0)));
        assert forall|x: i64| #[trigger] r.symbols.contains(x) <==> t.symbols.contains(x) && symbol_used(r.functions, x) by {
            if symbol_used(r.functions, x) {
                let f = choose|f: (i64, i64, i64, i64)| #[trigger] r.functions.contains(f) && f.2 == x;
                assert(q.functions.contains(f));
            }
        }
        assert(r.symbols =~= t.symbols.filter(|x: i64| symbol_used(r.functions, x)));
        assert forall|x: i64| #[trigger] r.targets.contains(x) <==> t.targets.contains(x) && target_used(r.functions, x) by {
            if target_used(r.functions, x) {
                let f = choose|f: (i64, i64, i64, i64)| #[trigger] r.functions.contains(f) && f.3 == x;
                assert(q.functions.contains(f));
            }
        }
        assert(r.targets =~= t.targets.filter(|g: i64| target_used(r.functions, g)));
    }
}

/// Deleting source `s` whose commits are `cs` removes each commit as
/// [`lemma_delete_commits_tables`] states, then every membership, tag and
/// row of `s`; other sources keep theirs.
pub proof fn lemma_delete_source_tables(t: Tables, s: String, cs: Seq<i64>)
    ensures
        ({
            let r = apply_steps(t, commits_steps(cs) + seq![
                DeleteStep::MembersOfSource(s),
                DeleteStep::TagsOfSource(s),
                DeleteStep::Source(s),
            ]);
            let q = apply_steps(t, commits_steps(cs));
            &&& r.functions == q.functions
            &&& r.constraints == q.constraints
            &&& r.comments == q.comments
            &&& r.types == q.types
            &&& r.files == q.files
            &&& r.commits == q.commits
            &&& r.symbols == q.symbols
            &&& r.targets == q.targets
            &&& r.members == t.members.filter(|x: (Seq<char>, i64)| x.0 != s@)
            &&& r.tags == t.tags.filter(|x: (Seq<char>, Seq<char>)| x.0 != s@)
            &&& r.sources == t.sources.filter(|x: Seq<char>| x != s@)
            &&& r.users == t.users
            &&& r.api_keys == t.api_keys
            &&& r.sessions == t.sessions
        }),
{
    let tail = seq![DeleteStep::MembersOfSource(s), DeleteStep::TagsOfSource(s), DeleteStep::Source(s)];
    lemma_delete_commits_tables(t, cs);
    lemma_apply_append(t, commits_steps(cs), tail);
    let q = apply_steps(t, commits_steps(cs));
    lemma_apply_prefix(q, tail, 1);
    lemma_apply_prefix(q, tail, 2);
    lemma_apply_prefix(q, tail, 3);
    assert(tail.take(0) =~= Seq::<DeleteStep>::empty());
    assert(tail.take(3) =~= tail);
}

} // verus!

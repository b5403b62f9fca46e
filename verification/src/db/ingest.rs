//! Turning an uploaded `.warp` file into rows: what is refused and what is
//! counted.

use vstd::prelude::*;

use crate::db::{class_name, hyphenated, modifier_name, symbol_class_name, symbol_modifier_name, uid, SymbolClass, SymbolModifiers};
use crate::error::{ApiError, ApiResult};
use crate::handlers::opt_text;

verus! {

/// What one push stored.
#[derive(Debug, Default, Clone, Copy)]
pub struct IngestSummary {
    pub commit_id: i64,
    /// Chunks in the file.
    pub chunks: usize,
    /// Functions inserted (every function of every signature chunk).
    pub functions: u64,
    /// Types of type chunks that were new to the server.
    pub types: u64,
}

impl IngestSummary {
    /// The count before any chunk is stored.
    pub fn start(commit_id: i64, chunks: usize) -> (r: Self)
        ensures
            r.commit_id == commit_id,
            r.chunks == chunks,
            r.functions == 0,
            r.types == 0,
    {
        IngestSummary { commit_id, chunks, functions: 0, types: 0 }
    }

    /// A signature chunk of `n` functions was stored.
    pub fn add_functions(&mut self, n: usize)
        requires
            old(self).functions + n <= u64::MAX,
        ensures
            final(self).functions == old(self).functions + n,
            final(self).types == old(self).types,
            final(self).commit_id == old(self).commit_id,
            final(self).chunks == old(self).chunks,
    {
        self.functions = self.functions + n as u64;
    }

    /// A type of a type chunk was stored; `inserted` tells whether its GUID
    /// was new (an existing GUID is left untouched and not counted).
    pub fn add_type(&mut self, inserted: bool)
        requires
            old(self).types < u64::MAX,
        ensures
            final(self).types == old(self).types + if inserted { 1int } else { 0int },
            final(self).functions == old(self).functions,
            final(self).commit_id == old(self).commit_id,
            final(self).chunks == old(self).chunks,
    {
        if inserted {
            self.types = self.types + 1;
        }
    }
}

/// An upload that does not parse as a WARP file is refused before anything
/// is stored.
pub fn require_warp_file<T>(parsed: Option<T>) -> (r: ApiResult<T>)
    ensures
        match parsed {
            Some(f) => r == Ok::<T, ApiError>(f),
            None => r matches Err(ApiError::BadRequest(m)) && m@ == "file is not a valid WARP file"@,
        },
{
    match parsed {
        Some(f) => Ok(f),
        None => Err(ApiError::bad_request("file is not a valid WARP file")),
    }
}

// ---------------------------------------------------------------- what a WARP file holds

/// A WARP type, as the store keeps it: its GUID, its name and its
/// flatbuffer bytes.
#[derive(Debug, Clone)]
pub struct TypeModel {
    pub guid: u128,
    pub name: Option<String>,
    pub data: Vec<u8>,
}

#[derive(Debug, Clone)]
pub struct SymbolModel {
    pub name: String,
    pub class: SymbolClass,
    pub modifiers: SymbolModifiers,
}

#[derive(Debug, Clone, Copy)]
pub struct ConstraintModel {
    pub guid: u128,
    pub offset: Option<i64>,
}

#[derive(Debug, Clone)]
pub struct CommentModel {
    pub text: String,
    pub offset: i64,
}

/// A WARP function: its GUID, symbol, optional type (with the GUID computed
/// for it), constraints, comments and flatbuffer bytes.
#[derive(Debug, Clone)]
pub struct FunctionModel {
    pub guid: u128,
    pub symbol: SymbolModel,
    pub ty: Option<TypeModel>,
    pub constraints: Vec<ConstraintModel>,
    pub comments: Vec<CommentModel>,
    pub data: Vec<u8>,
}

/// The row of the `symbols` table for a symbol.
#[derive(Debug, Clone)]
pub struct SymbolRow {
    pub name: String,
    pub class: &'static str,
    pub modifier: &'static str,
}

/// `r` is the row of symbol `s`.
pub open spec fn symbol_row_of(r: SymbolRow, s: SymbolModel) -> bool {
    &&& r.name@ == s.name@
    &&& r.class@ == class_name(s.class)
    &&& r.modifier@ == modifier_name(s.modifiers)
}

pub fn symbol_row(s: &SymbolModel) -> (r: SymbolRow)
    ensures
        symbol_row_of(r, *s),
{
    SymbolRow { name: s.name.clone(), class: symbol_class_name(s.class), modifier: symbol_modifier_name(s.modifiers) }
}

/// The row of the `types` table for a type pushed in commit `commit_id` of
/// source `source_id`; the type is keyed by the text of its GUID.
#[derive(Debug, Clone)]
pub struct TypeRow {
    pub id: String,
    pub name: Option<String>,
    pub source_id: String,
    pub commit_id: i64,
    pub data: Vec<u8>,
}

/// `r` is the row of type `t` pushed in commit `commit_id` of source
/// `source_id`.
pub open spec fn type_row_of(r: TypeRow, t: TypeModel, source_id: u128, commit_id: i64) -> bool {
    &&& r.id@ == hyphenated(t.guid)
    &&& opt_text(r.name) == opt_text(t.name)
    &&& r.source_id@ == hyphenated(source_id)
    &&& r.commit_id == commit_id
    &&& r.data@ == t.data@
}

pub fn type_row(t: &TypeModel, source_id: u128, commit_id: i64) -> (r: TypeRow)
    ensures
        type_row_of(r, *t, source_id, commit_id),
{
    let name = match &t.name {
        Some(n) => Some(n.clone()),
        None => None,
    };
    TypeRow { id: uid(t.guid), name, source_id: uid(source_id), commit_id, data: t.data.clone() }
}

/// The row of the `functions` table for a function of a signature chunk.
#[derive(Debug, Clone)]
pub struct FunctionRow {
    pub guid: String,
    pub commit_id: i64,
    pub source_id: String,
    pub target_id: i64,
    pub symbol_id: i64,
    /// The GUID text of the function's type, when it has one.
    pub type_id: Option<String>,
    pub data: Vec<u8>,
}

/// `r` is the row of function `f`.
pub open spec fn function_row_of(r: FunctionRow, f: FunctionModel, source_id: u128, commit_id: i64, target_id: i64, symbol_id: i64) -> bool {
    &&& r.guid@ == hyphenated(f.guid)
    &&& r.commit_id == commit_id
    &&& r.source_id@ == hyphenated(source_id)
    &&& r.target_id == target_id
    &&& r.symbol_id == symbol_id
    &&& match f.ty {
        Some(t) => r.type_id matches Some(x) && x@ == hyphenated(t.guid),
        None => r.type_id is None,
    }
    &&& r.data@ == f.data@
}

pub fn function_row(f: &FunctionModel, source_id: u128, commit_id: i64, target_id: i64, symbol_id: i64) -> (r: FunctionRow)
    ensures
        function_row_of(r, *f, source_id, commit_id, target_id, symbol_id),
{
    let type_id = match &f.ty {
        Some(t) => Some(uid(t.guid)),
        None => None,
    };
    FunctionRow {
        guid: uid(f.guid),
        commit_id,
        source_id: uid(source_id),
        target_id,
        symbol_id,
        type_id,
        data: f.data.clone(),
    }
}

/// The `function_constraints` rows of a stored function: one per
/// constraint, in order, as GUID text and offset.
pub fn constraint_rows(f: &FunctionModel) -> (r: Vec<(String, Option<i64>)>)
    ensures
        r@.len() == f.constraints@.len(),
        forall|i: int| 0 <= i < r@.len() ==> (#[trigger] r@[i]).0@ == hyphenated(f.constraints@[i].guid)
            && r@[i].1 == f.constraints@[i].offset,
{
    let mut r: Vec<(String, Option<i64>)> = Vec::new();
    let mut i: usize = 0;
    while i < f.constraints.len()
        invariant
            i <= f.constraints.len(),
            r@.len() == i,
            forall|j: int| 0 <= j < i ==> (#[trigger] r@[j]).0@ == hyphenated(f.constraints@[j].guid)
                && r@[j].1 == f.constraints@[j].offset,
        decreases f.constraints.len() - i,
    {
        let c = f.constraints[i];
        r.push((uid(c.guid), c.offset));
        i += 1;
    }
    r
}

// ---------------------------------------------------------------- storing a file, step by step

/// What a chunk of a WARP file holds.
#[derive(Debug, Clone)]
pub enum ChunkContent {
    Signature(Vec<FunctionModel>),
    Type(Vec<TypeModel>),
}

/// A chunk of an uploaded WARP file: its target and its content.
#[derive(Debug, Clone)]
pub struct ChunkModel {
    pub platform: Option<String>,
    pub architecture: Option<String>,
    pub content: ChunkContent,
}

pub open spec fn functions_of(c: ChunkModel) -> Seq<FunctionModel> {
    match c.content {
        ChunkContent::Signature(fs) => fs@,
        ChunkContent::Type(_) => Seq::empty(),
    }
}

pub open spec fn types_of(c: ChunkModel) -> Seq<TypeModel> {
    match c.content {
        ChunkContent::Signature(_) => Seq::empty(),
        ChunkContent::Type(ts) => ts@,
    }
}

/// Functions in the signature chunks of `cs`.
pub open spec fn function_total(cs: Seq<ChunkModel>) -> nat
    decreases cs.len(),
{
    if cs.len() == 0 {
        0
    } else {
        function_total(cs.drop_last()) + functions_of(cs.last()).len()
    }
}

/// Types in the type chunks of `cs`.
pub open spec fn type_total(cs: Seq<ChunkModel>) -> nat
    decreases cs.len(),
{
    if cs.len() == 0 {
        0
    } else {
        type_total(cs.drop_last()) + types_of(cs.last()).len()
    }
}

proof fn lemma_totals_grow(cs: Seq<ChunkModel>, i: int)
    requires
        0 <= i <= cs.len(),
    ensures
        function_total(cs.take(i)) <= function_total(cs),
        type_total(cs.take(i)) <= type_total(cs),
    decreases cs.len() - i,
{
    if i < cs.len() {
        lemma_totals_grow(cs, i + 1);
        assert(cs.take(i + 1).drop_last() =~= cs.take(i));
    } else {
        assert(cs.take(i) =~= cs);
    }
}

/// Where a push stands.
#[derive(Debug, Clone, Copy, PartialEq, Eq, Structural)]
pub enum Phase {
    /// The commit row is being inserted.
    Commit,
    /// The uploaded file is being kept beside the commit.
    File,
    /// The target of the current chunk is being found or created.
    Target,
    /// The symbol of the current function is being found or created.
    Symbol,
    /// The type of the current function is being stored.
    FunctionType,
    /// The current function is being inserted.
    Function,
    /// A constraint of the current function is being inserted.
    Constraints,
    /// A comment of the current function is being inserted.
    Comments,
    /// A type of the current type chunk is being stored.
    Types,
    /// Everything is stored.
    Finished,
}

/// Where a push stands within its file: the phase and the chunk, item
/// (function or type) and sub-item (constraint or comment) it is at.
pub ghost struct Cursor {
    pub phase: Phase,
    pub chunk: int,
    pub item: int,
    pub sub: int,
}

pub open spec fn cursor(phase: Phase, chunk: int, item: int, sub: int) -> Cursor {
    Cursor { phase, chunk, item, sub }
}

/// The target of chunk `c`, or the end once every chunk is stored.
pub open spec fn at_chunk(cs: Seq<ChunkModel>, c: int) -> Cursor {
    if c < cs.len() {
        cursor(Phase::Target, c, 0, 0)
    } else {
        cursor(Phase::Finished, cs.len() as int, 0, 0)
    }
}

/// The symbol of function `i` of chunk `c`; past the last function, the
/// next chunk.
pub open spec fn at_function(cs: Seq<ChunkModel>, c: int, i: int) -> Cursor {
    if i < functions_of(cs[c]).len() {
        cursor(Phase::Symbol, c, i, 0)
    } else {
        at_chunk(cs, c + 1)
    }
}

/// Comment `k` of function `i` of chunk `c`; past the last comment, the
/// next function.
pub open spec fn at_comment(cs: Seq<ChunkModel>, c: int, i: int, k: int) -> Cursor {
    if k < functions_of(cs[c])[i].comments@.len() {
        cursor(Phase::Comments, c, i, k)
    } else {
        at_function(cs, c, i + 1)
    }
}

/// Constraint `k` of function `i` of chunk `c`; past the last constraint,
/// the function's first comment.
pub open spec fn at_constraint(cs: Seq<ChunkModel>, c: int, i: int, k: int) -> Cursor {
    if k < functions_of(cs[c])[i].constraints@.len() {
        cursor(Phase::Constraints, c, i, k)
    } else {
        at_comment(cs, c, i, 0)
    }
}

/// Type `i` of type chunk `c`; past the last type, the next chunk.
pub open spec fn at_type(cs: Seq<ChunkModel>, c: int, i: int) -> Cursor {
    if i < types_of(cs[c]).len() {
        cursor(Phase::Types, c, i, 0)
    } else {
        at_chunk(cs, c + 1)
    }
}

/// Where a push goes once the statement at `at` is answered: the file
/// after the commit, then chunk by chunk its target and either each function
/// (symbol, type if it has one, row, each constraint, each comment) or each
/// type, in file order, and finally the end.
pub open spec fn next_cursor(cs: Seq<ChunkModel>, at: Cursor) -> Cursor {
    let (c, i, k) = (at.chunk, at.item, at.sub);
    match at.phase {
        Phase::Commit => cursor(Phase::File, 0, 0, 0),
        Phase::File => at_chunk(cs, 0),
        Phase::Target => if cs[c].content is Signature {
            at_function(cs, c, 0)
        } else {
            at_type(cs, c, 0)
        },
        Phase::Symbol => if functions_of(cs[c])[i].ty is Some {
            cursor(Phase::FunctionType, c, i, 0)
        } else {
            cursor(Phase::Function, c, i, 0)
        },
        Phase::FunctionType => cursor(Phase::Function, c, i, 0),
        Phase::Function => at_constraint(cs, c, i, 0),
        Phase::Constraints => at_constraint(cs, c, i, k + 1),
        Phase::Comments => at_comment(cs, c, i, k + 1),
        Phase::Types => at_type(cs, c, i + 1),
        Phase::Finished => at,
    }
}

/// The result of the statement a push asked for.
#[derive(Debug, Clone, Copy)]
pub enum IngestEvent {
    CommitCreated(i64),
    FileStored,
    TargetId(i64),
    SymbolId(i64),
    /// A type was stored; whether its GUID was new.
    TypeStored(bool),
    FunctionId(i64),
    RowStored,
}

/// What an upload says of itself: who pushes it, under which name and
/// description, and the file's bytes.
#[derive(Debug, Clone)]
pub struct Upload {
    pub user_id: i64,
    pub name: String,
    pub description: Option<String>,
    pub file: Vec<u8>,
}

/// The row of the `commits` table for a push.
#[derive(Debug, Clone)]
pub struct CommitRow {
    pub source_id: String,
    pub user_id: i64,
    pub name: String,
    pub description: Option<String>,
}

/// The row of the `files` table for a push.
#[derive(Debug, Clone)]
pub struct FileRow {
    pub commit_id: i64,
    pub source_id: String,
    pub name: String,
    pub file: Vec<u8>,
}

/// The statement a push asks for next.
#[derive(Debug, Clone)]
pub enum IngestAction {
    InsertCommit(CommitRow),
    StoreFile(FileRow),
    UpsertTarget { platform: String, arch: String },
    UpsertSymbol(SymbolRow),
    UpsertType(TypeRow),
    InsertFunction(FunctionRow),
    InsertConstraint { function_id: i64, guid: String, offset: Option<i64> },
    InsertComment { function_id: i64, text: String, offset: i64 },
    /// All stored: commit the transaction.
    Finish(IngestSummary),
}

/// Storing a parsed WARP file under a new commit of `source_id`: the
/// commit, the file, then each chunk's target followed by its functions
/// (symbol, type, row, constraints, comments) or its types.
#[derive(Debug, Clone)]
pub struct Ingest {
    pub chunks: Vec<ChunkModel>,
    pub source_id: u128,
    pub upload: Upload,
    pub summary: IngestSummary,
    pub phase: Phase,
    pub chunk: usize,
    /// The function or type within the current chunk.
    pub item: usize,
    /// The constraint or comment within the current function.
    pub sub: usize,
    pub target_id: i64,
    pub symbol_id: i64,
    pub function_id: i64,
}

impl Ingest {
    /// The position the state is at; item and sub-item count only in the
    /// phases that use them.
    pub open spec fn at(self) -> Cursor {
        let item = match self.phase {
            Phase::Symbol | Phase::FunctionType | Phase::Function | Phase::Constraints | Phase::Comments
            | Phase::Types => self.item as int,
            _ => 0,
        };
        let sub = match self.phase {
            Phase::Constraints | Phase::Comments => self.sub as int,
            _ => 0,
        };
        cursor(self.phase, self.chunk as int, item, sub)
    }

    pub open spec fn function(self) -> FunctionModel {
        functions_of(self.chunks@[self.chunk as int])[self.item as int]
    }

    pub open spec fn type_entry(self) -> TypeModel {
        types_of(self.chunks@[self.chunk as int])[self.item as int]
    }

    /// The cursor points at something to store, and the counts cover the
    /// chunks before it.
    pub open spec fn wf(self) -> bool {
        let cs = self.chunks@;
        &&& function_total(cs) <= u64::MAX
        &&& type_total(cs) <= u64::MAX
        &&& self.chunk <= cs.len()
        &&& self.summary.chunks == cs.len()
        &&& self.summary.functions == function_total(cs.take(self.chunk as int))
        &&& self.summary.types <= type_total(cs.take(self.chunk as int)) + (if self.phase == Phase::Types {
            self.item as int
        } else {
            0
        })
        &&& (self.phase == Phase::Commit || self.phase == Phase::File) ==> self.chunk == 0
        &&& self.phase == Phase::Finished ==> self.chunk == cs.len()
        &&& !(self.phase == Phase::Commit || self.phase == Phase::File || self.phase == Phase::Finished) ==> self.chunk
            < cs.len()
        &&& (self.phase == Phase::Symbol || self.phase == Phase::FunctionType || self.phase == Phase::Function
            || self.phase == Phase::Constraints || self.phase == Phase::Comments) ==> self.item < functions_of(
            cs[self.chunk as int],
        ).len()
        &&& self.phase == Phase::FunctionType ==> self.function().ty is Some
        &&& self.phase == Phase::Constraints ==> self.sub < self.function().constraints@.len()
        &&& self.phase == Phase::Comments ==> self.sub < self.function().comments@.len()
        &&& self.phase == Phase::Types ==> self.item < types_of(cs[self.chunk as int]).len()
    }

    /// `a` is the statement that the state asks for.
    pub open spec fn pending(self, a: IngestAction) -> bool {
        let commit_id = self.summary.commit_id;
        match self.phase {
            Phase::Commit => a matches IngestAction::InsertCommit(r) && {
                &&& r.source_id@ == hyphenated(self.source_id)
                &&& r.user_id == self.upload.user_id
                &&& r.name@ == self.upload.name@
                &&& opt_text(r.description) == opt_text(self.upload.description)
            },
            Phase::File => a matches IngestAction::StoreFile(f) && {
                &&& f.commit_id == commit_id
                &&& f.source_id@ == hyphenated(self.source_id)
                &&& f.name@ == self.upload.name@
                &&& f.file@ == self.upload.file@
            },
            Phase::Target => a matches IngestAction::UpsertTarget { platform, arch } && {
                let c = self.chunks@[self.chunk as int];
                &&& platform@ == match c.platform { Some(p) => p@, None => Seq::empty() }
                &&& arch@ == match c.architecture { Some(x) => x@, None => Seq::empty() }
            },
            Phase::Symbol => a matches IngestAction::UpsertSymbol(r) && symbol_row_of(r, self.function().symbol),
            Phase::FunctionType => a matches IngestAction::UpsertType(r) && type_row_of(
                r,
                self.function().ty->0,
                self.source_id,
                commit_id,
            ),
            Phase::Function => a matches IngestAction::InsertFunction(r) && function_row_of(
                r,
                self.function(),
                self.source_id,
                commit_id,
                self.target_id,
                self.symbol_id,
            ),
            Phase::Constraints => a matches IngestAction::InsertConstraint { function_id, guid, offset } && {
                let c = self.function().constraints@[self.sub as int];
                &&& function_id == self.function_id
                &&& guid@ == hyphenated(c.guid)
                &&& offset == c.offset
            },
            Phase::Comments => a matches IngestAction::InsertComment { function_id, text, offset } && {
                let c = self.function().comments@[self.sub as int];
                &&& function_id == self.function_id
                &&& text@ == c.text@
                &&& offset == c.offset
            },
            Phase::Types => a matches IngestAction::UpsertType(r) && type_row_of(
                r,
                self.type_entry(),
                self.source_id,
                commit_id,
            ),
            Phase::Finished => a == IngestAction::Finish(self.summary),
        }
    }

    /// `e` answers the statement that the state asked for.
    pub open spec fn expects(self, e: IngestEvent) -> bool {
        match self.phase {
            Phase::Commit => e is CommitCreated,
            Phase::File => e is FileStored,
            Phase::Target => e is TargetId,
            Phase::Symbol => e is SymbolId,
            Phase::FunctionType => e is TypeStored,
            Phase::Function => e is FunctionId,
            Phase::Constraints => e is RowStored,
            Phase::Comments => e is RowStored,
            Phase::Types => e is TypeStored,
            Phase::Finished => false,
        }
    }

    /// The start of a push of `chunks` into source `source_id`: the commit
    /// is inserted first.
    pub fn new(chunks: Vec<ChunkModel>, source_id: u128, upload: Upload) -> (r: (Ingest, IngestAction))
        requires
            function_total(chunks@) <= u64::MAX,
            type_total(chunks@) <= u64::MAX,
        ensures
            r.0.wf(),
            r.0.pending(r.1),
            r.0.chunks@ == chunks@,
            r.0.source_id == source_id,
            r.0.upload == upload,
            r.0.phase == Phase::Commit,
    {
        let n = chunks.len();
        assert(chunks@.take(0) =~= Seq::<ChunkModel>::empty());
        let row = CommitRow {
            source_id: uid(source_id),
            user_id: upload.user_id,
            name: upload.name.clone(),
            description: match &upload.description {
                Some(d) => Some(d.clone()),
                None => None,
            },
        };
        let ingest = Ingest {
            chunks,
            source_id,
            upload,
            summary: IngestSummary::start(0, n),
            phase: Phase::Commit,
            chunk: 0,
            item: 0,
            sub: 0,
            target_id: 0,
            symbol_id: 0,
            function_id: 0,
        };
        (ingest, IngestAction::InsertCommit(row))
    }

    /// Moves on to chunk `self.chunk` (or the end).
    fn open_chunk(&mut self) -> (a: IngestAction)
        requires
            old(self).chunk <= old(self).chunks@.len(),
            function_total(old(self).chunks@) <= u64::MAX,
            type_total(old(self).chunks@) <= u64::MAX,
            old(self).summary.chunks == old(self).chunks@.len(),
            old(self).summary.functions == function_total(old(self).chunks@.take(old(self).chunk as int)),
            old(self).summary.types <= type_total(old(self).chunks@.take(old(self).chunk as int)),
        ensures
            final(self).wf(),
            final(self).pending(a),
            final(self).chunks == old(self).chunks,
            final(self).source_id == old(self).source_id,
            final(self).chunk == old(self).chunk,
            final(self).summary == old(self).summary,
            final(self).at() == at_chunk(old(self).chunks@, old(self).chunk as int),
            final(self).summary.types == old(self).summary.types,
            final(self).upload == old(self).upload,
            final(self).target_id == old(self).target_id,
            final(self).symbol_id == old(self).symbol_id,
            final(self).function_id == old(self).function_id,
    {
        if self.chunk < self.chunks.len() {
            self.phase = Phase::Target;
            let c = &self.chunks[self.chunk];
            let platform = match &c.platform {
                Some(p) => p.clone(),
                None => String::new(),
            };
            let arch = match &c.architecture {
                Some(x) => x.clone(),
                None => String::new(),
            };
            IngestAction::UpsertTarget { platform, arch }
        } else {
            self.phase = Phase::Finished;
            IngestAction::Finish(self.summary)
        }
    }

    /// The current chunk is stored; its functions are counted.
    fn close_chunk(&mut self) -> (a: IngestAction)
        requires
            old(self).chunk < old(self).chunks@.len(),
            function_total(old(self).chunks@) <= u64::MAX,
            type_total(old(self).chunks@) <= u64::MAX,
            old(self).summary.chunks == old(self).chunks@.len(),
            old(self).summary.functions == function_total(old(self).chunks@.take(old(self).chunk as int)),
            old(self).summary.types <= type_total(old(self).chunks@.take(old(self).chunk + 1)),
        ensures
            final(self).wf(),
            final(self).pending(a),
            final(self).chunks == old(self).chunks,
            final(self).source_id == old(self).source_id,
            final(self).summary.commit_id == old(self).summary.commit_id,
            final(self).at() == at_chunk(old(self).chunks@, old(self).chunk + 1),
            final(self).summary.types == old(self).summary.types,
            final(self).upload == old(self).upload,
            final(self).target_id == old(self).target_id,
            final(self).symbol_id == old(self).symbol_id,
            final(self).function_id == old(self).function_id,
    {
        let ghost cs = self.chunks@;
        let ghost k = self.chunk as int;
        proof {
            assert(cs.take(k + 1).drop_last() =~= cs.take(k));
            lemma_totals_grow(cs, k + 1);
        }
        let n = match &self.chunks[self.chunk].content {
            ChunkContent::Signature(fs) => fs.len(),
            ChunkContent::Type(_) => 0,
        };
        assert(n == functions_of(cs[k]).len());
        self.summary.add_functions(n);
        self.chunk = self.chunk + 1;
        self.open_chunk()
    }

    /// Moves on to function `self.item` of the current chunk, or closes the
    /// chunk when there is none.
    fn open_function(&mut self) -> (a: IngestAction)
        requires
            old(self).chunk < old(self).chunks@.len(),
            old(self).chunks@[old(self).chunk as int].content is Signature,
            old(self).item <= functions_of(old(self).chunks@[old(self).chunk as int]).len(),
            function_total(old(self).chunks@) <= u64::MAX,
            type_total(old(self).chunks@) <= u64::MAX,
            old(self).summary.chunks == old(self).chunks@.len(),
            old(self).summary.functions == function_total(old(self).chunks@.take(old(self).chunk as int)),
            old(self).summary.types <= type_total(old(self).chunks@.take(old(self).chunk as int)),
        ensures
            final(self).wf(),
            final(self).pending(a),
            final(self).chunks == old(self).chunks,
            final(self).source_id == old(self).source_id,
            final(self).summary.commit_id == old(self).summary.commit_id,
            final(self).at() == at_function(old(self).chunks@, old(self).chunk as int, old(self).item as int),
            final(self).summary.types == old(self).summary.types,
            final(self).upload == old(self).upload,
            final(self).target_id == old(self).target_id,
            final(self).symbol_id == old(self).symbol_id,
            final(self).function_id == old(self).function_id,
    {
        proof {
            assert(self.chunks@.take(self.chunk + 1).drop_last() =~= self.chunks@.take(self.chunk as int));
        }
        let fs = match &self.chunks[self.chunk].content {
            ChunkContent::Signature(fs) => fs,
            ChunkContent::Type(_) => unreached(),
        };
        if self.item < fs.len() {
            let row = symbol_row(&fs[self.item].symbol);
            self.phase = Phase::Symbol;
            self.sub = 0;
            IngestAction::UpsertSymbol(row)
        } else {
            self.close_chunk()
        }
    }

    /// The rows of the current function are stored from comment `self.sub`
    /// on.
    fn open_comments(&mut self) -> (a: IngestAction)
        requires
            old(self).chunk < old(self).chunks@.len(),
            old(self).chunks@[old(self).chunk as int].content is Signature,
            old(self).item < functions_of(old(self).chunks@[old(self).chunk as int]).len(),
            old(self).sub <= old(self).function().comments@.len(),
            function_total(old(self).chunks@) <= u64::MAX,
            type_total(old(self).chunks@) <= u64::MAX,
            old(self).summary.chunks == old(self).chunks@.len(),
            old(self).summary.functions == function_total(old(self).chunks@.take(old(self).chunk as int)),
            old(self).summary.types <= type_total(old(self).chunks@.take(old(self).chunk as int)),
        ensures
            final(self).wf(),
            final(self).pending(a),
            final(self).chunks == old(self).chunks,
            final(self).source_id == old(self).source_id,
            final(self).summary.commit_id == old(self).summary.commit_id,
            final(self).at() == at_comment(old(self).chunks@, old(self).chunk as int, old(self).item as int, old(self).sub as int),
            final(self).summary.types == old(self).summary.types,
            final(self).upload == old(self).upload,
            final(self).target_id == old(self).target_id,
            final(self).symbol_id == old(self).symbol_id,
            final(self).function_id == old(self).function_id,
    {
        let fs = match &self.chunks[self.chunk].content {
            ChunkContent::Signature(fs) => fs,
            ChunkContent::Type(_) => unreached(),
        };
        let n = fs.len();
        let f = &fs[self.item];
        if self.sub < f.comments.len() {
            let c = &f.comments[self.sub];
            self.phase = Phase::Comments;
            IngestAction::InsertComment { function_id: self.function_id, text: c.text.clone(), offset: c.offset }
        } else {
            assert(self.item < n);
            self.item = self.item + 1;
            self.open_function()
        }
    }

    /// The constraints of the current function are stored from `self.sub`
    /// on, then its comments.
    fn open_constraints(&mut self) -> (a: IngestAction)
        requires
            old(self).chunk < old(self).chunks@.len(),
            old(self).chunks@[old(self).chunk as int].content is Signature,
            old(self).item < functions_of(old(self).chunks@[old(self).chunk as int]).len(),
            old(self).sub <= old(self).function().constraints@.len(),
            function_total(old(self).chunks@) <= u64::MAX,
            type_total(old(self).chunks@) <= u64::MAX,
            old(self).summary.chunks == old(self).chunks@.len(),
            old(self).summary.functions == function_total(old(self).chunks@.take(old(self).chunk as int)),
            old(self).summary.types <= type_total(old(self).chunks@.take(old(self).chunk as int)),
        ensures
            final(self).wf(),
            final(self).pending(a),
            final(self).chunks == old(self).chunks,
            final(self).source_id == old(self).source_id,
            final(self).summary.commit_id == old(self).summary.commit_id,
            final(self).at() == at_constraint(old(self).chunks@, old(self).chunk as int, old(self).item as int, old(self).sub as int),
            final(self).summary.types == old(self).summary.types,
            final(self).upload == old(self).upload,
            final(self).target_id == old(self).target_id,
            final(self).symbol_id == old(self).symbol_id,
            final(self).function_id == old(self).function_id,
    {
        let fs = match &self.chunks[self.chunk].content {
            ChunkContent::Signature(fs) => fs,
            ChunkContent::Type(_) => unreached(),
        };
        let f = &fs[self.item];
        if self.sub < f.constraints.len() {
            let c = f.constraints[self.sub];
            self.phase = Phase::Constraints;
            IngestAction::InsertConstraint { function_id: self.function_id, guid: uid(c.guid), offset: c.offset }
        } else {
            self.sub = 0;
            self.open_comments()
        }
    }

    /// Moves on to type `self.item` of the current type chunk, or closes the
    /// chunk when there is none.
    fn open_type(&mut self) -> (a: IngestAction)
        requires
            old(self).chunk < old(self).chunks@.len(),
            old(self).chunks@[old(self).chunk as int].content is Type,
            old(self).item <= types_of(old(self).chunks@[old(self).chunk as int]).len(),
            function_total(old(self).chunks@) <= u64::MAX,
            type_total(old(self).chunks@) <= u64::MAX,
            old(self).summary.chunks == old(self).chunks@.len(),
            old(self).summary.functions == function_total(old(self).chunks@.take(old(self).chunk as int)),
            old(self).summary.types <= type_total(old(self).chunks@.take(old(self).chunk as int)) + old(self).item,
        ensures
            final(self).wf(),
            final(self).pending(a),
            final(self).chunks == old(self).chunks,
            final(self).source_id == old(self).source_id,
            final(self).summary.commit_id == old(self).summary.commit_id,
            final(self).at() == at_type(old(self).chunks@, old(self).chunk as int, old(self).item as int),
            final(self).summary.types == old(self).summary.types,
            final(self).upload == old(self).upload,
            final(self).target_id == old(self).target_id,
            final(self).symbol_id == old(self).symbol_id,
            final(self).function_id == old(self).function_id,
    {
        proof {
            assert(self.chunks@.take(self.chunk + 1).drop_last() =~= self.chunks@.take(self.chunk as int));
        }
        let ts = match &self.chunks[self.chunk].content {
            ChunkContent::Type(ts) => ts,
            ChunkContent::Signature(_) => unreached(),
        };
        if self.item < ts.len() {
            let row = type_row(&ts[self.item], self.source_id, self.summary.commit_id);
            self.phase = Phase::Types;
            IngestAction::UpsertType(row)
        } else {
            self.close_chunk()
        }
    }

    /// The next statement, once `event` answers the pending one.
    pub fn step(&mut self, event: IngestEvent) -> (a: IngestAction)
        requires
            old(self).wf(),
            old(self).expects(event),
        ensures
            final(self).wf(),
            final(self).pending(a),
            final(self).chunks == old(self).chunks,
            final(self).source_id == old(self).source_id,
            final(self).upload == old(self).upload,
            old(self).phase != Phase::Commit ==> final(self).summary.commit_id == old(self).summary.commit_id,
            final(self).at() == next_cursor(old(self).chunks@, old(self).at()),
            final(self).summary.types == old(self).summary.types + if old(self).phase == Phase::Types && event
                == IngestEvent::TypeStored(true) {
                1int
            } else {
                0int
            },
            match event {
                IngestEvent::CommitCreated(id) => final(self).summary.commit_id == id,
                IngestEvent::TargetId(id) => final(self).target_id == id,
                IngestEvent::SymbolId(id) => final(self).symbol_id == id,
                IngestEvent::FunctionId(id) => final(self).function_id == id,
                _ => true,
            },
            !(event is TargetId) ==> final(self).target_id == old(self).target_id,
            !(event is SymbolId) ==> final(self).symbol_id == old(self).symbol_id,
            !(event is FunctionId) ==> final(self).function_id == old(self).function_id,
    {
        match event {
            IngestEvent::CommitCreated(id) => {
                self.summary.commit_id = id;
                self.phase = Phase::File;
                let file = self.upload.file.clone();
                assert(file@ =~= self.upload.file@);
                IngestAction::StoreFile(FileRow {
                    commit_id: id,
                    source_id: uid(self.source_id),
                    name: self.upload.name.clone(),
                    file,
                })
            },
            IngestEvent::FileStored => self.open_chunk(),
            IngestEvent::TargetId(id) => {
                self.target_id = id;
                self.item = 0;
                proof {
                    assert(self.chunks@.take(self.chunk + 1).drop_last() =~= self.chunks@.take(self.chunk as int));
                }
                let is_signature = match &self.chunks[self.chunk].content {
                    ChunkContent::Signature(_) => true,
                    ChunkContent::Type(_) => false,
                };
                if is_signature {
                    self.open_function()
                } else {
                    self.open_type()
                }
            },
            IngestEvent::SymbolId(id) => {
                self.symbol_id = id;
                let fs = match &self.chunks[self.chunk].content {
                    ChunkContent::Signature(fs) => fs,
                    ChunkContent::Type(_) => unreached(),
                };
                let f = &fs[self.item];
                match &f.ty {
                    Some(t) => {
                        let row = type_row(t, self.source_id, self.summary.commit_id);
                        self.phase = Phase::FunctionType;
                        IngestAction::UpsertType(row)
                    },
                    None => {
                        let row = function_row(f, self.source_id, self.summary.commit_id, self.target_id, id);
                        self.phase = Phase::Function;
                        IngestAction::InsertFunction(row)
                    },
                }
            },
            IngestEvent::TypeStored(inserted) => {
                if self.phase == Phase::FunctionType {
                    let fs = match &self.chunks[self.chunk].content {
                        ChunkContent::Signature(fs) => fs,
                        ChunkContent::Type(_) => unreached(),
                    };
                    let row = function_row(
                        &fs[self.item],
                        self.source_id,
                        self.summary.commit_id,
                        self.target_id,
                        self.symbol_id,
                    );
                    self.phase = Phase::Function;
                    IngestAction::InsertFunction(row)
                } else {
                    proof {
                        lemma_totals_grow(self.chunks@, self.chunk + 1);
                        assert(self.chunks@.take(self.chunk + 1).drop_last() =~= self.chunks@.take(self.chunk as int));
                    }
                    let n = match &self.chunks[self.chunk].content {
                        ChunkContent::Type(ts) => ts.len(),
                        ChunkContent::Signature(_) => unreached(),
                    };
                    assert(self.item < n);
                    self.summary.add_type(inserted);
                    self.item = self.item + 1;
                    self.open_type()
                }
            },
            IngestEvent::FunctionId(id) => {
                self.function_id = id;
                self.sub = 0;
                self.open_constraints()
            },
            IngestEvent::RowStored => {
                let n = match &self.chunks[self.chunk].content {
                    ChunkContent::Signature(fs) => {
                        let f = &fs[self.item];
                        if self.phase == Phase::Constraints {
                            f.constraints.len()
                        } else {
                            f.comments.len()
                        }
                    },
                    ChunkContent::Type(_) => unreached(),
                };
                assert(self.sub < n);
                self.sub = self.sub + 1;
                if self.phase == Phase::Constraints {
                    self.open_constraints()
                } else {
                    self.open_comments()
                }
            },
        }
    }
}

/// A finished push has counted every chunk of the file and every function
/// of its signature chunks, and no more types than its type chunks hold.
pub proof fn lemma_finished_counts(ingest: Ingest)
    requires
        ingest.wf(),
        ingest.phase == Phase::Finished,
    ensures
        ingest.summary.chunks == ingest.chunks@.len(),
        ingest.summary.functions == function_total(ingest.chunks@),
        ingest.summary.types <= type_total(ingest.chunks@),
{
    assert(ingest.chunks@.take(ingest.chunks@.len() as int) =~= ingest.chunks@);
}

// ---------------------------------------------------------------- what a push adds to the shared tables

/// The keys of the tables that pushes share: targets by platform and
/// architecture, symbols by name, class and modifier, types by GUID text.
pub ghost struct SharedKeys {
    pub targets: Set<(Seq<char>, Seq<char>)>,
    pub symbols: Set<(Seq<char>, Seq<char>, Seq<char>)>,
    pub types: Set<Seq<char>>,
}

pub open spec fn text_or_empty(o: Option<String>) -> Seq<char> {
    match o {
        Some(p) => p@,
        None => Seq::empty(),
    }
}

/// The key of a chunk's target.
pub open spec fn target_key(c: ChunkModel) -> (Seq<char>, Seq<char>) {
    (text_or_empty(c.platform), text_or_empty(c.architecture))
}

/// The key of a symbol.
pub open spec fn symbol_key(s: SymbolModel) -> (Seq<char>, Seq<char>, Seq<char>) {
    (s.name@, class_name(s.class), modifier_name(s.modifiers))
}

/// The tables already hold every target, symbol and type of the file `cs`.
pub open spec fn holds_file(k: SharedKeys, cs: Seq<ChunkModel>) -> bool {
    &&& forall|c: int| 0 <= c < cs.len() ==> k.targets.contains(#[trigger] target_key(cs[c]))
    &&& forall|c: int, i: int|
        0 <= c < cs.len() && 0 <= i < functions_of(cs[c]).len() ==> k.symbols.contains(
            symbol_key(#[trigger] functions_of(cs[c])[i].symbol),
        ) && (functions_of(cs[c])[i].ty matches Some(t) ==> k.types.contains(hyphenated(t.guid)))
    &&& forall|c: int, i: int|
        0 <= c < cs.len() && 0 <= i < types_of(cs[c]).len() ==> k.types.contains(
            hyphenated(#[trigger] types_of(cs[c])[i].guid),
        )
}

/// What an upsert does to the shared keys: its key is there afterwards
/// (found or inserted); every other statement leaves them alone.
pub open spec fn upsert_keys(k: SharedKeys, a: IngestAction) -> SharedKeys {
    match a {
        IngestAction::UpsertTarget { platform, arch } => SharedKeys { targets: k.targets.insert((platform@, arch@)), ..k },
        IngestAction::UpsertSymbol(r) => SharedKeys { symbols: k.symbols.insert((r.name@, r.class@, r.modifier@)), ..k },
        IngestAction::UpsertType(r) => SharedKeys { types: k.types.insert(r.id@), ..k },
        _ => k,
    }
}

/// A type upsert whose GUID the tables do not hold yet: the store answers
/// `TypeStored(true)` exactly then.
pub open spec fn type_is_new(k: SharedKeys, a: IngestAction) -> bool {
    a matches IngestAction::UpsertType(r) && !k.types.contains(r.id@)
}

/// Each statement of a push adds to the shared tables only the key of the
/// item it stores: the chunk's target, the function's symbol or type, or
/// the type of a type chunk.
pub proof fn lemma_push_adds_its_keys(ingest: Ingest, a: IngestAction, k: SharedKeys)
    requires
        ingest.wf(),
        ingest.pending(a),
    ensures
        ({
            let r = upsert_keys(k, a);
            let cs = ingest.chunks@;
            match ingest.phase {
                Phase::Target => r == SharedKeys {
                    targets: k.targets.insert(target_key(cs[ingest.chunk as int])),
                    ..k
                },
                Phase::Symbol => r == SharedKeys { symbols: k.symbols.insert(symbol_key(ingest.function().symbol)), ..k },
                Phase::FunctionType => r == SharedKeys {
                    types: k.types.insert(hyphenated(ingest.function().ty->0.guid)),
                    ..k
                },
                Phase::Types => r == SharedKeys { types: k.types.insert(hyphenated(ingest.type_entry().guid)), ..k },
                _ => r == k,
            }
        }),
{
}

/// Pushing a file whose targets, symbols and types are all stored already
/// (for one, a second push of the same file) adds none of them: every
/// statement leaves the shared tables as they are, and no type is new, so
/// the push counts no type.
pub proof fn lemma_repush_adds_nothing(ingest: Ingest, a: IngestAction, k: SharedKeys)
    requires
        ingest.wf(),
        ingest.pending(a),
        holds_file(k, ingest.chunks@),
    ensures
        upsert_keys(k, a) == k,
        !type_is_new(k, a),
{
    let cs = ingest.chunks@;
    let c = ingest.chunk as int;
    let i = ingest.item as int;
    match ingest.phase {
        Phase::Target => {
            assert(k.targets.contains(target_key(cs[c])));
            assert(upsert_keys(k, a).targets =~= k.targets);
        },
        Phase::Symbol => {
            assert(k.symbols.contains(symbol_key(functions_of(cs[c])[i].symbol)));
            assert(upsert_keys(k, a).symbols =~= k.symbols);
        },
        Phase::FunctionType => {
            assert(k.symbols.contains(symbol_key(functions_of(cs[c])[i].symbol)));
            assert(upsert_keys(k, a).types =~= k.types);
        },
        Phase::Types => {
            assert(k.types.contains(hyphenated(types_of(cs[c])[i].guid)));
            assert(upsert_keys(k, a).types =~= k.types);
        },
        _ => {},
    }
}

// ---------------------------------------------------------------- the order in which a push stores functions

/// The start of the chunk after chunk `c`: its target, or the end when `c`
/// is the last chunk.
pub open spec fn after_chunk(cs: Seq<ChunkModel>, c: int) -> Cursor {
    if c + 1 < cs.len() {
        Cursor { phase: Phase::Target, chunk: c + 1, item: 0, sub: 0 }
    } else {
        Cursor { phase: Phase::Finished, chunk: cs.len() as int, item: 0, sub: 0 }
    }
}

/// `at` points at a row of function `at.item` of chunk `at.chunk`.
pub open spec fn at_function_row(cs: Seq<ChunkModel>, at: Cursor) -> bool {
    &&& 0 <= at.chunk < cs.len()
    &&& 0 <= at.item < functions_of(cs[at.chunk]).len()
    &&& match at.phase {
        Phase::Symbol | Phase::Function => true,
        Phase::FunctionType => functions_of(cs[at.chunk])[at.item].ty is Some,
        Phase::Constraints => 0 <= at.sub < functions_of(cs[at.chunk])[at.item].constraints@.len(),
        Phase::Comments => 0 <= at.sub < functions_of(cs[at.chunk])[at.item].comments@.len(),
        _ => false,
    }
}

/// `at` is the last row of its function: the function row itself when the
/// function has no constraint and no comment, else its last constraint
/// (when it has no comment) or its last comment.
pub open spec fn last_row(cs: Seq<ChunkModel>, at: Cursor) -> bool {
    let f = functions_of(cs[at.chunk])[at.item];
    let (nc, nm) = (f.constraints@.len(), f.comments@.len());
    ||| at.phase == Phase::Function && nc == 0 && nm == 0
    ||| at.phase == Phase::Constraints && at.sub + 1 == nc && nm == 0
    ||| at.phase == Phase::Comments && at.sub + 1 == nm
}

/// A push stores the functions of a signature chunk one after another, in
/// file order, each exactly once and whole: after a chunk's target comes
/// its first function (or, with none, the next chunk); a function's symbol
/// is followed by its type, if any, then by its row, which is reached from
/// nowhere else; its constraints and comments follow; and only after its
/// last row does the push move on, to the next function of the chunk while
/// there is one and to the next chunk after the last.
pub proof fn lemma_functions_stored_in_order(cs: Seq<ChunkModel>, at: Cursor)
    ensures
        ({
            let n = next_cursor(cs, at);
            let (c, i) = (at.chunk, at.item);
            &&& (at.phase == Phase::Target && 0 <= c < cs.len() && cs[c].content is Signature) ==> n == (if functions_of(
                cs[c],
            ).len() > 0 {
                Cursor { phase: Phase::Symbol, chunk: c, item: 0, sub: 0 }
            } else {
                after_chunk(cs, c)
            })
            &&& at_function_row(cs, at) ==> {
                let len = functions_of(cs[c]).len();
                &&& at.phase == Phase::Symbol ==> n == Cursor {
                    phase: if functions_of(cs[c])[i].ty is Some { Phase::FunctionType } else { Phase::Function },
                    chunk: c,
                    item: i,
                    sub: 0,
                }
                &&& at.phase == Phase::FunctionType ==> n == Cursor { phase: Phase::Function, chunk: c, item: i, sub: 0 }
                &&& (at.phase == Phase::Function || at.phase == Phase::Constraints || at.phase == Phase::Comments) ==> {
                    ||| at_function_row(cs, n) && n.chunk == c && n.item == i && (n.phase == Phase::Constraints
                        || n.phase == Phase::Comments) && !last_row(cs, at)
                    ||| last_row(cs, at) && i + 1 < len && n == Cursor { phase: Phase::Symbol, chunk: c, item: i + 1, sub: 0 }
                    ||| last_row(cs, at) && i + 1 == len && n == after_chunk(cs, c)
                }
            }
        }),
{
}

} // verus!

//! Core records shared by the handlers.

use vstd::prelude::*;

verus! {

/// A user's role.
#[derive(Debug, Clone, Copy, PartialEq, Eq, Structural)]
pub enum Role {
    User,
    Admin,
}

impl Role {
    /// The name stored in the `role` column and shown in responses.
    pub fn as_str(&self) -> (r: &'static str)
        ensures
            r@ == role_name(*self),
    {
        match self {
            Role::User => "User",
            Role::Admin => "Admin",
        }
    }
}

pub open spec fn role_name(r: Role) -> Seq<char> {
    match r {
        Role::User => "User"@,
        Role::Admin => "Admin"@,
    }
}

/// Response format for routes that can answer with WARP flatbuffers.
#[derive(Debug, Clone, Copy, PartialEq, Eq, Structural)]
pub enum Format {
    Json,
    Flatbuffer,
}

impl Default for Format {
    fn default() -> (r: Self)
        ensures
            r == Format::Json,
    {
        Format::Json
    }
}

/// Seconds since the epoch that every `chrono::DateTime<Utc>` stays below
/// (its dates end in the year 262142).
pub const CLOCK_SECS_BOUND: i64 = 10_000_000_000_000;

/// `chrono::Utc::now()`, as seconds and nanoseconds since the epoch. Of the
/// instant it reads only its range is stated: `Utc::now` panics on a system
/// clock before the epoch or outside `DateTime`'s range, so what it returns
/// is at or after the epoch, below the year 262143, and its nanoseconds come
/// from `Duration::subsec_nanos`.
#[verifier::external_body]
pub(crate) fn clock_now() -> (r: Timestamp)
    ensures
        0 <= r.secs < CLOCK_SECS_BOUND,
        r.valid(),
{
    let t = chrono::Utc::now();
    Timestamp { secs: t.timestamp(), nanos: t.timestamp_subsec_nanos() }
}

/// A point in time: whole seconds since the Unix epoch and the nanoseconds
/// within that second.
#[derive(Debug, Clone, Copy, PartialEq, Eq, Structural)]
pub struct Timestamp {
    pub secs: i64,
    pub nanos: u32,
}

impl Timestamp {
    pub open spec fn valid(self) -> bool {
        self.nanos < 1_000_000_000
    }

    /// Nanoseconds since the epoch.
    pub open spec fn instant(self) -> int {
        self.secs * 1_000_000_000 + self.nanos
    }

    /// `self` is at or before `other`.
    pub fn at_or_before(&self, other: &Timestamp) -> (r: bool)
        requires
            self.valid(),
            other.valid(),
        ensures
            r == (self.instant() <= other.instant()),
    {
        if self.secs != other.secs {
            assert(self.secs < other.secs ==> self.instant() < other.instant()) by (nonlinear_arith)
                requires self.nanos < 1_000_000_000, other.nanos < 1_000_000_000,
                    self.instant() == self.secs * 1_000_000_000 + self.nanos,
                    other.instant() == other.secs * 1_000_000_000 + other.nanos;
            assert(self.secs > other.secs ==> self.instant() > other.instant()) by (nonlinear_arith)
                requires self.nanos < 1_000_000_000, other.nanos < 1_000_000_000,
                    self.instant() == self.secs * 1_000_000_000 + self.nanos,
                    other.instant() == other.secs * 1_000_000_000 + other.nanos;
            self.secs < other.secs
        } else {
            self.nanos <= other.nanos
        }
    }
}

/// Full user record (only shown to the user themselves and admins).
#[derive(Debug, Clone)]
pub struct UserMdl {
    pub id: i64,
    pub created_at: Timestamp,
    pub email: String,
    pub role: Role,
    pub username: String,
}

/// Public user record.
#[derive(Debug, Clone)]
pub struct UserInfo {
    pub id: i64,
    pub username: String,
    pub role: Role,
    pub created_at: Timestamp,
}

/// A source; UUIDs are held as their 128-bit values.
#[derive(Debug, Clone)]
pub struct SourceMdl {
    pub id: u128,
    pub created_at: Timestamp,
    pub name: String,
}

#[derive(Debug, Clone)]
pub struct SourceTagMdl {
    pub source_id: u128,
    pub tag: String,
}

#[derive(Debug, Clone, Copy)]
pub struct SourceUserMdl {
    pub source_id: u128,
    pub user_id: i64,
}

#[derive(Debug, Clone)]
pub struct CommitMdl {
    pub id: i64,
    pub created_at: Timestamp,
    pub description: Option<String>,
    pub name: Option<String>,
    pub source_id: u128,
    pub user_id: Option<i64>,
}

#[derive(Debug, Clone)]
pub struct TargetMdl {
    pub id: i64,
    pub created_at: Timestamp,
    pub platform: Option<String>,
    pub arch: Option<String>,
}

#[derive(Debug, Clone)]
pub struct SymbolMdl {
    pub id: i64,
    pub created_at: Timestamp,
    pub name: String,
    pub class: String,
    pub modifier: String,
}

#[derive(Debug, Clone)]
pub struct TypeMdl {
    pub id: u128,
    pub created_at: Timestamp,
    pub commit_id: i64,
    pub source_id: u128,
    pub name: Option<String>,
    /// Raw WARP `Type` flatbuffer bytes.
    pub data: Vec<u8>,
}

#[derive(Debug, Clone)]
pub struct FunctionMdl {
    pub id: i64,
    pub created_at: Timestamp,
    pub commit_id: i64,
    pub target_id: i64,
    pub source_id: u128,
    pub guid: u128,
    pub symbol_id: i64,
    pub type_id: Option<u128>,
}

#[derive(Debug, Clone, Copy)]
pub struct FunctionConstraintMdl {
    pub id: i64,
    pub function_id: i64,
    pub guid: u128,
    pub byte_offset: Option<i64>,
}

/// A comment attached to a function at a byte offset.
#[derive(Debug, Clone, PartialEq, Eq)]
pub struct FunctionCommentMdl {
    pub id: i64,
    pub function_id: i64,
    pub text: String,
    pub byte_offset: i64,
}

} // verus!

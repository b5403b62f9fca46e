//! Pagination of `POST .../query` routes.

use vstd::prelude::*;

verus! {

/// Body of `POST /auth/login`: where to send the browser after login.
#[derive(Debug, Clone)]
pub struct NextUrl {
    pub next: Option<String>,
}

/// One page of results and the size of the whole result set.
#[derive(Debug, Clone)]
pub struct PaginatedVec<T> {
    pub items: Vec<T>,
    pub total_pages: i64,
    pub total_results: i64,
}

pub const DEFAULT_LIMIT: i64 = 100;

/// The Binary Ninja plugin asks for up to 10 000 functions per query.
pub const MAX_LIMIT: i64 = 10_000;

/// Normalised `limit`/`page` pair. Pages are zero-based.
#[derive(Debug, Clone, Copy)]
pub struct Pagination {
    pub limit: i64,
    pub page: i64,
}

pub open spec fn clamp(x: int, lo: int, hi: int) -> int {
    if x < lo {
        lo
    } else if x > hi {
        hi
    } else {
        x
    }
}

/// Quotient of `a / b` (`b > 0`) rounded toward zero, as Rust's `/`
/// computes it.
pub open spec fn div_toward_zero(a: int, b: int) -> int
    recommends
        b > 0,
{
    if a >= 0 {
        a / b
    } else {
        -((-a) / b)
    }
}

impl Pagination {
    /// `limit` lies in `1..=MAX_LIMIT` and `page` is not negative.
    pub open spec fn valid(self) -> bool {
        1 <= self.limit <= MAX_LIMIT && self.page >= 0
    }

    /// Missing `limit` is `DEFAULT_LIMIT`; it is then clamped to
    /// `1..=MAX_LIMIT`. Missing or negative `page` is 0.
    pub fn new(limit: Option<i64>, page: Option<i64>) -> (r: Self)
        ensures
            r.limit == clamp(
                match limit {
                    Some(l) => l as int,
                    None => DEFAULT_LIMIT as int,
                },
                1,
                MAX_LIMIT as int,
            ),
            r.page == match page {
                Some(p) => if p < 0 { 0 } else { p as int },
                None => 0,
            },
            r.valid(),
    {
        let l = match limit {
            Some(l) => l,
            None => DEFAULT_LIMIT,
        };
        let l = if l < 1 {
            1
        } else if l > MAX_LIMIT {
            MAX_LIMIT
        } else {
            l
        };
        let p = match page {
            Some(p) => if p < 0 { 0 } else { p },
            None => 0,
        };
        Pagination { limit: l, page: p }
    }

    /// Rows to skip: `page * limit`, saturated to the range of `i64`.
    pub fn offset(&self) -> (r: i64)
        ensures
            r == clamp(self.page * self.limit, i64::MIN as int, i64::MAX as int),
    {
        let a = self.page as i128;
        let b = self.limit as i128;
        assert(-0x8000_0000_0000_0000_0000_0000_0000_0000 < a * b < 0x7fff_ffff_ffff_ffff_ffff_ffff_ffff_ffff) by (nonlinear_arith)
            requires
                -0x8000_0000_0000_0000 <= a <= 0x7fff_ffff_ffff_ffff,
                -0x8000_0000_0000_0000 <= b <= 0x7fff_ffff_ffff_ffff;
        let prod: i128 = a * b;
        if prod > i64::MAX as i128 {
            i64::MAX
        } else if prod < i64::MIN as i128 {
            i64::MIN
        } else {
            prod as i64
        }
    }

    /// Wraps one page of `items` with the page count: `total_results`
    /// divided by `limit`, rounded up.
    pub fn wrap<T>(&self, items: Vec<T>, total_results: i64) -> (r: PaginatedVec<T>)
        requires
            self.limit >= 1,
            total_results + self.limit - 1 <= i64::MAX,
        ensures
            r.items == items,
            r.total_results == total_results,
            r.total_pages == div_toward_zero(total_results + self.limit - 1, self.limit as int),
    {
        let n = total_results + (self.limit - 1);
        let q: i64 = if n >= 0 {
            n / self.limit
        } else {
            let m: i128 = -(n as i128);
            let d: i128 = m / (self.limit as i128);
            assert(0 <= d <= m) by (nonlinear_arith)
                requires m > 0, self.limit >= 1, d == m / (self.limit as i128);
            (-d) as i64
        };
        PaginatedVec { items, total_pages: q, total_results }
    }
}

/// For a non-negative total, the page count is the smallest number of pages
/// of `limit` rows that hold every result.
pub proof fn lemma_page_count_covers_results(limit: int, total: int, pages: int)
    requires
        limit >= 1,
        total >= 0,
        pages == div_toward_zero(total + limit - 1, limit),
    ensures
        pages * limit >= total,
        pages == 0 || (pages - 1) * limit < total,
        pages >= 0,
{
    assert(pages == (total + limit - 1) / limit);
    assert(pages * limit >= total) by (nonlinear_arith)
        requires limit >= 1, total >= 0, pages == (total + limit - 1) / limit;
    assert(pages == 0 || (pages - 1) * limit < total) by (nonlinear_arith)
        requires limit >= 1, total >= 0, pages == (total + limit - 1) / limit;
    assert(pages >= 0) by (nonlinear_arith)
        requires limit >= 1, total >= 0, pages == (total + limit - 1) / limit;
}

} // verus!

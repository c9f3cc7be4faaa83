//! Pages of results: how many pages a count makes, and which items a page holds.

use vstd::prelude::*;

verus! {

/// The integer ceiling of `t / p` for `p != 0`, written over magnitudes:
/// rounded up where the quotient is not negative, and towards zero (which is
/// up) where it is.
pub open spec fn ceil_div(t: int, p: int) -> int
    recommends
        p != 0,
{
    let a = if t < 0 { -t } else { t };
    let b = if p < 0 { -p } else { p };
    if t == 0 || ((t > 0) == (p > 0)) {
        (a + b - 1) / b
    } else {
        -(a / b)
    }
}

/// A whole number clamped into the range of `i32`, as a float-to-`i32` cast saturates.
pub open spec fn clamp_i32(k: int) -> int {
    if k > i32::MAX {
        i32::MAX as int
    } else if k < i32::MIN {
        i32::MIN as int
    } else {
        k
    }
}

/// The number of pages that `total_count` items make at `page_size` per
/// page: the ceiling of the quotient, saturated into `i32`. A page size of
/// zero gives the saturated infinity of the quotient's sign, and zero for
/// zero items (a float division by zero, cast).
pub open spec fn pages_for(total_count: int, page_size: int) -> int {
    if page_size == 0 {
        if total_count > 0 {
            i32::MAX as int
        } else if total_count == 0 {
            0
        } else {
            i32::MIN as int
        }
    } else {
        clamp_i32(ceil_div(total_count, page_size))
    }
}

/// For a positive page size, the page count is the least number of pages
/// that hold every item: one page fewer would not hold them all.
pub proof fn lemma_ceil_div_is_least_cover(t: int, p: int)
    requires
        p > 0,
    ensures
        (ceil_div(t, p) - 1) * p < t <= ceil_div(t, p) * p,
{
    let k = ceil_div(t, p);
    if t >= 0 {
        let q = (t + p - 1) / p;
        let r = (t + p - 1) % p;
        assert(t + p - 1 == p * q + r && 0 <= r < p) by (nonlinear_arith)
            requires
                p > 0,
                q == (t + p - 1) / p,
                r == (t + p - 1) % p,
        ;
        assert((q - 1) * p < t <= q * p) by (nonlinear_arith)
            requires
                t + p - 1 == p * q + r,
                0 <= r < p,
        ;
    } else {
        let a = -t;
        let q = a / p;
        let r = a % p;
        assert(a == p * q + r && 0 <= r < p) by (nonlinear_arith)
            requires
                p > 0,
                q == a / p,
                r == a % p,
        ;
        assert((-q - 1) * p < t <= -q * p) by (nonlinear_arith)
            requires
                a == p * q + r,
                0 <= r < p,
                t == -a,
        ;
    }
}

/// The number of pages that `total_count` items make at `page_size` per page.
pub fn total_pages_for(total_count: i64, page_size: i32) -> (r: i32)
    ensures
        r == pages_for(total_count as int, page_size as int),
{
    if page_size == 0 {
        if total_count > 0 {
            i32::MAX
        } else if total_count == 0 {
            0
        } else {
            i32::MIN
        }
    } else {
        let a: u128 = if total_count < 0 {
            (0i128 - (total_count as i128)) as u128
        } else {
            total_count as u128
        };
        let b: u128 = if page_size < 0 {
            (0i128 - (page_size as i128)) as u128
        } else {
            page_size as u128
        };
        let k: i128 = if total_count == 0 || ((total_count > 0) == (page_size > 0)) {
            ((a + b - 1) / b) as i128
        } else {
            0i128 - ((a / b) as i128)
        };
        proof {
            assert(ceil_div(total_count as int, page_size as int) == k);
        }
        if k > i32::MAX as i128 {
            i32::MAX
        } else if k < i32::MIN as i128 {
            i32::MIN
        } else {
            k as i32
        }
    }
}

/// A page of items together with where it stands among all results.
#[derive(Debug)]
pub struct PaginatedResult<T> {
    pub items: Vec<T>,
    pub total_count: i64,
    pub page: i32,
    pub page_size: i32,
}

impl<T> PaginatedResult<T> {
    pub fn new(items: Vec<T>, total_count: i64, page: i32, page_size: i32) -> (r: Self)
        ensures
            r.items == items,
            r.total_count == total_count,
            r.page == page,
            r.page_size == page_size,
    {
        PaginatedResult { items, total_count, page, page_size }
    }

    /// The number of pages of the whole result.
    pub fn total_pages(&self) -> (r: i32)
        ensures
            r == pages_for(self.total_count as int, self.page_size as int),
    {
        total_pages_for(self.total_count, self.page_size)
    }
}

/// Pagination metadata of a response.
#[derive(Debug)]
pub struct PaginationDto {
    pub page: i32,
    pub page_size: i32,
    pub total_count: i64,
    pub total_pages: i32,
}

impl PaginationDto {
    /// The metadata for a page of a result of `total_count` items.
    pub fn new(page: i32, page_size: i32, total_count: i64) -> (r: Self)
        ensures
            r.page == page,
            r.page_size == page_size,
            r.total_count == total_count,
            r.total_pages == pages_for(total_count as int, page_size as int),
    {
        PaginationDto { page, page_size, total_count, total_pages: total_pages_for(total_count, page_size) }
    }
}

/// The items a page shows: the run that starts `(page - 1) * page_size`
/// items in and holds up to `page_size` of them. A negative start shows
/// nothing (the start wraps round to a huge index), a negative page size
/// shows everything from the start on (the count wraps round likewise).
pub open spec fn page_window<T>(items: Seq<T>, page: int, page_size: int) -> Seq<T> {
    let start = (page - 1) * page_size;
    if start < 0 || start >= items.len() {
        Seq::empty()
    } else {
        let end = if page_size < 0 || start + page_size > items.len() {
            items.len() as int
        } else {
            start + page_size
        };
        items.subrange(start, end)
    }
}

/// The items of one page, by [`page_window`].
pub fn page_of<T>(items: Vec<T>, page: i32, page_size: i32) -> (r: Vec<T>)
    requires
        page > i32::MIN,
        i32::MIN <= (page - 1) * page_size <= i32::MAX,
    ensures
        r@ == page_window(items@, page as int, page_size as int),
{
    let ghost whole = items@;
    let start: i32 = (page - 1) * page_size;
    if start < 0 || start as usize >= items.len() {
        return Vec::new();
    }
    let s: usize = start as usize;
    let end: usize = if page_size < 0 || (page_size as usize) > items.len() - s {
        items.len()
    } else {
        s + page_size as usize
    };
    let mut items = items;
    let mut rest: Vec<T> = items.split_off(s);
    rest.truncate(end - s);
    proof {
        assert(rest@ =~= whole.subrange(s as int, end as int));
    }
    rest
}

/// A page never shows more items than the page size.
pub proof fn lemma_page_holds_at_most_page_size<T>(items: Seq<T>, page: int, page_size: int)
    requires
        page_size >= 0,
    ensures
        page_window(items, page, page_size).len() <= page_size,
{
}

/// The page count and the pages agree: with a positive page size, the last
/// counted page shows items (where there are any) and the page after it
/// shows none.
pub proof fn lemma_last_page_is_counted<T>(items: Seq<T>, page_size: int)
    requires
        page_size > 0,
        0 < items.len() <= i32::MAX,
    ensures
        page_window(items, pages_for(items.len() as int, page_size), page_size).len() > 0,
        page_window(items, pages_for(items.len() as int, page_size) + 1, page_size).len() == 0,
{
    let n = items.len() as int;
    let k = ceil_div(n, page_size);
    lemma_ceil_div_is_least_cover(n, page_size);
    assert(k >= 1) by (nonlinear_arith)
        requires
            n <= k * page_size,
            n > 0,
            page_size > 0,
    ;
    assert(k <= n) by (nonlinear_arith)
        requires
            (k - 1) * page_size < n,
            page_size > 0,
            k >= 1,
    ;
    assert(pages_for(n, page_size) == k);
    assert((k - 1) * page_size >= 0) by (nonlinear_arith)
        requires
            k >= 1,
            page_size > 0,
    ;
    assert(k * page_size >= n);
    assert(((k + 1) - 1) * page_size == k * page_size) by (nonlinear_arith);
}

} // verus!

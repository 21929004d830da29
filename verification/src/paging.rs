//! Page arithmetic: where a page starts and how many pages there are.

use vstd::prelude::*;

verus! {

/// The number of pages that `total` rows fill at `limit` rows a page: the
/// quotient rounded up, and 0 where there is no row or no room on a page.
pub open spec fn spec_total_pages(total: int, limit: int) -> int {
    if limit <= 0 || total <= 0 {
        0
    } else {
        (total + limit - 1) / limit
    }
}

/// The number of rows that stand before page `page`, kept within `i64`.
pub open spec fn spec_page_offset(page: int, limit: int) -> int {
    let exact = (page - 1) * limit;
    if exact > i64::MAX {
        i64::MAX as int
    } else if exact < i64::MIN {
        i64::MIN as int
    } else {
        exact
    }
}

/// How many pages `total` rows need.
pub fn total_pages(total: i64, limit: i64) -> (r: i64)
    ensures
        r == spec_total_pages(total as int, limit as int),
        limit == 0 ==> r == 0,
        0 <= r <= total || total < 0,
{
    if limit <= 0 || total <= 0 {
        return 0;
    }
    let q: i64 = total / limit;
    let m: i64 = total % limit;
    proof {
        lemma_ceil_div(total as int, limit as int);
    }
    if m == 0 {
        q
    } else {
        q + 1
    }
}

/// The offset of the first row of a page.
pub fn page_offset(page: i64, limit: i64) -> (r: i64)
    ensures
        r == spec_page_offset(page as int, limit as int),
{
    proof {
        lemma_product_bound(page as int - 1, limit as int);
    }
    let exact: i128 = (page as i128 - 1) * (limit as i128);
    if exact > i64::MAX as i128 {
        i64::MAX
    } else if exact < i64::MIN as i128 {
        i64::MIN
    } else {
        exact as i64
    }
}

proof fn lemma_product_bound(a: int, b: int)
    requires
        -0x8000_0000_0000_0001 <= a <= 0x7fff_ffff_ffff_ffff,
        -0x8000_0000_0000_0000 <= b <= 0x7fff_ffff_ffff_ffff,
    ensures
        -0x4000_0000_0000_0000_8000_0000_0000_0000 <= a * b <= 0x4000_0000_0000_0000_8000_0000_0000_0000,
{
    assert(-0x4000_0000_0000_0000_8000_0000_0000_0000 <= a * b
        <= 0x4000_0000_0000_0000_8000_0000_0000_0000) by (nonlinear_arith)
        requires
            -0x8000_0000_0000_0001 <= a <= 0x7fff_ffff_ffff_ffff,
            -0x8000_0000_0000_0000 <= b <= 0x7fff_ffff_ffff_ffff,
    ;
}

proof fn lemma_ceil_div(total: int, limit: int)
    requires
        total > 0,
        limit > 0,
    ensures
        total % limit == 0 ==> (total + limit - 1) / limit == total / limit,
        total % limit != 0 ==> (total + limit - 1) / limit == total / limit + 1,
        total / limit <= total,
        total / limit + 1 <= total || total % limit == 0,
{
    let q = total / limit;
    let m = total % limit;
    assert(total == q * limit + m && 0 <= m < limit) by (nonlinear_arith)
        requires
            limit > 0,
            q == total / limit,
            m == total % limit,
    ;
    assert(m == 0 ==> (q * limit + limit - 1) / limit == q) by (nonlinear_arith)
        requires
            limit > 0,
    ;
    assert(m != 0 ==> (q * limit + m + limit - 1) / limit == q + 1) by (nonlinear_arith)
        requires
            limit > 0,
            0 <= m < limit,
    ;
    assert(q <= total && (q + 1 <= total || m == 0)) by (nonlinear_arith)
        requires
            limit > 0,
            total > 0,
            total == q * limit + m,
            0 <= m < limit,
    ;
}

/// The page count is the least number of pages that holds every row: that
/// many pages have room for all `total` rows, and one page fewer has not.
pub proof fn lemma_total_pages_is_ceiling(total: int, limit: int)
    requires
        total > 0,
        limit > 0,
    ensures
        spec_total_pages(total, limit) * limit >= total,
        (spec_total_pages(total, limit) - 1) * limit < total,
{
    let p = (total + limit - 1) / limit;
    assert(p * limit >= total && (p - 1) * limit < total) by (nonlinear_arith)
        requires
            limit > 0,
            total > 0,
            p == (total + limit - 1) / limit,
    ;
}

/// Every page from the first to the last starts before the end of the rows,
/// so it holds at least one of them.
pub proof fn lemma_page_up_to_last_is_not_empty(page: int, total: int, limit: int)
    requires
        total > 0,
        limit > 0,
        total <= i64::MAX,
        1 <= page <= spec_total_pages(total, limit),
    ensures
        0 <= spec_page_offset(page, limit) < total,
{
    lemma_total_pages_is_ceiling(total, limit);
    let p = spec_total_pages(total, limit);
    assert(0 <= (page - 1) * limit <= (p - 1) * limit) by (nonlinear_arith)
        requires
            1 <= page <= p,
            limit > 0,
    ;
}

/// A page beyond the last starts at or after the end of the rows, so it
/// holds none of them.
pub proof fn lemma_page_beyond_last_is_empty(page: int, total: int, limit: int)
    requires
        0 <= total <= i64::MAX,
        limit > 0,
        page > spec_total_pages(total, limit),
    ensures
        spec_page_offset(page, limit) >= total,
{
    if total > 0 {
        lemma_total_pages_is_ceiling(total, limit);
    }
    let p = spec_total_pages(total, limit);
    assert((page - 1) * limit >= p * limit) by (nonlinear_arith)
        requires
            page - 1 >= p,
            limit > 0,
    ;
}

} // verus!

//! The arithmetic of a paged listing: which rows a page holds, and that the
//! pages read in turn hold every row once.

use vstd::prelude::*;

verus! {

/// The number of rows that stand before the page numbered `page_number`,
/// pages being counted from 1.
pub open spec fn spec_page_offset(page_number: int, page_size: int) -> int {
    (page_number - 1) * page_size
}

/// The number of pages that a listing of `total_rows` rows has: the pages
/// that it takes to hold every row, the last of them full or not.
pub open spec fn spec_total_page(total_rows: int, page_size: int) -> int {
    if total_rows <= 0 {
        0
    } else {
        (total_rows - 1) / page_size + 1
    }
}

/// The smaller of two numbers.
pub open spec fn least(a: int, b: int) -> int {
    if a <= b {
        a
    } else {
        b
    }
}

/// The rows of the page numbered `page_number` of a listing of `rows`.
pub open spec fn page_rows<T>(rows: Seq<T>, page_number: int, page_size: int) -> Seq<T>
    recommends
        page_number >= 1,
        page_size >= 1,
{
    rows.subrange(
        least(spec_page_offset(page_number, page_size), rows.len() as int),
        least(spec_page_offset(page_number + 1, page_size), rows.len() as int),
    )
}

/// The rows of the first `pages` pages of a listing, one page after the
/// other.
pub open spec fn pages_read<T>(rows: Seq<T>, pages: int, page_size: int) -> Seq<T>
    decreases pages,
{
    if pages <= 0 {
        Seq::empty()
    } else {
        pages_read(rows, pages - 1, page_size) + page_rows(rows, pages, page_size)
    }
}

/// The number of rows that stand before the page numbered `page_number`;
/// none where the page has no number of at least 1, a page holds no row, or
/// the number of rows is too large for the machine.
pub fn page_offset(page_number: i64, page_size: i64) -> (offset: Option<i64>)
    ensures
        offset is Some <==> page_number >= 1 && page_size >= 1 && spec_page_offset(
            page_number as int,
            page_size as int,
        ) <= i64::MAX,
        offset matches Some(rows) ==> rows == spec_page_offset(
            page_number as int,
            page_size as int,
        ),
{
    if page_number < 1 || page_size < 1 {
        return None;
    }
    let before: i64 = page_number - 1;
    assert(before * page_size >= 0) by (nonlinear_arith)
        requires
            before >= 0,
            page_size >= 1,
    ;
    before.checked_mul(page_size)
}

/// The number of pages that a listing of `total_rows` rows has.
pub fn total_page(total_rows: i64, page_size: i64) -> (pages: i64)
    requires
        page_size > 0,
    ensures
        pages == spec_total_page(total_rows as int, page_size as int),
{
    if total_rows <= 0 {
        0
    } else {
        (total_rows - 1) / page_size + 1
    }
}

/// The pages counted hold every row and none of them is empty: the rows fill
/// the pages before the last and reach into the last.
pub proof fn lemma_total_page_covers(total_rows: int, page_size: int)
    requires
        total_rows > 0,
        page_size >= 1,
    ensures
        spec_page_offset(spec_total_page(total_rows, page_size), page_size) < total_rows
            <= spec_page_offset(spec_total_page(total_rows, page_size) + 1, page_size),
{
    let quotient = (total_rows - 1) / page_size;
    vstd::arithmetic::div_mod::lemma_fundamental_div_mod(total_rows - 1, page_size);
    vstd::arithmetic::div_mod::lemma_mod_bound(total_rows - 1, page_size);
    assert(page_size * quotient == quotient * page_size) by (nonlinear_arith);
    assert((quotient + 1) * page_size == quotient * page_size + page_size) by (nonlinear_arith);
}

/// A page holds a row exactly where its number is among the pages counted.
pub proof fn lemma_pages_counted_hold_rows<T>(rows: Seq<T>, page_number: int, page_size: int)
    requires
        page_number >= 1,
        page_size >= 1,
    ensures
        page_rows(rows, page_number, page_size).len() > 0 <==> page_number <= spec_total_page(
            rows.len() as int,
            page_size,
        ),
{
    lemma_page_empty_at_end(rows, page_number, page_size);
    let total = rows.len() as int;
    if total > 0 {
        lemma_total_page_covers(total, page_size);
        let pages = spec_total_page(total, page_size);
        let before = page_number - 1;
        if page_number <= pages {
            assert(before * page_size <= (pages - 1) * page_size) by (nonlinear_arith)
                requires
                    before <= pages - 1,
                    page_size >= 1,
            ;
        } else {
            assert(before * page_size >= pages * page_size) by (nonlinear_arith)
                requires
                    before >= pages,
                    page_size >= 1,
            ;
        }
    } else {
        assert((page_number - 1) * page_size >= 0) by (nonlinear_arith)
            requires
                page_number >= 1,
                page_size >= 1,
        ;
    }
}

/// The first pages of a listing, read in turn, hold the first rows of the
/// listing, each once and in order.
pub proof fn lemma_pages_read<T>(rows: Seq<T>, pages: int, page_size: int)
    requires
        pages >= 0,
        page_size >= 1,
    ensures
        pages_read(rows, pages, page_size) == rows.subrange(
            0,
            least(pages * page_size, rows.len() as int),
        ),
    decreases pages,
{
    if pages == 0 {
        assert(pages * page_size == 0) by (nonlinear_arith)
            requires
                pages == 0,
        ;
        assert(rows.subrange(0, 0) =~= Seq::<T>::empty());
    } else {
        lemma_pages_read(rows, pages - 1, page_size);
        let before = (pages - 1) * page_size;
        let after = pages * page_size;
        assert(before + page_size == after) by (nonlinear_arith)
            requires
                before == (pages - 1) * page_size,
                after == pages * page_size,
        ;
        assert(before >= 0) by (nonlinear_arith)
            requires
                before == (pages - 1) * page_size,
                pages >= 1,
                page_size >= 1,
        ;
        assert(spec_page_offset(pages, page_size) == before);
        assert(spec_page_offset(pages + 1, page_size) == after);
        let low = least(before, rows.len() as int);
        let high = least(after, rows.len() as int);
        assert(page_rows(rows, pages, page_size) == rows.subrange(low, high));
        assert(pages_read(rows, pages, page_size) == pages_read(rows, pages - 1, page_size)
            + page_rows(rows, pages, page_size));
        assert(rows.subrange(0, low) + rows.subrange(low, high) =~= rows.subrange(0, high));
    }
}

/// Reading the pages of a listing in turn, up to the first page that holds
/// no row, gives every row of the listing once, without a gap: where the
/// page after the first `pages` pages is empty, those pages hold all rows.
pub proof fn lemma_listing_complete<T>(rows: Seq<T>, pages: int, page_size: int)
    requires
        pages >= 0,
        page_size >= 1,
        page_rows(rows, pages + 1, page_size).len() == 0,
    ensures
        pages_read(rows, pages, page_size) == rows,
{
    lemma_pages_read(rows, pages, page_size);
    assert(pages * page_size + page_size == (pages + 1) * page_size) by (nonlinear_arith);
    assert(pages * page_size >= 0) by (nonlinear_arith)
        requires
            pages >= 0,
            page_size >= 1,
    ;
    assert(spec_page_offset(pages + 1, page_size) == pages * page_size);
    assert(spec_page_offset(pages + 2, page_size) == (pages + 1) * page_size);
    assert(rows.subrange(0, rows.len() as int) =~= rows);
}

/// Every page before the first empty one holds a row, so that reading goes
/// on until all rows are read: a page is empty only where the pages before
/// it hold all rows.
pub proof fn lemma_page_empty_at_end<T>(rows: Seq<T>, page_number: int, page_size: int)
    requires
        page_number >= 1,
        page_size >= 1,
    ensures
        page_rows(rows, page_number, page_size).len() == 0 <==> spec_page_offset(
            page_number,
            page_size,
        ) >= rows.len(),
{
    assert((page_number - 1) * page_size + page_size == page_number * page_size)
        by (nonlinear_arith);
    assert((page_number - 1) * page_size >= 0) by (nonlinear_arith)
        requires
            page_number >= 1,
            page_size >= 1,
    ;
    assert(spec_page_offset(page_number + 1, page_size) == page_number * page_size);
}

} // verus!

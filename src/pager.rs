use vstd::prelude::*;

use crate::pagination::{generate_button_numbers, page_window, spec_total_pages, total_pages};

verus! {

/// Row counts offered for the page size, in the order they are listed.
pub fn page_size_choices() -> (r: Vec<u32>)
    ensures
        r@ == seq![5u32, 10, 15, 20, 25, 50, 100],
{
    let r: Vec<u32> = vec![5, 10, 15, 20, 25, 50, 100];
    assert(r@ =~= seq![5u32, 10, 15, 20, 25, 50, 100]);
    r
}

/// The last page that can be current: the page count, but at least one.
pub open spec fn last_page(total: nat, limit: nat) -> nat {
    let n = spec_total_pages(total, limit);
    if n == 0 {
        1
    } else {
        n
    }
}

/// A page before the page count starts at a row that exists.
proof fn lemma_offset_below_total(page: nat, total: nat, limit: nat)
    requires
        limit > 0,
        1 <= page <= spec_total_pages(total, limit),
    ensures
        (page - 1) * limit < total,
{
    let q = total / limit;
    let m = total % limit;
    assert(total == q * limit + m && 0 <= m < limit) by (nonlinear_arith)
        requires
            limit > 0,
            q == total / limit,
            m == total % limit,
    ;
    if m == 0 {
        assert((page - 1) * limit < total) by (nonlinear_arith)
            requires
                page - 1 < q,
                total == q * limit,
                limit > 0,
        ;
    } else {
        assert((page - 1) * limit < total) by (nonlinear_arith)
            requires
                page - 1 <= q,
                total == q * limit + m,
                m > 0,
        ;
    }
}

/// Where the table stands in its rows: how many there are, how many a page
/// shows, which page is current and the offset of its first row.
pub struct Pagination {
    pub total: u32,
    pub limit: u32,
    pub offset: u32,
    pub current_page: u32,
}

impl Pagination {
    /// The current page lies between the first and the last page, and the
    /// offset is the index of its first row.
    pub open spec fn wf(&self) -> bool {
        &&& self.limit > 0
        &&& 1 <= self.current_page <= last_page(self.total as nat, self.limit as nat)
        &&& self.offset == (self.current_page - 1) * self.limit
    }

    /// The offset is below the row count, or zero on the first page.
    proof fn lemma_offset(&self)
        requires
            self.wf(),
        ensures
            self.offset < self.total || (self.current_page == 1 && self.offset == 0),
    {
        if self.current_page > 1 {
            lemma_offset_below_total(
                self.current_page as nat,
                self.total as nat,
                self.limit as nat,
            );
        } else {
            assert(0 * self.limit == 0);
        }
    }

    /// Moves to `page` and sets the offset to its first row.
    fn place(&mut self, page: u32)
        requires
            old(self).limit > 0,
            1 <= page <= last_page(old(self).total as nat, old(self).limit as nat),
        ensures
            final(self).wf(),
            final(self).current_page == page,
            final(self).total == old(self).total,
            final(self).limit == old(self).limit,
    {
        proof {
            if page > 1 {
                lemma_offset_below_total(page as nat, self.total as nat, self.limit as nat);
            } else {
                assert(0 * self.limit == 0);
            }
        }
        self.current_page = page;
        self.offset = (page - 1) * self.limit;
    }

    /// The first page of `total` rows, `limit` rows per page.
    pub fn new(total: u32, limit: u32) -> (r: Self)
        requires
            limit > 0,
        ensures
            r.wf(),
            r.total == total,
            r.limit == limit,
            r.current_page == 1,
            r.offset == 0,
    {
        Pagination { total, limit, offset: 0, current_page: 1 }
    }

    /// Number of pages; zero when there are no rows.
    pub fn page_count(&self) -> (r: u32)
        requires
            self.wf(),
        ensures
            r as nat == spec_total_pages(self.total as nat, self.limit as nat),
    {
        total_pages(self.total, self.limit)
    }

    /// The page numbers that get a button.
    pub fn buttons(&self) -> (r: Vec<u32>)
        requires
            self.wf(),
        ensures
            r@ == page_window(
                self.current_page as int,
                spec_total_pages(self.total as nat, self.limit as nat) as int,
            ),
    {
        generate_button_numbers(self.current_page, total_pages(self.total, self.limit))
    }

    /// One-based number of the first row on the current page.
    pub fn row_from(&self) -> (r: u32)
        requires
            self.wf(),
        ensures
            r == self.offset + 1,
    {
        proof {
            self.lemma_offset();
        }
        self.offset + 1
    }

    /// One-based number of the last row on the current page: a full page
    /// after the offset, cut at the row count.
    pub fn row_to(&self) -> (r: u32)
        requires
            self.wf(),
        ensures
            r == if self.offset + self.limit > self.total {
                self.total as int
            } else {
                self.offset + self.limit
            },
    {
        proof {
            self.lemma_offset();
        }
        if self.offset >= self.total || self.limit > self.total - self.offset {
            self.total
        } else {
            self.offset + self.limit
        }
    }

    /// The page buttons are shown only when the rows do not fit on one page.
    pub fn show_pagination(&self) -> (r: bool)
        ensures
            r == (self.limit < self.total),
    {
        self.limit < self.total
    }

    /// There is no page before the first.
    pub fn previous_disabled(&self) -> (r: bool)
        ensures
            r == (self.current_page == 1),
    {
        self.current_page == 1
    }

    /// There is no page after the last.
    pub fn next_disabled(&self) -> (r: bool)
        requires
            self.wf(),
        ensures
            r == (self.current_page as nat >= spec_total_pages(
                self.total as nat,
                self.limit as nat,
            )),
    {
        self.current_page >= total_pages(self.total, self.limit)
    }

    /// Makes `page` current when it is a page of the table, and reports
    /// whether it did; otherwise nothing changes.
    pub fn go_to_page(&mut self, page: u32) -> (r: bool)
        requires
            old(self).wf(),
        ensures
            final(self).wf(),
            r == (1 <= page <= last_page(old(self).total as nat, old(self).limit as nat)),
            r ==> final(self).current_page == page,
            !r ==> *final(self) == *old(self),
            final(self).total == old(self).total,
            final(self).limit == old(self).limit,
    {
        let count = total_pages(self.total, self.limit);
        let last: u32 = if count == 0 { 1 } else { count };
        if 1 <= page && page <= last {
            self.place(page);
            true
        } else {
            false
        }
    }

    /// Steps back one page, unless the first page is current.
    pub fn previous_page(&mut self) -> (r: bool)
        requires
            old(self).wf(),
        ensures
            final(self).wf(),
            r == (old(self).current_page > 1),
            final(self).current_page == if r {
                old(self).current_page - 1
            } else {
                old(self).current_page as int
            },
            final(self).total == old(self).total,
            final(self).limit == old(self).limit,
    {
        if self.current_page > 1 {
            self.place(self.current_page - 1);
            true
        } else {
            false
        }
    }

    /// Steps on one page, unless the last page is current.
    pub fn next_page(&mut self) -> (r: bool)
        requires
            old(self).wf(),
        ensures
            final(self).wf(),
            r == (old(self).current_page < last_page(
                old(self).total as nat,
                old(self).limit as nat,
            )),
            final(self).current_page == if r {
                old(self).current_page + 1
            } else {
                old(self).current_page as int
            },
            final(self).total == old(self).total,
            final(self).limit == old(self).limit,
    {
        let count = total_pages(self.total, self.limit);
        if self.current_page < count {
            self.place(self.current_page + 1);
            true
        } else {
            false
        }
    }

    /// Goes back to the first page, as a new search does.
    pub fn reset(&mut self)
        requires
            old(self).wf(),
        ensures
            final(self).wf(),
            final(self).current_page == 1,
            final(self).offset == 0,
            final(self).total == old(self).total,
            final(self).limit == old(self).limit,
    {
        self.place(1);
    }

    /// Shows `limit` rows per page. The current page stays where it still
    /// exists and becomes the last page where it does not.
    pub fn set_limit(&mut self, limit: u32)
        requires
            old(self).wf(),
            limit > 0,
        ensures
            final(self).wf(),
            final(self).limit == limit,
            final(self).total == old(self).total,
            final(self).current_page as nat == if old(self).current_page <= last_page(
                old(self).total as nat,
                limit as nat,
            ) {
                old(self).current_page as nat
            } else {
                last_page(old(self).total as nat, limit as nat)
            },
    {
        self.limit = limit;
        self.clamp();
    }

    /// Takes a new row count. The current page stays where it still exists
    /// and becomes the last page where it does not.
    pub fn set_total(&mut self, total: u32)
        requires
            old(self).wf(),
        ensures
            final(self).wf(),
            final(self).total == total,
            final(self).limit == old(self).limit,
            final(self).current_page as nat == if old(self).current_page <= last_page(
                total as nat,
                old(self).limit as nat,
            ) {
                old(self).current_page as nat
            } else {
                last_page(total as nat, old(self).limit as nat)
            },
    {
        self.total = total;
        self.clamp();
    }

    fn clamp(&mut self)
        requires
            old(self).limit > 0,
            old(self).current_page >= 1,
        ensures
            final(self).wf(),
            final(self).total == old(self).total,
            final(self).limit == old(self).limit,
            final(self).current_page as nat == if old(self).current_page <= last_page(
                old(self).total as nat,
                old(self).limit as nat,
            ) {
                old(self).current_page as nat
            } else {
                last_page(old(self).total as nat, old(self).limit as nat)
            },
    {
        let count = total_pages(self.total, self.limit);
        let last: u32 = if count == 0 { 1 } else { count };
        let page = if self.current_page <= last { self.current_page } else { last };
        self.place(page);
    }
}

} // verus!

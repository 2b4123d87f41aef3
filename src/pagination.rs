use vstd::prelude::*;

verus! {

/// Number of pages needed to show `total` rows, `size` rows per page.
pub open spec fn spec_total_pages(total: nat, size: nat) -> nat
    recommends
        size > 0,
{
    if total % size == 0 {
        total / size
    } else {
        total / size + 1
    }
}

/// Ceiling division of the row count by the page size.
pub fn total_pages(total: u32, size: u32) -> (r: u32)
    requires
        size > 0,
    ensures
        r as nat == spec_total_pages(total as nat, size as nat),
{
    let count = total / size;
    if total % size != 0 {
        assert(count < u32::MAX) by (nonlinear_arith)
            requires
                count == total / size,
                total % size != 0,
                size > 0,
                total <= u32::MAX,
        ;
        count + 1
    } else {
        count
    }
}


/// Most page buttons the pagination bar shows at once.
pub const MAX_BUTTONS: u32 = 5;

/// The page numbers `start..=end`, ascending; empty when `end < start`.
pub open spec fn page_range(start: int, end: int) -> Seq<u32> {
    Seq::new(if end >= start { (end - start + 1) as nat } else { 0 }, |i: int| (start + i) as u32)
}

/// First page of the button window.
pub open spec fn window_start(current: int, count: int) -> int {
    if count <= MAX_BUTTONS || current <= 3 {
        1
    } else if current + 2 > count {
        count - 4
    } else {
        current - 2
    }
}

/// Last page of the button window.
pub open spec fn window_end(current: int, count: int) -> int {
    let start = window_start(current, count);
    if start + 4 < count {
        start + 4
    } else {
        count
    }
}

/// The page buttons shown for page `current` of `count` pages: every page
/// when there are at most five, else five consecutive pages kept around the
/// current one and clamped to the first and last page.
pub open spec fn page_window(current: int, count: int) -> Seq<u32> {
    page_range(window_start(current, count), window_end(current, count))
}

/// Page numbers of the pagination bar for page `current_page` of `total_page`.
pub fn generate_button_numbers(current_page: u32, total_page: u32) -> (r: Vec<u32>)
    ensures
        r@ == page_window(current_page as int, total_page as int),
{
    let start: u32 = if total_page <= MAX_BUTTONS || current_page <= 3 {
        1
    } else if current_page > total_page - 2 {
        total_page - 4
    } else {
        current_page - 2
    };
    let end: u32 = if total_page <= MAX_BUTTONS || start >= total_page - 4 {
        total_page
    } else {
        start + 4
    };
    let len: u32 = if end >= start { end - start + 1 } else { 0 };
    let mut r: Vec<u32> = Vec::new();
    let mut i: u32 = 0;
    while i < len
        invariant
            1 <= start,
            i <= len,
            len as int == (if end >= start { end - start + 1 } else { 0 }),
            end <= total_page,
            start == window_start(current_page as int, total_page as int),
            end == window_end(current_page as int, total_page as int),
            r@ == page_range(start as int, start + i - 1),
        decreases len - i,
    {
        r.push(start + i);
        assert(r@ =~= page_range(start as int, start + i));
        i = i + 1;
    }
    assert(r@ =~= page_window(current_page as int, total_page as int));
    r
}


/// The button window is a run of consecutive page numbers, strictly
/// ascending, within `1..=count`, and as long as the smaller of `count` and
/// five.
pub proof fn lemma_window_shape(current: u32, count: u32)
    ensures
        page_window(current as int, count as int).len() == if count <= MAX_BUTTONS {
            count as nat
        } else {
            MAX_BUTTONS as nat
        },
        forall|i: int|
            0 <= i < page_window(current as int, count as int).len() ==> 1 <= #[trigger] page_window(
                current as int,
                count as int,
            )[i] <= count,
        forall|i: int|
            0 <= i < page_window(current as int, count as int).len() - 1 ==> #[trigger] page_window(
                current as int,
                count as int,
            )[i + 1] == page_window(current as int, count as int)[i] + 1,
{
}

/// With five pages or fewer every page has a button, whatever the current
/// page.
pub proof fn lemma_window_all_pages(current: u32, count: u32)
    requires
        count <= MAX_BUTTONS,
    ensures
        page_window(current as int, count as int) == Seq::new(count as nat, |i: int| (i + 1) as u32),
{
    assert(page_window(current as int, count as int) =~= Seq::new(count as nat, |i: int| (i + 1) as u32));
}

} // verus!

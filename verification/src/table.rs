//! Cursor, paging and row-expansion state of one table.
use vstd::prelude::*;
use crate::common::{page_size_at, page_size_choice, PageSize};

verus! {

/// A table: its rows, the selected row, the first row of the visible page, the
/// expanded row (if any), the filter text and the page size.
pub struct TableState<T> {
    pub items: Vec<T>,
    pub selected: usize,
    pub loading: bool,
    pub filter: String,
    pub page_size: PageSize,
    pub expanded_item: Option<usize>,
    pub scroll_offset: usize,
}

/// The first visible row once row `selected`, followed by `detail_rows` rows,
/// is made to fit on a page of `page_size` rows that starts at `scroll`.
pub open spec fn scroll_for_expansion(selected: int, scroll: int, detail_rows: int, page_size: int) -> int {
    if selected + detail_rows >= scroll + page_size {
        min_int(selected, selected + detail_rows + 1 - page_size)
    } else {
        scroll
    }
}

/// Indices `0 .. n` of the rows that `keep` accepts, in order.
pub open spec fn kept_indices(n: nat, keep: spec_fn(int) -> bool) -> Seq<usize>
    decreases n,
{
    if n == 0 {
        Seq::empty()
    } else {
        let r = kept_indices((n - 1) as nat, keep);
        if keep(n - 1) {
            r.push((n - 1) as usize)
        } else {
            r
        }
    }
}

/// Every kept index is below `n`, and at most `n` indices are kept.
pub proof fn lemma_kept_indices_bounded(n: nat, keep: spec_fn(int) -> bool)
    ensures
        kept_indices(n, keep).len() <= n,
        forall|j: int| 0 <= j < kept_indices(n, keep).len() ==> #[trigger] kept_indices(n, keep)[j] < n,
    decreases n,
{
    if n > 0 {
        lemma_kept_indices_bounded((n - 1) as nat, keep);
    }
}

/// The first row of the page that holds `row`.
pub open spec fn page_start(row: usize, rows: usize) -> usize {
    if rows == 0 { 0 } else { (row - row % rows) as usize }
}

/// `min(a, b)`.
pub open spec fn min_int(a: int, b: int) -> int {
    if a < b { a } else { b }
}

impl<T> TableState<T> {
    /// Rows, loading flag, filter and page size are those of `other`.
    pub open spec fn same_content(self, other: Self) -> bool {
        &&& self.items@ == other.items@
        &&& self.loading == other.loading
        &&& self.filter@ == other.filter@
        &&& self.page_size == other.page_size
    }

    /// Only the cursor (selected row and visible page) moved.
    pub open spec fn cursor_moved(self, old: Self) -> bool {
        &&& self.same_content(old)
        &&& self.expanded_item == old.expanded_item
        &&& self.scroll_offset == page_start(self.selected, self.page_size.rows())
    }

    /// The cursor went one row down among `n` rows (nothing changed when `n == 0`).
    pub open spec fn moved_down(self, old: Self, n: int) -> bool {
        if n > 0 {
            self.selected == min_int(old.selected + 1, n - 1) && self.cursor_moved(old)
        } else {
            self == old
        }
    }

    /// The cursor went one row up, stopping at the first row.
    pub open spec fn moved_up(self, old: Self) -> bool {
        &&& self.selected == (if old.selected > 0 { old.selected - 1 } else { 0 })
        &&& self.cursor_moved(old)
    }

    /// The cursor went one page down among `n` rows (nothing changed when `n == 0`).
    pub open spec fn paged_down(self, old: Self, n: int) -> bool {
        if n > 0 {
            self.selected == min_int(old.selected + old.page_size.rows(), n - 1) && self.cursor_moved(
                old,
            )
        } else {
            self == old
        }
    }

    /// The cursor went one page up, stopping at the first row.
    pub open spec fn paged_up(self, old: Self) -> bool {
        &&& self.selected == (if old.selected > old.page_size.rows() {
            old.selected - old.page_size.rows()
        } else {
            0
        })
        &&& self.cursor_moved(old)
    }

    /// The selected row was opened, or closed when it was the open one.
    pub open spec fn expand_toggled(self, old: Self) -> bool {
        &&& self.expanded_item == (if old.expanded_item == Some(old.selected) {
            None
        } else {
            Some(old.selected)
        })
        &&& self.selected == old.selected
        &&& self.scroll_offset == old.scroll_offset
        &&& self.same_content(old)
    }

    /// The open row was closed.
    pub open spec fn collapsed(self, old: Self) -> bool {
        &&& self.expanded_item is None
        &&& self.selected == old.selected
        &&& self.scroll_offset == old.scroll_offset
        &&& self.same_content(old)
    }

    /// Back at the first row with no row open.
    pub open spec fn was_reset(self, old: Self) -> bool {
        &&& self.selected == 0
        &&& self.scroll_offset == 0
        &&& self.expanded_item is None
        &&& self.same_content(old)
    }

    /// Jumped to the first row of page `page` when it exists among `count` rows.
    pub open spec fn jumped(self, old: Self, page: int, count: int) -> bool {
        &&& page * old.page_size.rows() < count ==> self.selected == page * old.page_size.rows()
            && self.scroll_offset == self.selected
        &&& !(page * old.page_size.rows() < count) ==> self.selected == old.selected
            && self.scroll_offset == old.scroll_offset
        &&& self.expanded_item == old.expanded_item
        &&& self.same_content(old)
    }

    /// Selecting the next row and then the previous one returns to the row
    /// the cursor was on, unless it was on the last row; the rows stay.
    pub proof fn lemma_down_then_up(t0: Self, t1: Self, t2: Self, n: int)
        requires
            t1.moved_down(t0, n),
            t2.moved_up(t1),
            0 <= t0.selected < n - 1,
        ensures
            t2.selected == t0.selected,
            t2.items@ == t0.items@,
    {
    }

    /// An empty table with 50 rows per page.
    pub fn new() -> (r: Self)
        ensures
            r.items@.len() == 0,
            r.selected == 0,
            r.scroll_offset == 0,
            r.expanded_item is None,
            r.filter@.len() == 0,
            !r.loading,
            r.page_size == PageSize::Fifty,
    {
        TableState {
            items: Vec::new(),
            selected: 0,
            loading: false,
            filter: String::new(),
            page_size: PageSize::Fifty,
            expanded_item: None,
            scroll_offset: 0,
        }
    }

    fn snap(&mut self)
        ensures
            final(self).scroll_offset == page_start(old(self).selected, old(self).page_size.rows()),
            final(self).selected == old(self).selected,
            final(self).same_content(*old(self)),
            final(self).expanded_item == old(self).expanded_item,
    {
        let ps = self.page_size.value();
        let rem = self.selected % ps;
        assert(rem <= self.selected) by (nonlinear_arith)
            requires
                rem == self.selected % ps,
                ps > 0,
        {
        }
        self.scroll_offset = self.selected - rem;
    }

    /// Moves the visible page so that it holds the selected row.
    pub fn snap_to_page(&mut self)
        ensures
            final(self).selected == old(self).selected,
            final(self).cursor_moved(*old(self)),
    {
        self.snap();
    }

    /// Back to the first row, with no row expanded.
    pub fn reset(&mut self)
        ensures
            final(self).selected == 0,
            final(self).scroll_offset == 0,
            final(self).expanded_item is None,
            final(self).same_content(*old(self)),
    {
        self.selected = 0;
        self.scroll_offset = 0;
        self.expanded_item = None;
    }

    /// Selects the next row of `max` rows, stopping at the last one.
    pub fn next_item(&mut self, max: usize)
        ensures
            final(self).moved_down(*old(self), max as int),
    {
        if max > 0 {
            self.selected = if self.selected < max - 1 { self.selected + 1 } else { max - 1 };
            self.snap();
        }
    }

    /// Selects the previous row, stopping at the first one.
    pub fn prev_item(&mut self)
        ensures
            final(self).selected == (if old(self).selected > 0 { old(self).selected - 1 } else { 0 }),
            final(self).cursor_moved(*old(self)),
    {
        if self.selected > 0 {
            self.selected = self.selected - 1;
        }
        self.snap();
    }

    /// Moves one page down among `max` rows, stopping at the last one.
    pub fn page_down(&mut self, max: usize)
        ensures
            final(self).paged_down(*old(self), max as int),
    {
        if max > 0 {
            let ps = self.page_size.value();
            self.selected = if self.selected < max - 1 && max - 1 - self.selected > ps {
                self.selected + ps
            } else {
                max - 1
            };
            self.snap();
        }
    }

    /// Moves one page up, stopping at the first row.
    pub fn page_up(&mut self)
        ensures
            final(self).selected == (if old(self).selected > old(self).page_size.rows() {
                old(self).selected - old(self).page_size.rows()
            } else {
                0
            }),
            final(self).cursor_moved(*old(self)),
    {
        let ps = self.page_size.value();
        self.selected = if self.selected > ps { self.selected - ps } else { 0 };
        self.snap();
    }

    /// Expands the selected row, or collapses it when it is the expanded one.
    pub fn toggle_expand(&mut self)
        ensures
            final(self).expanded_item == (if old(self).expanded_item == Some(old(self).selected) {
                None
            } else {
                Some(old(self).selected)
            }),
            final(self).selected == old(self).selected,
            final(self).scroll_offset == old(self).scroll_offset,
            final(self).same_content(*old(self)),
    {
        let sel = self.selected;
        let is_open = match self.expanded_item {
            Some(e) => e == sel,
            None => false,
        };
        self.expanded_item = if is_open { None } else { Some(sel) };
    }

    /// Expands the selected row.
    pub fn expand(&mut self)
        ensures
            final(self).expanded_item == Some(old(self).selected),
            final(self).selected == old(self).selected,
            final(self).scroll_offset == old(self).scroll_offset,
            final(self).same_content(*old(self)),
    {
        self.expanded_item = Some(self.selected);
    }

    /// Collapses the expanded row.
    pub fn collapse(&mut self)
        ensures
            final(self).expanded_item is None,
            final(self).selected == old(self).selected,
            final(self).scroll_offset == old(self).scroll_offset,
            final(self).same_content(*old(self)),
    {
        self.expanded_item = None;
    }

    /// Whether a row is expanded.
    pub fn is_expanded(&self) -> (r: bool)
        ensures
            r == self.expanded_item is Some,
    {
        self.expanded_item.is_some()
    }

    /// Whether a row is expanded.
    pub fn has_expanded_item(&self) -> (r: bool)
        ensures
            r == self.expanded_item is Some,
    {
        self.expanded_item.is_some()
    }

    /// The cursor went one row down among `n` rows and the page follows it far
    /// enough that the `extra` rows shown below the selected row stay visible.
    pub open spec fn moved_down_keeping(self, old: Self, n: int, extra: int) -> bool {
        if n > 0 {
            let sel = min_int(old.selected + 1, n - 1);
            let ps = old.page_size.rows() as int;
            &&& self.selected == sel
            &&& self.scroll_offset == (if sel + extra >= old.scroll_offset + ps {
                sel + extra + 1 - ps
            } else {
                old.scroll_offset as int
            })
            &&& self.expanded_item == old.expanded_item
            &&& self.same_content(old)
        } else {
            self == old
        }
    }

    /// One row down among `max` rows, scrolling so that the `extra_rows` shown
    /// below the selected row stay on the page.
    pub fn next_item_with_expansion(&mut self, max: usize, extra_rows: usize)
        requires
            max + extra_rows <= usize::MAX,
        ensures
            final(self).moved_down_keeping(*old(self), max as int, extra_rows as int),
    {
        if max > 0 {
            self.selected = if self.selected < max - 1 { self.selected + 1 } else { max - 1 };
            let ps = self.page_size.value();
            let lhs = self.selected + extra_rows;
            if lhs >= ps && lhs - ps >= self.scroll_offset {
                self.scroll_offset = lhs + 1 - ps;
            }
        }
    }

    /// The page scrolled, when needed, so that the open row and the `detail_rows`
    /// below it fit in `page_size` rows, never past the selected row.
    pub open spec fn expansion_shown(self, old: Self, detail_rows: int, page_size: int) -> bool {
        &&& self.scroll_offset == scroll_for_expansion(old.selected as int, old.scroll_offset as int, detail_rows, page_size)
        &&& self.selected == old.selected
        &&& self.expanded_item == old.expanded_item
        &&& self.same_content(old)
    }

    /// Scrolls so that the open row and its `detail_rows` fit on the page.
    pub fn ensure_expansion_visible(&mut self, detail_rows: usize, page_size: usize)
        requires
            old(self).selected + detail_rows + 1 <= usize::MAX,
        ensures
            final(self).expansion_shown(*old(self), detail_rows as int, page_size as int),
    {
        let lhs = self.selected + detail_rows;
        if lhs >= page_size && lhs - page_size >= self.scroll_offset {
            let want = lhs + 1 - page_size;
            self.scroll_offset = if self.selected < want { self.selected } else { want };
        }
    }

    /// Jumps to the first row of page `page` (0-based) when that page exists
    /// among `count` rows.
    pub fn goto_page(&mut self, page: usize, count: usize)
        ensures
            page * old(self).page_size.rows() < count ==> final(self).selected == page
                * old(self).page_size.rows() && final(self).scroll_offset == final(self).selected,
            !(page * old(self).page_size.rows() < count) ==> final(self).selected == old(
                self,
            ).selected && final(self).scroll_offset == old(self).scroll_offset,
            final(self).expanded_item == old(self).expanded_item,
            final(self).same_content(*old(self)),
    {
        let ps = self.page_size.value();
        if page < count / ps + (if count % ps == 0 { 0 } else { 1 }) {
            proof {
                assert(page * ps < count) by (nonlinear_arith)
                    requires
                        page < count / ps + (if count % ps == 0 { 0int } else { 1int }),
                        ps > 0,
                {
                }
            }
            self.selected = page * ps;
            self.scroll_offset = self.selected;
        } else {
            proof {
                assert(!(page * ps < count)) by (nonlinear_arith)
                    requires
                        page >= count / ps + (if count % ps == 0 { 0int } else { 1int }),
                        ps > 0,
                {
                }
            }
        }
    }

    /// Changes the page size and returns to the first row.
    pub fn set_page_size(&mut self, ps: PageSize)
        ensures
            *final(self) == (TableState { page_size: ps, selected: 0, scroll_offset: 0, ..*old(self) }),
    {
        self.page_size = ps;
        self.selected = 0;
        self.scroll_offset = 0;
    }

    /// The row (an index into `items`) under the cursor, given the indices of the
    /// rows that pass the filter.
    pub fn get_selected(&self, filtered: &Vec<usize>) -> (r: Option<usize>)
        ensures
            r == (if self.selected < filtered@.len() {
                Some(filtered@[self.selected as int])
            } else {
                None
            }),
    {
        if self.selected < filtered.len() {
            Some(filtered[self.selected])
        } else {
            None
        }
    }
}

/// The table after picking the page size of preferences row `idx` after `n`
/// column rows (unchanged when the row is not a page-size row).
pub open spec fn page_size_picked<T>(new: TableState<T>, old: TableState<T>, idx: int, n: int) -> bool {
    match page_size_choice(idx, n) {
        Some(p) => new == TableState { page_size: p, selected: 0, scroll_offset: 0, ..old },
        None => new == old,
    }
}

/// Picks the page size of preferences row `idx` after `n` column rows.
pub fn set_page_size_by_idx<T>(table: &mut TableState<T>, idx: usize, n: usize)
    ensures
        page_size_picked(*final(table), *old(table), idx as int, n as int),
{
    match page_size_at(idx, n) {
        Some(p) => table.set_page_size(p),
        None => {},
    }
}

} // verus!

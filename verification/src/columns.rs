//! Column-visibility lists of the preferences panel.
use vstd::prelude::*;
use crate::common::ColumnId;
use crate::text::str_eq;

verus! {

/// The first position of a column named `c` in `s`, if any.
pub open spec fn first_position(s: Seq<Seq<char>>, c: Seq<char>) -> Option<int> {
    if exists|i: int| 0 <= i < s.len() && s[i] == c && forall|j: int| 0 <= j < i ==> s[j] != c {
        Some(choose|i: int| 0 <= i < s.len() && s[i] == c && forall|j: int| 0 <= j < i ==> s[j] != c)
    } else {
        None
    }
}

/// The names of a list of column ids.
pub open spec fn id_names(s: Seq<ColumnId>) -> Seq<Seq<char>> {
    s.map_values(|c: ColumnId| c@)
}

/// The names of a list of column names.
pub open spec fn string_names(s: Seq<String>) -> Seq<Seq<char>> {
    s.map_values(|c: String| c@)
}

/// Column `c` toggled in the visible list `s`: removed when present (unless it is
/// the only visible column and `keep_one` holds), appended when absent.
pub open spec fn toggled(s: Seq<Seq<char>>, c: Seq<char>, keep_one: bool) -> Seq<Seq<char>> {
    match first_position(s, c) {
        Some(p) => if keep_one && s.len() <= 1 { s } else { s.remove(p) },
        None => s.push(c),
    }
}

/// Showing a hidden column and then toggling it again hides it: the visible
/// columns are as before (when the last column is kept, this needs another
/// column to be visible already).
pub proof fn lemma_toggle_twice(s: Seq<Seq<char>>, c: Seq<char>, keep_one: bool)
    requires
        first_position(s, c) is None,
        !keep_one || s.len() > 0,
    ensures
        toggled(toggled(s, c, keep_one), c, keep_one) == s,
{
    let t = s.push(c);
    let n = s.len() as int;
    assert(forall|j: int| 0 <= j < n ==> t[j] != c) by {
        assert forall|j: int| 0 <= j < n implies t[j] != c by {
            if t[j] == c {
                lemma_first_match(s, c, j);
            }
        }
    }
    assert(0 <= n < t.len() && t[n] == c && forall|q: int| 0 <= q < n ==> t[q] != c);
    let p = choose|i: int| 0 <= i < t.len() && t[i] == c && forall|q: int| 0 <= q < i ==> t[q] != c;
    assert(p == n) by {
        if p < n {
            assert(t[p] != c);
        } else if p > n {
            assert(t[n] != c);
        }
    }
    assert(t.remove(n) =~= s);
}

/// Where `c` occurs in `s`, it occurs a first time.
proof fn lemma_first_match(s: Seq<Seq<char>>, c: Seq<char>, j: int)
    requires
        0 <= j < s.len(),
        s[j] == c,
    ensures
        exists|i: int| 0 <= i < s.len() && s[i] == c && forall|q: int| 0 <= q < i ==> s[q] != c,
    decreases j,
{
    if exists|q: int| 0 <= q < j && s[q] == c {
        let q = choose|q: int| 0 <= q < j && s[q] == c;
        lemma_first_match(s, c, q);
    } else {
        assert(forall|q: int| 0 <= q < j ==> s[q] != c);
    }
}

fn position_id(s: &Vec<ColumnId>, c: &str) -> (r: Option<usize>)
    ensures
        match r {
            Some(p) => first_position(id_names(s@), c@) == Some(p as int),
            None => first_position(id_names(s@), c@) is None,
        },
{
    let n = s.len();
    let mut i: usize = 0;
    while i < n
        invariant
            n == s@.len(),
            i <= n,
            forall|j: int| 0 <= j < i ==> id_names(s@)[j] != c@,
        decreases n - i,
    {
        if str_eq(s[i], c) {
            proof {
                let names = id_names(s@);
                assert(names[i as int] == c@);
                let w = choose|k: int| 0 <= k < names.len() && names[k] == c@ && forall|j: int| 0 <= j < k ==> names[j] != c@;
                if w < i {
                    assert(names[w] != c@);
                } else if w > i {
                    assert(names[i as int] != c@);
                }
            }
            return Some(i);
        }
        i = i + 1;
    }
    None
}

fn position_string(s: &Vec<String>, c: &str) -> (r: Option<usize>)
    ensures
        match r {
            Some(p) => first_position(string_names(s@), c@) == Some(p as int),
            None => first_position(string_names(s@), c@) is None,
        },
{
    let n = s.len();
    let mut i: usize = 0;
    while i < n
        invariant
            n == s@.len(),
            i <= n,
            forall|j: int| 0 <= j < i ==> string_names(s@)[j] != c@,
        decreases n - i,
    {
        if str_eq(s[i].as_str(), c) {
            proof {
                let names = string_names(s@);
                assert(names[i as int] == c@);
                let w = choose|k: int| 0 <= k < names.len() && names[k] == c@ && forall|j: int| 0 <= j < k ==> names[j] != c@;
                if w < i {
                    assert(names[w] != c@);
                } else if w > i {
                    assert(names[i as int] != c@);
                }
            }
            return Some(i);
        }
        i = i + 1;
    }
    None
}

/// Toggles column `col` in the visible list (see `toggled`).
pub fn toggle_id(visible: &mut Vec<ColumnId>, col: ColumnId, keep_one: bool)
    ensures
        id_names(final(visible)@) == toggled(id_names(old(visible)@), col@, keep_one),
{
    match position_id(visible, col) {
        Some(p) => {
            if !keep_one || visible.len() > 1 {
                visible.remove(p);
                assert(id_names(final(visible)@) =~= id_names(old(visible)@).remove(p as int));
            }
        },
        None => {
            visible.push(col);
            assert(id_names(final(visible)@) =~= id_names(old(visible)@).push(col@));
        },
    }
}

/// Toggles the column named `col` in a visible list of names (see `toggled`).
pub fn toggle_string(visible: &mut Vec<String>, col: &String, keep_one: bool)
    ensures
        string_names(final(visible)@) == toggled(string_names(old(visible)@), col@, keep_one),
{
    match position_string(visible, col.as_str()) {
        Some(p) => {
            if !keep_one || visible.len() > 1 {
                visible.remove(p);
                assert(string_names(final(visible)@) =~= string_names(old(visible)@).remove(p as int));
            }
        },
        None => {
            visible.push(col.clone());
            assert(string_names(final(visible)@) =~= string_names(old(visible)@).push(col@));
        },
    }
}

/// The preferences row `idx` (1-based among the `all` columns) toggled in
/// `visible`; rows outside `1 ..= all.len()` leave it as it is.
pub open spec fn toggled_at(visible: Seq<Seq<char>>, all: Seq<Seq<char>>, idx: int, keep_one: bool) -> Seq<Seq<char>> {
    if 0 < idx <= all.len() {
        toggled(visible, all[idx - 1], keep_one)
    } else {
        visible
    }
}

/// Toggles the column on preferences row `idx` (1-based) of `all` in `visible`.
pub fn toggle_visible(visible: &mut Vec<ColumnId>, all: &Vec<ColumnId>, idx: usize, keep_one: bool)
    ensures
        id_names(final(visible)@) == toggled_at(id_names(old(visible)@), id_names(all@), idx as int, keep_one),
{
    if idx > 0 && idx <= all.len() {
        let col = all[idx - 1];
        toggle_id(visible, col, keep_one);
    }
}

/// Toggles the column on preferences row `idx` (1-based) of `all` in `visible`.
pub fn toggle_visible_strings(visible: &mut Vec<String>, all: &Vec<String>, idx: usize, keep_one: bool)
    ensures
        string_names(final(visible)@) == toggled_at(
            string_names(old(visible)@),
            string_names(all@),
            idx as int,
            keep_one,
        ),
{
    if idx > 0 && idx <= all.len() {
        toggle_string(visible, &all[idx - 1], keep_one);
    }
}

} // verus!

//! Shared vocabulary of the console: filter focus, page sizes, column labels and
//! the small text formatters used by every service view.
use vstd::prelude::*;
use vstd::std_specs::cmp::PartialEqSpecImpl;
use vstd::string::*;
use vstd::arithmetic::div_mod::{lemma_mod_add_multiples_vanish, lemma_small_mod};
use crate::text::{count_char, digit_char, decimal, owned, push_char, push_decimal, push_signed_decimal, signed_decimal, str_eq};

verus! {

/// Identifier of a table column (a translation key such as `column.ec2.instance.name`).
pub type ColumnId = &'static str;

/// Width of a `YYYY-MM-DD HH:MM:SS (UTC)` timestamp column.
pub const UTC_TIMESTAMP_WIDTH: u16 = 27;

// ── Translations ─────────────────────────────────────────────────────────────

/// User translations of labels, keyed by translation key.
pub struct Translations {
    pub entries: Vec<(String, String)>,
}

/// The translation of `key` among `entries`: the value of the first entry with
/// that key, if any.
pub open spec fn lookup(entries: Seq<(String, String)>, key: Seq<char>) -> Option<Seq<char>>
    decreases entries.len(),
{
    if entries.len() == 0 {
        None
    } else if entries[0].0@ == key {
        Some(entries[0].1@)
    } else {
        lookup(entries.drop_first(), key)
    }
}

proof fn lemma_lookup_push(entries: Seq<(String, String)>, e: (String, String), key: Seq<char>)
    ensures
        lookup(entries.push(e), key) == (match lookup(entries, key) {
            Some(v) => Some(v),
            None => if e.0@ == key { Some(e.1@) } else { None },
        }),
    decreases entries.len(),
{
    if entries.len() > 0 {
        assert(entries.push(e)[0] == entries[0]);
        assert(entries.push(e).drop_first() =~= entries.drop_first().push(e));
        lemma_lookup_push(entries.drop_first(), e, key);
    } else {
        assert(entries.push(e)[0] == e);
        assert(entries.push(e).drop_first() =~= Seq::<(String, String)>::empty());
        assert(lookup(Seq::<(String, String)>::empty(), key) is None);
    }
}

impl Translations {
    /// No translations: every label shows its default text.
    pub fn empty() -> (r: Self)
        ensures
            r.entries@.len() == 0,
    {
        Translations { entries: Vec::new() }
    }

    fn find(&self, key: &str) -> (r: Option<usize>)
        ensures
            match r {
                Some(i) => i < self.entries@.len() && lookup(self.entries@, key@) == Some(
                    self.entries@[i as int].1@,
                ),
                None => lookup(self.entries@, key@) is None,
            },
    {
        let n = self.entries.len();
        let mut i: usize = 0;
        assert(self.entries@.skip(0) =~= self.entries@);
        while i < n
            invariant
                n == self.entries@.len(),
                i <= n,
                lookup(self.entries@, key@) == lookup(self.entries@.skip(i as int), key@),
            decreases n - i,
        {
            let ghost rest = self.entries@.skip(i as int);
            assert(rest[0] == self.entries@[i as int]);
            if str_eq(self.entries[i].0.as_str(), key) {
                return Some(i);
            }
            assert(rest.drop_first() =~= self.entries@.skip(i + 1));
            i = i + 1;
        }
        None
    }

    /// The translation of `key`, or `key` itself when there is none.
    pub fn t(&self, key: &str) -> (r: String)
        ensures
            r@ == match lookup(self.entries@, key@) {
                Some(v) => v,
                None => key@,
            },
    {
        match self.find(key) {
            Some(i) => self.entries[i].1.clone(),
            None => owned(key),
        }
    }

    /// The label of a column: its translation, unless the translation is missing
    /// or equals the key itself, in which case `default`.
    pub fn translate_column(&self, key: &str, default: &str) -> (r: String)
        ensures
            r@ == translated_label(self.entries@, key@, default@),
    {
        let tr = self.t(key);
        if str_eq(tr.as_str(), key) {
            owned(default)
        } else {
            tr
        }
    }

    /// Records `value` as the translation of `key` unless `key` already has one.
    pub fn set_default(&mut self, key: &str, value: &str)
        ensures
            forall|k: Seq<char>| #[trigger] lookup(final(self).entries@, k) == (match lookup(old(self).entries@, k) {
                Some(v) => Some(v),
                None => if k == key@ { Some(value@) } else { None },
            }),
    {
        match self.find(key) {
            Some(_) => {
                assert forall|k: Seq<char>| #[trigger] lookup(final(self).entries@, k) == (match lookup(old(self).entries@, k) {
                    Some(v) => Some(v),
                    None => if k == key@ { Some(value@) } else { None },
                }) by {}
            },
            None => {
                let ghost old_entries = self.entries@;
                let e = (owned(key), owned(value));
                self.entries.push(e);
                assert forall|k: Seq<char>| #[trigger] lookup(final(self).entries@, k) == (match lookup(old(self).entries@, k) {
                    Some(v) => Some(v),
                    None => if k == key@ { Some(value@) } else { None },
                }) by {
                    lemma_lookup_push(old_entries, e, k);
                    if k == key@ {
                    }
                }
            },
        }
    }
}

/// What `translate_column` shows for `key`.
pub open spec fn translated_label(entries: Seq<(String, String)>, key: Seq<char>, default: Seq<char>) -> Seq<char> {
    match lookup(entries, key) {
        Some(v) => if v == key { default } else { v },
        None => default,
    }
}

/// The width of a column whose label is `label`: the label's length in UTF-8
/// bytes, or `base` where that is larger, cut to 16 bits.
pub open spec fn label_width(label: Seq<char>, base: usize) -> u16 {
    let n = vstd::utf8::encode_utf8(label).len() as usize;
    (if n > base { n } else { base }) as u16
}

/// The width of a column: its translated label's byte length, at least `base`.
pub fn column_width(tr: &Translations, key: &str, default: &str, base: usize) -> (r: u16)
    ensures
        r == label_width(translated_label(tr.entries@, key@, default@), base),
{
    let label = tr.translate_column(key, default);
    let n = label.as_str().len();
    let w = if n > base { n } else { base };
    w as u16
}

/// The value paired with the first occurrence of `k` in `keys`, if any.
pub open spec fn first_value(keys: Seq<Seq<char>>, values: Seq<Seq<char>>, k: Seq<char>) -> Option<Seq<char>>
    decreases keys.len(),
{
    if keys.len() == 0 {
        None
    } else if keys[0] == k {
        Some(values[0])
    } else {
        first_value(keys.drop_first(), values.drop_first(), k)
    }
}

/// The translation of `k` after defaults are laid under the translation
/// `current`: an existing translation stays, else the first default for `k`.
pub open spec fn with_defaults(
    current: Option<Seq<char>>,
    keys: Seq<Seq<char>>,
    values: Seq<Seq<char>>,
    k: Seq<char>,
) -> Option<Seq<char>> {
    match current {
        Some(v) => Some(v),
        None => first_value(keys, values, k),
    }
}

/// Laying down the same default labels twice leaves what laying them down
/// once leaves: a key keeps the label it got the first time.
pub proof fn lemma_defaults_idempotent(
    current: Option<Seq<char>>,
    keys: Seq<Seq<char>>,
    values: Seq<Seq<char>>,
    k: Seq<char>,
)
    ensures
        with_defaults(with_defaults(current, keys, values, k), keys, values, k) == with_defaults(current, keys, values, k),
{
}

/// A key that already has a label keeps it, whatever defaults are laid down.
pub proof fn lemma_defaults_keep(v: Seq<char>, keys: Seq<Seq<char>>, values: Seq<Seq<char>>, k: Seq<char>)
    ensures
        with_defaults(Some(v), keys, values, k) == Some(v),
{
}

proof fn lemma_first_value_push(
    keys: Seq<Seq<char>>,
    values: Seq<Seq<char>>,
    key: Seq<char>,
    value: Seq<char>,
    k: Seq<char>,
)
    requires
        keys.len() == values.len(),
    ensures
        first_value(keys.push(key), values.push(value), k) == (match first_value(keys, values, k) {
            Some(v) => Some(v),
            None => if key == k { Some(value) } else { None },
        }),
    decreases keys.len(),
{
    if keys.len() > 0 {
        assert(keys.push(key)[0] == keys[0]);
        assert(values.push(value)[0] == values[0]);
        assert(keys.push(key).drop_first() =~= keys.drop_first().push(key));
        assert(values.push(value).drop_first() =~= values.drop_first().push(value));
        lemma_first_value_push(keys.drop_first(), values.drop_first(), key, value, k);
    } else {
        assert(keys.push(key)[0] == key);
        assert(values.push(value)[0] == value);
        assert(keys.push(key).drop_first() =~= Seq::<Seq<char>>::empty());
        assert(first_value(Seq::<Seq<char>>::empty(), values.push(value).drop_first(), k) is None);
    }
}

impl Translations {
    /// Lays `values[i]` under the translation of `keys[i]`, for each `i` in
    /// order: a key that already has a translation keeps it.
    pub fn set_defaults(&mut self, keys: &Vec<ColumnId>, values: &Vec<&'static str>)
        requires
            keys@.len() == values@.len(),
        ensures
            forall|k: Seq<char>| #[trigger] lookup(final(self).entries@, k) == with_defaults(
                lookup(old(self).entries@, k),
                keys@.map_values(|s: &str| s@),
                values@.map_values(|s: &str| s@),
                k,
            ),
    {
        let n = keys.len();
        let mut i: usize = 0;
        let ghost kv = keys@.map_values(|s: &str| s@);
        let ghost vv = values@.map_values(|s: &str| s@);
        assert forall|k: Seq<char>| #[trigger] lookup(self.entries@, k) == with_defaults(
            lookup(old(self).entries@, k), kv.take(0), vv.take(0), k) by {}
        while i < n
            invariant
                n == keys@.len(),
                n == values@.len(),
                i <= n,
                kv == keys@.map_values(|s: &str| s@),
                vv == values@.map_values(|s: &str| s@),
                forall|k: Seq<char>| #[trigger] lookup(self.entries@, k) == with_defaults(
                    lookup(old(self).entries@, k), kv.take(i as int), vv.take(i as int), k),
            decreases n - i,
        {
            let ghost before = self.entries@;
            self.set_default(keys[i], values[i]);
            assert(kv.take(i + 1) =~= kv.take(i as int).push(keys@[i as int]@));
            assert(vv.take(i + 1) =~= vv.take(i as int).push(values@[i as int]@));
            assert forall|k: Seq<char>| #[trigger] lookup(self.entries@, k) == with_defaults(
                lookup(old(self).entries@, k), kv.take(i + 1), vv.take(i + 1), k) by {
                lemma_first_value_push(kv.take(i as int), vv.take(i as int), keys@[i as int]@, values@[i as int]@, k);
                assert(lookup(before, k) == with_defaults(
                    lookup(old(self).entries@, k), kv.take(i as int), vv.take(i as int), k));
            }
            i = i + 1;
        }
        assert(kv.take(n as int) =~= kv);
        assert(vv.take(n as int) =~= vv);
    }
}

/// Moves `selected` `step` rows down, stopping at the last of `max` rows; with
/// no rows it stays.
pub fn nav_page_down(selected: &mut usize, max: usize, step: usize)
    ensures
        max > 0 ==> *final(selected) == crate::table::min_int(*old(selected) + step, max - 1),
        max == 0 ==> *final(selected) == *old(selected),
{
    if max > 0 {
        let last = max - 1;
        *selected = if *selected < last && last - *selected > step { *selected + step } else { last };
    }
}

/// The position of the first `x` in `names`, if any.
pub open spec fn first_index_of(names: Seq<Seq<char>>, x: Seq<char>) -> Option<int>
    decreases names.len(),
{
    if names.len() == 0 {
        None
    } else if first_index_of(names.drop_last(), x) is Some {
        first_index_of(names.drop_last(), x)
    } else if names.last() == x {
        Some(names.len() - 1)
    } else {
        None
    }
}

/// Once `x` occurs in a prefix, longer prefixes find it at the same place.
pub proof fn lemma_first_index_of_prefix(names: Seq<Seq<char>>, x: Seq<char>, i: int)
    requires
        0 <= i <= names.len(),
        first_index_of(names.take(i), x) is Some,
    ensures
        first_index_of(names, x) == first_index_of(names.take(i), x),
    decreases names.len() - i,
{
    if i < names.len() {
        assert(names.take(i + 1).drop_last() =~= names.take(i));
        lemma_first_index_of_prefix(names, x, i + 1);
    } else {
        assert(names.take(i) =~= names);
    }
}

/// Where `first_index_of` points, `x` stands, and not before.
pub proof fn lemma_first_index_of_found(names: Seq<Seq<char>>, x: Seq<char>)
    ensures
        first_index_of(names, x) matches Some(j) ==> 0 <= j < names.len() && names[j] == x,
        first_index_of(names, x) is None ==> forall|k: int| 0 <= k < names.len() ==> names[k] != x,
    decreases names.len(),
{
    if names.len() > 0 {
        lemma_first_index_of_found(names.drop_last(), x);
        assert forall|k: int| 0 <= k < names.len() - 1 implies names.drop_last()[k] == names[k] by {}
    }
}

/// The number of pages of `ps` rows that hold `n` rows: `n / ps` rounded up.
pub fn div_ceil(n: usize, ps: usize) -> (r: usize)
    requires
        ps > 0,
    ensures
        r == (n + ps - 1) / ps as int,
        n > 0 ==> (r - 1) * ps < n,
        r * ps >= n,
        r <= n,
        ps == 1 ==> r == n,
{
    proof {
        lemma_div_ceil(n as int, ps as int);
    }
    if n % ps == 0 {
        n / ps
    } else {
        assert(n / ps < n) by (nonlinear_arith)
            requires ps > 1, n > 0;
        n / ps + 1
    }
}

/// `(n + ps - 1) / ps` is `n / ps`, plus one when `ps` does not divide `n`; the
/// pages it counts cover `n` rows and no more than needed.
pub proof fn lemma_div_ceil(n: int, ps: int)
    requires
        ps > 0,
        n >= 0,
    ensures
        (n + ps - 1) / ps == n / ps + if n % ps == 0 { 0int } else { 1int },
        n > 0 ==> ((n + ps - 1) / ps - 1) * ps < n,
        ((n + ps - 1) / ps) * ps >= n,
        (n + ps - 1) / ps <= n || n == 0,
        ps == 1 ==> (n + ps - 1) / ps == n,
        n % ps != 0 ==> ps > 1 && n > 0,
{
    assert((n + ps - 1) / ps == n / ps + if n % ps == 0 { 0int } else { 1int }) by (nonlinear_arith)
        requires ps > 0, n >= 0;
    assert(n > 0 ==> ((n + ps - 1) / ps - 1) * ps < n) by (nonlinear_arith)
        requires ps > 0, n >= 0;
    assert(((n + ps - 1) / ps) * ps >= n) by (nonlinear_arith)
        requires ps > 0, n >= 0;
    assert((n + ps - 1) / ps <= n || n == 0) by (nonlinear_arith)
        requires ps > 0, n >= 0;
    assert(n % ps != 0 ==> ps > 1 && n > 0) by (nonlinear_arith)
        requires ps > 0, n >= 0;
}

// ── Focus within a filter bar ────────────────────────────────────────────────

/// Which control of a list's filter bar has the keyboard focus.
#[derive(Clone, Copy, Debug)]
pub enum InputFocus {
    Filter,
    Pagination,
    Dropdown(&'static str),
    Checkbox(&'static str),
}

impl InputFocus {
    /// Two focus values denote the same control.
    pub open spec fn same(self, other: InputFocus) -> bool {
        match (self, other) {
            (InputFocus::Filter, InputFocus::Filter) => true,
            (InputFocus::Pagination, InputFocus::Pagination) => true,
            (InputFocus::Dropdown(a), InputFocus::Dropdown(b)) => a@ == b@,
            (InputFocus::Checkbox(a), InputFocus::Checkbox(b)) => a@ == b@,
            _ => false,
        }
    }

    /// Whether the two focus values denote the same control.
    pub fn is(&self, other: &InputFocus) -> (r: bool)
        ensures
            r == self.same(*other),
    {
        match (self, other) {
            (InputFocus::Filter, InputFocus::Filter) => true,
            (InputFocus::Pagination, InputFocus::Pagination) => true,
            (InputFocus::Dropdown(a), InputFocus::Dropdown(b)) => str_eq(a, b),
            (InputFocus::Checkbox(a), InputFocus::Checkbox(b)) => str_eq(a, b),
            _ => false,
        }
    }

    /// The focus after `self` in the cycle `controls` (`self` when there are no
    /// controls; a focus absent from `controls` counts as the first one).
    pub fn next(&self, controls: &[InputFocus]) -> (r: InputFocus)
        ensures
            r == cycle_next(controls@, *self),
    {
        if controls.len() == 0 {
            return *self;
        }
        let idx = position_of(controls, self);
        controls[(idx + 1) % controls.len()]
    }

    /// The focus before `self` in the cycle `controls`.
    pub fn prev(&self, controls: &[InputFocus]) -> (r: InputFocus)
        ensures
            r == cycle_prev(controls@, *self),
    {
        if controls.len() == 0 {
            return *self;
        }
        let idx = position_of(controls, self);
        let n = controls.len();
        let j = if idx == 0 { n - 1 } else { idx - 1 };
        proof {
            if idx == 0 {
                lemma_small_mod((n - 1) as nat, n as nat);
            } else {
                lemma_mod_add_multiples_vanish(idx - 1, n as int);
                lemma_small_mod((idx - 1) as nat, n as nat);
            }
            assert(j == (idx + n - 1) % (n as int));
        }
        controls[j]
    }

    /// Moves `selected` one page down when the pagination control has the focus:
    /// it advances by `page_size` but stops at `filtered_count - page_size`, and
    /// the scroll position follows it.
    pub fn handle_page_down(
        &self,
        selected: &mut usize,
        scroll_offset: &mut usize,
        page_size: usize,
        filtered_count: usize,
    )
        requires
            self.same(InputFocus::Pagination) ==> *old(selected) + page_size <= usize::MAX,
        ensures
            self.same(InputFocus::Pagination) ==> {
                &&& *final(selected) == min_usize(
                    (*old(selected) + page_size) as usize,
                    sat_sub(filtered_count, page_size),
                )
                &&& *final(scroll_offset) == *final(selected)
            },
            !self.same(InputFocus::Pagination) ==> *final(selected) == *old(selected)
                && *final(scroll_offset) == *old(scroll_offset),
    {
        if self.is(&InputFocus::Pagination) {
            let max_offset = if filtered_count > page_size { filtered_count - page_size } else { 0 };
            let next = *selected + page_size;
            *selected = if next < max_offset { next } else { max_offset };
            *scroll_offset = *selected;
        }
    }

    /// Moves `selected` one page up when the pagination control has the focus.
    pub fn handle_page_up(&self, selected: &mut usize, scroll_offset: &mut usize, page_size: usize)
        ensures
            self.same(InputFocus::Pagination) ==> {
                &&& *final(selected) == sat_sub(*old(selected), page_size)
                &&& *final(scroll_offset) == *final(selected)
            },
            !self.same(InputFocus::Pagination) ==> *final(selected) == *old(selected)
                && *final(scroll_offset) == *old(scroll_offset),
    {
        if self.is(&InputFocus::Pagination) {
            *selected = if *selected > page_size { *selected - page_size } else { 0 };
            *scroll_offset = *selected;
        }
    }
}

impl PartialEq for InputFocus {
    fn eq(&self, other: &Self) -> (r: bool) {
        self.is(other)
    }
}

impl PartialEqSpecImpl for InputFocus {
    open spec fn obeys_eq_spec() -> bool {
        true
    }

    open spec fn eq_spec(&self, other: &InputFocus) -> bool {
        self.same(*other)
    }
}

/// `a - b`, or 0 when `b > a`.
pub open spec fn sat_sub(a: usize, b: usize) -> usize {
    if a > b { (a - b) as usize } else { 0 }
}

/// The smaller of two numbers.
pub open spec fn min_usize(a: usize, b: usize) -> usize {
    if a < b { a } else { b }
}

/// The first index of a control equal to `f` in `s`.
pub open spec fn is_first_same(s: Seq<InputFocus>, f: InputFocus, i: int) -> bool {
    &&& 0 <= i < s.len()
    &&& s[i].same(f)
    &&& forall|j: int| 0 <= j < i ==> !(#[trigger] s[j]).same(f)
}

/// Where `f` stands in `s`: its first position, or 0 when it is absent.
pub open spec fn focus_position(s: Seq<InputFocus>, f: InputFocus) -> int {
    if exists|i: int| is_first_same(s, f, i) {
        choose|i: int| is_first_same(s, f, i)
    } else {
        0
    }
}

/// The control after `f` in the cycle `s`.
pub open spec fn cycle_next(s: Seq<InputFocus>, f: InputFocus) -> InputFocus {
    if s.len() == 0 {
        f
    } else {
        s[(focus_position(s, f) + 1) % (s.len() as int)]
    }
}

/// The control before `f` in the cycle `s`.
pub open spec fn cycle_prev(s: Seq<InputFocus>, f: InputFocus) -> InputFocus {
    if s.len() == 0 {
        f
    } else {
        s[(focus_position(s, f) + s.len() - 1) % (s.len() as int)]
    }
}

proof fn lemma_first_unique(s: Seq<InputFocus>, f: InputFocus, i: int, k: int)
    requires
        is_first_same(s, f, i),
        is_first_same(s, f, k),
    ensures
        i == k,
{
    if i < k {
        assert(!s[i].same(f));
    } else if k < i {
        assert(!s[k].same(f));
    }
}

/// Controls no two of which are the same control.
pub open spec fn distinct_controls(s: Seq<InputFocus>) -> bool {
    forall|a: int, b: int| 0 <= a < b < s.len() ==> !(#[trigger] s[a]).same(#[trigger] s[b])
}

/// In a list of distinct controls, control `k` stands at position `k`.
proof fn lemma_position_of_distinct(s: Seq<InputFocus>, k: int)
    requires
        distinct_controls(s),
        0 <= k < s.len(),
    ensures
        focus_position(s, s[k]) == k,
{
    assert(s[k].same(s[k]));
    assert(is_first_same(s, s[k], k));
    let i = choose|i: int| is_first_same(s, s[k], i);
    lemma_first_unique(s, s[k], i, k);
}

/// In a cycle of distinct controls, moving the focus forward and then back
/// returns it to the control it was on, and so does moving back, then
/// forward.
pub proof fn lemma_focus_cycle(s: Seq<InputFocus>, i: int)
    requires
        distinct_controls(s),
        0 <= i < s.len(),
    ensures
        cycle_prev(s, cycle_next(s, s[i])) == s[i],
        cycle_next(s, cycle_prev(s, s[i])) == s[i],
{
    let n = s.len() as int;
    lemma_position_of_distinct(s, i);
    let j = (i + 1) % n;
    let k = (i + n - 1) % n;
    assert(0 <= j < n && 0 <= k < n);
    lemma_position_of_distinct(s, j);
    lemma_position_of_distinct(s, k);
    if i + 1 < n {
        assert(j == i + 1) by {
            lemma_small_mod((i + 1) as nat, n as nat);
        }
        assert((j + n - 1) % n == i) by {
            assert(j + n - 1 == i + n);
            vstd::arithmetic::div_mod::lemma_mod_add_multiples_vanish(i, n);
            lemma_small_mod(i as nat, n as nat);
        }
    } else {
        assert(i + 1 == n);
        assert(j == 0) by {
            vstd::arithmetic::div_mod::lemma_mod_self_0(n);
        }
        assert((j + n - 1) % n == i) by {
            lemma_small_mod((n - 1) as nat, n as nat);
        }
    }
    if i > 0 {
        assert(k == i - 1) by {
            assert(i + n - 1 == (i - 1) + n);
            vstd::arithmetic::div_mod::lemma_mod_add_multiples_vanish(i - 1, n);
            lemma_small_mod((i - 1) as nat, n as nat);
        }
        assert((k + 1) % n == i) by {
            lemma_small_mod(i as nat, n as nat);
        }
    } else {
        assert(k == n - 1) by {
            lemma_small_mod((n - 1) as nat, n as nat);
        }
        assert((k + 1) % n == 0) by {
            vstd::arithmetic::div_mod::lemma_mod_self_0(n);
        }
    }
}

/// In a list of distinct controls, a focus that denotes control `i` stands
/// at position `i`.
proof fn lemma_position_of_same(s: Seq<InputFocus>, f: InputFocus, i: int)
    requires
        distinct_controls(s),
        0 <= i < s.len(),
        s[i].same(f),
    ensures
        focus_position(s, f) == i,
{
    assert forall|j: int| 0 <= j < i implies !(#[trigger] s[j]).same(f) by {
        assert(!s[j].same(s[i]));
    }
    assert(is_first_same(s, f, i));
    let k = choose|k: int| is_first_same(s, f, k);
    lemma_first_unique(s, f, k, i);
}

/// The focus cycle for any focus value: with no controls the focus stays
/// where it is; among distinct controls, a focus that denotes one of them
/// (by kind and name) comes back to that control after a step forward and
/// one back, or back and forward, and each step lands on one of the
/// controls.
pub proof fn lemma_focus_cycle_any(s: Seq<InputFocus>, f: InputFocus)
    ensures
        s.len() == 0 ==> cycle_next(s, f) == f && cycle_prev(s, f) == f,
        distinct_controls(s) && (exists|i: int| 0 <= i < s.len() && #[trigger] s[i].same(f)) ==> {
            &&& cycle_prev(s, cycle_next(s, f)).same(f)
            &&& cycle_next(s, cycle_prev(s, f)).same(f)
            &&& s.contains(cycle_next(s, f))
            &&& s.contains(cycle_prev(s, f))
        },
{
    if distinct_controls(s) && (exists|i: int| 0 <= i < s.len() && #[trigger] s[i].same(f)) {
        let i = choose|i: int| 0 <= i < s.len() && #[trigger] s[i].same(f);
        lemma_position_of_same(s, f, i);
        lemma_position_of_distinct(s, i);
        lemma_focus_cycle(s, i);
        let n = s.len() as int;
        let j = (i + 1) % n;
        let k = (i + n - 1) % n;
        assert(0 <= j < n && 0 <= k < n) by (nonlinear_arith)
            requires
                j == (i + 1) % n,
                k == (i + n - 1) % n,
                n > 0,
        ;
        assert(cycle_next(s, f) == s[j]);
        assert(cycle_prev(s, f) == s[k]);
    }
}

fn position_of(controls: &[InputFocus], f: &InputFocus) -> (r: usize)
    ensures
        r == focus_position(controls@, *f),
        controls@.len() > 0 ==> r < controls@.len(),
{
    let n = controls.len();
    let mut i: usize = 0;
    while i < n
        invariant
            n == controls@.len(),
            i <= n,
            forall|j: int| 0 <= j < i ==> !(#[trigger] controls@[j]).same(*f),
        decreases n - i,
    {
        if controls[i].is(f) {
            assert(is_first_same(controls@, *f, i as int));
            proof {
                let c = choose|k: int| is_first_same(controls@, *f, k);
                lemma_first_unique(controls@, *f, i as int, c);
            }
            return i;
        }
        i = i + 1;
    }
    assert(!exists|k: int| is_first_same(controls@, *f, k)) by {
        assert forall|k: int| !is_first_same(controls@, *f, k) by {
            if 0 <= k < n {
                assert(!controls@[k].same(*f));
            }
        }
    }
    0
}

// ── Page sizes ───────────────────────────────────────────────────────────────

/// Number of rows shown on one page of a table.
#[derive(Clone, Copy, Debug, PartialEq, Eq, Structural)]
pub enum PageSize {
    Ten,
    TwentyFive,
    Fifty,
    OneHundred,
}

impl PageSize {
    /// The number of rows of this page size.
    pub open spec fn rows(self) -> usize {
        match self {
            PageSize::Ten => 10,
            PageSize::TwentyFive => 25,
            PageSize::Fifty => 50,
            PageSize::OneHundred => 100,
        }
    }

    /// The number of rows of this page size.
    pub fn value(&self) -> (r: usize)
        ensures
            r == self.rows(),
            10 <= r <= 100,
    {
        match self {
            PageSize::Ten => 10,
            PageSize::TwentyFive => 25,
            PageSize::Fifty => 50,
            PageSize::OneHundred => 100,
        }
    }
}

/// Sort order of a column.
#[derive(Clone, Copy, Debug, PartialEq, Eq, Structural)]
pub enum SortDirection {
    Asc,
    Desc,
}

impl SortDirection {
    /// The label of the direction: `ASC` or `DESC`.
    pub fn as_str(&self) -> (r: &'static str)
        ensures
            r@ == (match self {
                SortDirection::Asc => "ASC"@,
                SortDirection::Desc => "DESC"@,
            }),
    {
        match self {
            SortDirection::Asc => "ASC",
            SortDirection::Desc => "DESC",
        }
    }
}

/// Kind of value a column holds.
#[derive(Clone, Copy, Debug, PartialEq, Eq, Structural)]
pub enum ColumnType {
    String,
    Number,
    DateTime,
    Boolean,
}

/// A new page-size choice for row `idx` of the preferences panel that follows
/// `n` column rows: rows `n+3 ..= n+6` choose 10, 25, 50 or 100 rows.
pub open spec fn page_size_choice(idx: int, n: int) -> Option<PageSize> {
    if idx == n + 3 {
        Some(PageSize::Ten)
    } else if idx == n + 4 {
        Some(PageSize::TwentyFive)
    } else if idx == n + 5 {
        Some(PageSize::Fifty)
    } else if idx == n + 6 {
        Some(PageSize::OneHundred)
    } else {
        None
    }
}

/// The page-size choice of preferences row `idx` after `n` column rows.
pub fn page_size_at(idx: usize, n: usize) -> (r: Option<PageSize>)
    ensures
        r == page_size_choice(idx as int, n as int),
{
    if n > usize::MAX - 6 {
        if idx as u128 == n as u128 + 3 {
            return Some(PageSize::Ten);
        } else if idx as u128 == n as u128 + 4 {
            return Some(PageSize::TwentyFive);
        } else if idx as u128 == n as u128 + 5 {
            return Some(PageSize::Fifty);
        } else if idx as u128 == n as u128 + 6 {
            return Some(PageSize::OneHundred);
        }
        return None;
    }
    if idx == n + 3 {
        Some(PageSize::Ten)
    } else if idx == n + 4 {
        Some(PageSize::TwentyFive)
    } else if idx == n + 5 {
        Some(PageSize::Fifty)
    } else if idx == n + 6 {
        Some(PageSize::OneHundred)
    } else {
        None
    }
}

// ── Formatters ───────────────────────────────────────────────────────────────

/// A memory size in megabytes: whole gigabytes (rounded down) from 1024 MB on.
pub open spec fn memory_label(mb: int) -> Seq<char> {
    if mb >= 1024 {
        decimal((mb / 1024) as nat) + " GB"@
    } else {
        signed_decimal(mb) + " MB"@
    }
}

/// Formats a memory size given in megabytes.
pub fn format_memory_mb(mb: i32) -> (r: String)
    ensures
        r@ == memory_label(mb as int),
{
    let mut s = String::new();
    if mb >= 1024 {
        push_decimal(&mut s, (mb / 1024) as u64);
        s.append(" GB");
    } else {
        push_signed_decimal(&mut s, mb as i64);
        s.append(" MB");
    }
    assert(s@ =~= memory_label(mb as int));
    s
}

/// Parts joined by single spaces.
pub open spec fn join_spaced(parts: Seq<Seq<char>>) -> Seq<char>
    decreases parts.len(),
{
    if parts.len() == 0 {
        Seq::empty()
    } else if parts.len() == 1 {
        parts[0]
    } else {
        join_spaced(parts.drop_last()) + " "@ + parts.last()
    }
}

/// `n` followed by a unit letter, when `n > 0`, appended to `parts`.
pub open spec fn add_unit(parts: Seq<Seq<char>>, n: int, unit: char) -> Seq<Seq<char>> {
    if n > 0 { parts.push(decimal(n as nat).push(unit)) } else { parts }
}

/// The non-zero day, hour, minute and second parts of a positive duration.
pub open spec fn duration_parts(seconds: int) -> Seq<Seq<char>> {
    let days = seconds / 86400;
    let hours = (seconds % 86400) / 3600;
    let minutes = (seconds % 3600) / 60;
    let secs = seconds % 60;
    add_unit(add_unit(add_unit(add_unit(Seq::empty(), days, 'd'), hours, 'h'), minutes, 'm'), secs, 's')
}

/// A duration such as `1d 1h 1m 1s`: `0s` for zero and nothing for a negative one.
pub open spec fn duration_label(seconds: int) -> Seq<char> {
    if seconds == 0 {
        "0s"@
    } else if seconds < 0 {
        Seq::empty()
    } else {
        join_spaced(duration_parts(seconds))
    }
}

/// The parts of a positive duration are those of its unique split into days,
/// hours below 24, minutes below 60 and seconds below 60: the label lists
/// the non-zero ones among `d`, `h`, `m`, `s`, in that order, and at least
/// one is listed.
pub proof fn lemma_duration_split(seconds: int, d: int, h: int, m: int, s: int)
    requires
        seconds > 0,
        d >= 0,
        0 <= h < 24,
        0 <= m < 60,
        0 <= s < 60,
        seconds == d * 86400 + h * 3600 + m * 60 + s,
    ensures
        duration_parts(seconds) == add_unit(add_unit(add_unit(add_unit(Seq::empty(), d, 'd'), h, 'h'), m, 'm'), s, 's'),
        duration_label(seconds) == join_spaced(duration_parts(seconds)),
        duration_parts(seconds).len() > 0,
{
    let r1 = h * 3600 + m * 60 + s;
    vstd::arithmetic::div_mod::lemma_fundamental_div_mod_converse(seconds, 86400, d, r1);
    let r2 = m * 60 + s;
    vstd::arithmetic::div_mod::lemma_fundamental_div_mod_converse(r1, 3600, h, r2);
    vstd::arithmetic::div_mod::lemma_fundamental_div_mod_converse(seconds, 3600, d * 24 + h, r2);
    vstd::arithmetic::div_mod::lemma_fundamental_div_mod_converse(r2, 60, m, s);
    vstd::arithmetic::div_mod::lemma_fundamental_div_mod_converse(seconds, 60, d * 1440 + h * 60 + m, s);
}

fn push_part(s: &mut String, count: &mut usize, n: i32, unit: char, Ghost(parts): Ghost<Seq<Seq<char>>>)
    requires
        old(s)@ == join_spaced(parts),
        *old(count) == parts.len(),
        parts.len() < 4,
    ensures
        final(s)@ == join_spaced(add_unit(parts, n as int, unit)),
        *final(count) == add_unit(parts, n as int, unit).len(),
{
    if n > 0 {
        let ghost p = decimal(n as nat).push(unit);
        if *count > 0 {
            s.append(" ");
        }
        push_decimal(s, n as u64);
        push_char(s, unit);
        *count = *count + 1;
        proof {
            let np = parts.push(p);
            assert(np.drop_last() =~= parts);
            if parts.len() == 0 {
                assert(final(s)@ =~= join_spaced(np));
            } else {
                assert(final(s)@ =~= join_spaced(np));
            }
        }
    }
}

/// Formats a duration given in seconds, e.g. `2m 30s`.
pub fn format_duration_seconds(seconds: i32) -> (r: String)
    ensures
        r@ == duration_label(seconds as int),
{
    if seconds == 0 {
        return String::from_str("0s");
    }
    let mut s = String::new();
    if seconds < 0 {
        return s;
    }
    let days = seconds / 86400;
    let hours = (seconds % 86400) / 3600;
    let minutes = (seconds % 3600) / 60;
    let secs = seconds % 60;
    let mut count: usize = 0;
    let ghost p0 = Seq::<Seq<char>>::empty();
    assert(s@ =~= join_spaced(p0));
    push_part(&mut s, &mut count, days, 'd', Ghost(p0));
    let ghost p1 = add_unit(p0, days as int, 'd');
    push_part(&mut s, &mut count, hours, 'h', Ghost(p1));
    let ghost p2 = add_unit(p1, hours as int, 'h');
    push_part(&mut s, &mut count, minutes, 'm', Ghost(p2));
    let ghost p3 = add_unit(p2, minutes as int, 'm');
    push_part(&mut s, &mut count, secs, 's', Ghost(p3));
    s
}

// ── Cycling through a closed set of values ─────────────────────────────────

/// A closed set of values that a control steps through in a fixed order,
/// wrapping around at both ends.
pub trait CyclicEnum: Sized {
    /// All values, in the order they are stepped through.
    spec fn all_values() -> Seq<Self>;

    /// All values, in the order they are stepped through.
    fn all() -> (r: Vec<Self>)
        ensures
            r@ == Self::all_values();

    /// The value after this one, wrapping around.
    fn next(&self) -> (r: Self)
        ensures
            r == cyclic_next(Self::all_values(), *self);

    /// The value before this one, wrapping around.
    fn prev(&self) -> (r: Self)
        ensures
            r == cyclic_prev(Self::all_values(), *self);

    /// Every value is listed, once.
    proof fn lemma_values_listed()
        ensures
            Self::all_values().no_duplicates(),
            forall|x: Self| Self::all_values().contains(x);
}

/// The first position of `x` in `all`, if any.
pub open spec fn first_position<T>(all: Seq<T>, x: T) -> Option<int>
    decreases all.len(),
{
    if all.len() == 0 {
        None
    } else if all[0] == x {
        Some(0)
    } else {
        match first_position(all.drop_first(), x) {
            Some(k) => Some(k + 1),
            None => None,
        }
    }
}

/// The position of `x` in `all`, 0 when it is not there.
pub open spec fn cycle_position<T>(all: Seq<T>, x: T) -> int {
    match first_position(all, x) {
        Some(k) => k,
        None => 0,
    }
}

/// The value after `x` in `all`, wrapping around.
pub open spec fn cyclic_next<T>(all: Seq<T>, x: T) -> T {
    all[(cycle_position(all, x) + 1) % (all.len() as int)]
}

/// The value before `x` in `all`, wrapping around.
pub open spec fn cyclic_prev<T>(all: Seq<T>, x: T) -> T {
    all[(cycle_position(all, x) + all.len() - 1) % (all.len() as int)]
}

proof fn lemma_first_position<T>(all: Seq<T>, i: int)
    requires
        0 <= i < all.len(),
        all.no_duplicates(),
    ensures
        first_position(all, all[i]) == Some(i),
    decreases all.len(),
{
    if i > 0 {
        assert(all[0] != all[i]);
        let rest = all.drop_first();
        assert(rest[i - 1] == all[i]);
        assert(rest.no_duplicates()) by {
            assert forall|a: int, b: int| 0 <= a < rest.len() && 0 <= b < rest.len() && a != b implies rest[a] != rest[b] by {
                assert(rest[a] == all[a + 1] && rest[b] == all[b + 1]);
            }
        }
        lemma_first_position(rest, i - 1);
    }
}

/// Stepping through a list of distinct values: the value after the one at
/// position `i` is the one at `i + 1`, wrapping around; and a step forward
/// then back (or back then forward) returns to where it started.
pub proof fn lemma_cyclic_law<T>(all: Seq<T>, i: int)
    requires
        0 <= i < all.len(),
        all.no_duplicates(),
    ensures
        cyclic_next(all, all[i]) == all[(i + 1) % (all.len() as int)],
        cyclic_prev(all, all[i]) == all[(i + all.len() - 1) % (all.len() as int)],
        cyclic_prev(all, cyclic_next(all, all[i])) == all[i],
        cyclic_next(all, cyclic_prev(all, all[i])) == all[i],
        i + 1 < all.len() ==> cyclic_next(all, all[i]) == all[i + 1],
        i + 1 == all.len() ==> cyclic_next(all, all[i]) == all[0],
        i > 0 ==> cyclic_prev(all, all[i]) == all[i - 1],
        i == 0 ==> cyclic_prev(all, all[i]) == all[all.len() - 1],
{
    let n = all.len() as int;
    if i + 1 < n {
        lemma_small_mod((i + 1) as nat, n as nat);
    } else {
        assert((i + 1) % n == 0) by (nonlinear_arith)
            requires
                i + 1 == n,
                n > 0,
        ;
    }
    if i > 0 {
        assert((i + n - 1) % n == i - 1) by (nonlinear_arith)
            requires
                0 < i < n,
        ;
    } else {
        lemma_small_mod((n - 1) as nat, n as nat);
    }
    lemma_first_position(all, i);
    let j = (i + 1) % n;
    let k = (i + n - 1) % n;
    assert(0 <= j < n && 0 <= k < n) by (nonlinear_arith)
        requires
            j == (i + 1) % n,
            k == (i + n - 1) % n,
            n > 0,
    ;
    lemma_first_position(all, j);
    lemma_first_position(all, k);
    assert((j + n - 1) % n == i) by (nonlinear_arith)
        requires
            j == (i + 1) % n,
            0 <= i < n,
    ;
    assert((k + 1) % n == i) by (nonlinear_arith)
        requires
            k == (i + n - 1) % n,
            0 <= i < n,
    ;
}

/// The cycling law of every enum: stepping forward from the value at
/// position `i` of its list gives the one at `i + 1`, wrapping around, and a
/// step forward then back (or back then forward) returns to the start.
pub proof fn lemma_cyclic_enum<T: CyclicEnum>(x: T)
    ensures
        cyclic_prev(T::all_values(), cyclic_next(T::all_values(), x)) == x,
        cyclic_next(T::all_values(), cyclic_prev(T::all_values(), x)) == x,
        forall|i: int| 0 <= i < T::all_values().len() && #[trigger] T::all_values()[i] == x
            ==> cyclic_next(T::all_values(), x) == T::all_values()[(i + 1) % (T::all_values().len() as int)],
{
    T::lemma_values_listed();
    let all = T::all_values();
    assert(all.contains(x));
    let i = choose|i: int| 0 <= i < all.len() && all[i] == x;
    lemma_cyclic_law(all, i);
    assert forall|k: int| 0 <= k < all.len() && #[trigger] all[k] == x
        implies cyclic_next(all, x) == all[(k + 1) % (all.len() as int)] by {
        if k != i {
            assert(all[k] != all[i]);
        }
    }
}

// ── Pagination bar ───────────────────────────────────────────────────────────

/// The label of page `i` (0-based): its number, in brackets when it is current.
pub open spec fn page_label(i: nat, current: nat) -> Seq<char> {
    if i == current {
        "["@ + decimal(i + 1) + "]"@
    } else {
        decimal(i + 1)
    }
}

/// Labels of pages `start .. end` separated by spaces.
pub open spec fn page_labels(start: nat, end: nat, current: nat) -> Seq<char>
    decreases end,
{
    if end <= start {
        Seq::empty()
    } else if end == start + 1 {
        page_label(start, current)
    } else {
        page_labels(start, (end - 1) as nat, current) + " "@ + page_label((end - 1) as nat, current)
    }
}

/// The first page shown in the pagination bar.
pub open spec fn window_start(current: nat, total: nat) -> nat {
    if total <= 10 {
        0
    } else {
        let start: nat = if current > 4 { (current - 4) as nat } else { 0 };
        let end: nat = if start + 9 < total { start + 9 } else { total };
        if end == total {
            (total - 9) as nat
        } else {
            start
        }
    }
}

/// One past the last page shown in the pagination bar.
pub open spec fn window_end(current: nat, total: nat) -> nat {
    if total <= 10 {
        total
    } else {
        let start: nat = if current > 4 { (current - 4) as nat } else { 0 };
        if start + 9 < total { start + 9 } else { total }
    }
}

/// The pagination bar: at most ten page numbers (nine once there are more than
/// ten pages, in a window around the current one), the current one in brackets.
pub open spec fn pagination_label(current: nat, total: nat) -> Seq<char> {
    if total == 0 {
        "[1]"@
    } else {
        page_labels(window_start(current, total), window_end(current, total), current)
    }
}

proof fn lemma_count_concat(a: Seq<char>, b: Seq<char>, c: char)
    ensures
        count_char(a + b, c) == count_char(a, c) + count_char(b, c),
    decreases b.len(),
{
    if b.len() == 0 {
        assert(a + b =~= a);
    } else {
        assert((a + b).drop_last() =~= a + b.drop_last());
        lemma_count_concat(a, b.drop_last(), c);
    }
}

proof fn lemma_count_single(x: char, c: char)
    ensures
        count_char(seq![x], c) == (if x == c { 1nat } else { 0nat }),
{
    assert(seq![x].drop_last() =~= Seq::<char>::empty());
    assert(count_char(Seq::<char>::empty(), c) == 0);
}

proof fn lemma_decimal_digits(n: nat)
    ensures
        count_char(decimal(n), '[') == 0,
    decreases n,
{
    if n < 10 {
        lemma_count_single(digit_char(n), '[');
    }
    if n >= 10 {
        lemma_decimal_digits(n / 10);
        assert(decimal(n).drop_last() =~= decimal(n / 10));
        assert(digit_char(n % 10) != '[');
    } else {
        assert(seq![digit_char(n)].drop_last() =~= Seq::<char>::empty());
    }
}

proof fn lemma_page_label_brackets(i: nat, current: nat)
    ensures
        count_char(page_label(i, current), '[') == (if i == current { 1nat } else { 0nat }),
{
    reveal_strlit("[");
    reveal_strlit("]");
    lemma_decimal_digits(i + 1);
    if i == current {
        assert("["@ =~= seq!['[']);
        assert("]"@ =~= seq![']']);
        lemma_count_single('[', '[');
        lemma_count_single(']', '[');
        lemma_count_concat("["@, decimal(i + 1), '[');
        lemma_count_concat("["@ + decimal(i + 1), "]"@, '[');
    }
}

proof fn lemma_page_labels_brackets(start: nat, end: nat, current: nat)
    ensures
        count_char(page_labels(start, end, current), '[') == (if start <= current < end { 1nat } else { 0nat }),
    decreases end,
{
    if end <= start {
    } else if end == start + 1 {
        lemma_page_label_brackets(start, current);
    } else {
        reveal_strlit(" ");
        assert(" "@ =~= seq![' ']);
        lemma_count_single(' ', '[');
        lemma_page_labels_brackets(start, (end - 1) as nat, current);
        lemma_page_label_brackets((end - 1) as nat, current);
        let a = page_labels(start, (end - 1) as nat, current);
        lemma_count_concat(a, " "@, '[');
        lemma_count_concat(a + " "@, page_label((end - 1) as nat, current), '[');
    }
}

/// The pagination bar, for a current page among the pages: it shows the
/// pages from `window_start` to `window_end`, which hold the current page,
/// exactly one of them in brackets; all pages when there are at most ten,
/// else nine, starting four before the current page where the end allows.
pub proof fn lemma_pagination_bar(current: nat, total: nat)
    requires
        current < total,
    ensures
        pagination_label(current, total) == page_labels(window_start(current, total), window_end(current, total), current),
        window_start(current, total) <= current < window_end(current, total) <= total,
        count_char(pagination_label(current, total), '[') == 1,
        total <= 10 ==> window_start(current, total) == 0 && window_end(current, total) == total,
        total > 10 ==> {
            let low: nat = if current > 4 { (current - 4) as nat } else { 0 };
            &&& window_end(current, total) - window_start(current, total) == 9
            &&& window_start(current, total) == (if low + 9 >= total { (total - 9) as nat } else { low })
        },
{
    lemma_page_labels_brackets(window_start(current, total), window_end(current, total), current);
}

/// Renders the pagination bar for page `current` (0-based) out of `total`.
pub fn render_pagination(current: usize, total: usize) -> (r: String)
    ensures
        r@ == pagination_label(current as nat, total as nat),
{
    if total == 0 {
        return String::from_str("[1]");
    }
    let (start, end) = if total <= 10 {
        (0usize, total)
    } else {
        let st = if current > 4 { current - 4 } else { 0 };
        let en = if st < total - 9 { st + 9 } else { total };
        let st2 = if en == total { total - 9 } else { st };
        (st2, en)
    };
    assert(start == window_start(current as nat, total as nat));
    assert(end == window_end(current as nat, total as nat));
    let mut s = String::new();
    let mut i = start;
    assert(s@ =~= page_labels(start as nat, i as nat, current as nat));
    while i < end
        invariant
            start <= i <= end,
            end <= total,
            s@ == page_labels(start as nat, i as nat, current as nat),
        decreases end - i,
    {
        if i > start {
            s.append(" ");
        }
        if i == current {
            s.append("[");
            push_decimal(&mut s, (i + 1) as u64);
            s.append("]");
        } else {
            push_decimal(&mut s, (i + 1) as u64);
        }
        i = i + 1;
        assert(s@ =~= page_labels(start as nat, i as nat, current as nat));
    }
    s
}

/// Same as `render_pagination`.
pub fn render_pagination_text(current: usize, total: usize) -> (r: String)
    ensures
        r@ == pagination_label(current as nat, total as nat),
{
    render_pagination(current, total)
}

} // verus!

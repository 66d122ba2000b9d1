//! Ordering of text as `str` orders it, and a stable sort of key-value pairs by key.
use vstd::prelude::*;

verus! {

/// Whether `a` comes before `b` in the order of `str`: lexicographic by code
/// point (which is the order of their UTF-8 bytes).
pub open spec fn seq_lt(a: Seq<char>, b: Seq<char>) -> bool
    decreases a.len(),
{
    if a.len() == 0 {
        b.len() > 0
    } else if b.len() == 0 {
        false
    } else if a[0] == b[0] {
        seq_lt(a.drop_first(), b.drop_first())
    } else {
        (a[0] as u32) < (b[0] as u32)
    }
}

/// `seq_lt` is transitive.
pub proof fn lemma_seq_lt_transitive(a: Seq<char>, b: Seq<char>, c: Seq<char>)
    requires
        seq_lt(a, b),
        seq_lt(b, c),
    ensures
        seq_lt(a, c),
    decreases a.len(),
{
    if a.len() > 0 && b.len() > 0 && c.len() > 0 && a[0] == b[0] && b[0] == c[0] {
        lemma_seq_lt_transitive(a.drop_first(), b.drop_first(), c.drop_first());
    }
}

/// `seq_lt` is asymmetric.
pub proof fn lemma_seq_lt_asymmetric(a: Seq<char>, b: Seq<char>)
    ensures
        !(seq_lt(a, b) && seq_lt(b, a)),
    decreases a.len(),
{
    if a.len() > 0 && b.len() > 0 && a[0] == b[0] {
        lemma_seq_lt_asymmetric(a.drop_first(), b.drop_first());
    }
}

/// Whether `a` comes before `b` in the order of `str`.
pub fn str_lt(a: &str, b: &str) -> (r: bool)
    ensures
        r == seq_lt(a@, b@),
{
    let n = a.unicode_len();
    let m = b.unicode_len();
    let mut i: usize = 0;
    assert(a@.skip(0) =~= a@);
    assert(b@.skip(0) =~= b@);
    while i < n && i < m
        invariant
            n == a@.len(),
            m == b@.len(),
            i <= n,
            i <= m,
            seq_lt(a@, b@) == seq_lt(a@.skip(i as int), b@.skip(i as int)),
        decreases n - i,
    {
        let x = a.get_char(i);
        let y = b.get_char(i);
        assert(a@.skip(i as int)[0] == x);
        assert(b@.skip(i as int)[0] == y);
        if x != y {
            return (x as u32) < (y as u32);
        }
        assert(a@.skip(i as int).drop_first() =~= a@.skip(i + 1));
        assert(b@.skip(i as int).drop_first() =~= b@.skip(i + 1));
        i = i + 1;
    }
    assert(a@.skip(i as int).len() == n - i);
    assert(b@.skip(i as int).len() == m - i);
    i == n && i < m
}

/// The keys of `s` never go down.
pub open spec fn sorted_by_key(s: Seq<(String, String)>) -> bool {
    forall|i: int, j: int| 0 <= i < j < s.len() ==> !seq_lt(#[trigger] s[j].0@, #[trigger] s[i].0@)
}

/// Sorts pairs by key, keeping pairs with equal keys in their order (the sort
/// is stable); the pairs themselves are unchanged.
pub fn sort_by_key(v: Vec<(String, String)>) -> (r: Vec<(String, String)>)
    ensures
        r@.to_multiset() == v@.to_multiset(),
        sorted_by_key(r@),
        exists|perm: Seq<int>| #[trigger] stable_reorder(r@, v@, perm),
{
    let r = sort_by_text_key(v);
    assert forall|i: int, j: int| 0 <= i < j < r@.len() implies !seq_lt(#[trigger] r@[j].0@, #[trigger] r@[i].0@) by {
        assert(!seq_lt(r@[j].text_key(), r@[i].text_key()));
    }
    r
}

impl TextKey for (String, String) {
    open spec fn text_key(&self) -> Seq<char> {
        self.0@
    }

    fn key_text(&self) -> (r: &str) {
        self.0.as_str()
    }
}

/// Records of this kind are ordered by their `0` field.
pub proof fn lemma_pair_ordered_by_0(r: (String, String))
    ensures
        r.text_key() == r.0@,
{
}


/// A record that is ordered by one of its texts.
pub trait TextKey: Sized {
    /// The text the record is ordered by.
    spec fn text_key(&self) -> Seq<char>;

    /// The text the record is ordered by.
    fn key_text(&self) -> (r: &str)
        ensures
            r@ == self.text_key();
}

/// The keys of `s` never go down.
pub open spec fn ascending_by_key<T: TextKey>(s: Seq<T>) -> bool {
    forall|i: int, j: int| 0 <= i < j < s.len() ==> !seq_lt(#[trigger] s[j].text_key(), #[trigger] s[i].text_key())
}

/// The keys of `s` never go up.
pub open spec fn descending_by_key<T: TextKey>(s: Seq<T>) -> bool {
    forall|i: int, j: int| 0 <= i < j < s.len() ==> !seq_lt(#[trigger] s[i].text_key(), #[trigger] s[j].text_key())
}

/// `perm` lists each position below `n` once.
pub open spec fn is_permutation(perm: Seq<int>, n: nat) -> bool {
    &&& perm.len() == n
    &&& forall|i: int| 0 <= i < perm.len() ==> 0 <= #[trigger] perm[i] < n
    &&& forall|i: int, j: int| 0 <= i < j < perm.len() ==> #[trigger] perm[i] != #[trigger] perm[j]
}

/// `r` is `v` reordered by `perm` (the record at position `i` of `r` is the
/// one at position `perm[i]` of `v`), records of equal keys keeping their
/// order in `v`.
pub open spec fn stable_reorder<T: TextKey>(r: Seq<T>, v: Seq<T>, perm: Seq<int>) -> bool {
    &&& is_permutation(perm, v.len())
    &&& r.len() == v.len()
    &&& forall|i: int| 0 <= i < r.len() ==> #[trigger] r[i] == v[perm[i]]
    &&& forall|i: int, j: int| 0 <= i < j < r.len() && r[i].text_key() == r[j].text_key() ==> #[trigger] perm[i] < #[trigger] perm[j]
}

/// What an insertion sort keeps while it runs: `out` holds the first `i`
/// records of `orig`, reordered by `perm`, equal keys in their order.
spec fn partial_reorder<T: TextKey>(out: Seq<T>, orig: Seq<T>, perm: Seq<int>, i: int) -> bool {
    &&& perm.len() == out.len() == i
    &&& forall|k: int| 0 <= k < perm.len() ==> 0 <= #[trigger] perm[k] < i
    &&& forall|a: int, b: int| 0 <= a < b < perm.len() ==> #[trigger] perm[a] != #[trigger] perm[b]
    &&& forall|k: int| 0 <= k < out.len() ==> #[trigger] out[k] == orig[perm[k]]
    &&& forall|a: int, b: int| 0 <= a < b < out.len() && out[a].text_key() == out[b].text_key() ==> #[trigger] perm[a] < #[trigger] perm[b]
}

/// Inserting record `i` of `orig` at position `p`, after every record whose
/// key equals its own, keeps `partial_reorder`.
proof fn lemma_insert_keeps_reorder<T: TextKey>(before: Seq<T>, orig: Seq<T>, perm: Seq<int>, i: int, p: int)
    requires
        partial_reorder(before, orig, perm, i),
        0 <= i < orig.len(),
        0 <= p <= before.len(),
        forall|k: int| p <= k < before.len() ==> #[trigger] before[k].text_key() != orig[i].text_key(),
    ensures
        partial_reorder(before.insert(p, orig[i]), orig, perm.insert(p, i), i + 1),
{
    let out = before.insert(p, orig[i]);
    let np = perm.insert(p, i);
    assert forall|k: int| 0 <= k < np.len() implies 0 <= #[trigger] np[k] < i + 1 by {
        if k < p {
            assert(np[k] == perm[k]);
        } else if k > p {
            assert(np[k] == perm[k - 1]);
        }
    }
    assert forall|a: int, b: int| 0 <= a < b < np.len() implies #[trigger] np[a] != #[trigger] np[b] by {
        if a < p && b < p {
            assert(np[a] == perm[a] && np[b] == perm[b]);
        } else if a < p && b == p {
            assert(np[a] == perm[a]);
        } else if a < p {
            assert(np[a] == perm[a] && np[b] == perm[b - 1]);
        } else if a == p {
            assert(np[b] == perm[b - 1]);
        } else {
            assert(np[a] == perm[a - 1] && np[b] == perm[b - 1]);
        }
    }
    assert forall|k: int| 0 <= k < out.len() implies #[trigger] out[k] == orig[np[k]] by {
        if k < p {
            assert(out[k] == before[k] && np[k] == perm[k]);
        } else if k > p {
            assert(out[k] == before[k - 1] && np[k] == perm[k - 1]);
        }
    }
    assert forall|a: int, b: int| 0 <= a < b < out.len() && out[a].text_key() == out[b].text_key() implies #[trigger] np[a] < #[trigger] np[b] by {
        if a < p && b < p {
            assert(np[a] == perm[a] && np[b] == perm[b] && out[a] == before[a] && out[b] == before[b]);
        } else if a < p && b == p {
            assert(np[a] == perm[a]);
        } else if a < p {
            assert(np[a] == perm[a] && np[b] == perm[b - 1] && out[a] == before[a] && out[b] == before[b - 1]);
        } else if a == p {
            assert(out[b] == before[b - 1] && out[a] == orig[i]);
        } else {
            assert(np[a] == perm[a - 1] && np[b] == perm[b - 1] && out[a] == before[a - 1] && out[b] == before[b - 1]);
        }
    }
}

/// Sorts records by their key, keeping records with equal keys in their
/// order; the records themselves are moved, never changed.
pub fn sort_by_text_key<T: TextKey>(v: Vec<T>) -> (r: Vec<T>)
    ensures
        r@.to_multiset() == v@.to_multiset(),
        ascending_by_key(r@),
        exists|perm: Seq<int>| #[trigger] stable_reorder(r@, v@, perm),
{
    broadcast use vstd::seq_lib::group_to_multiset_ensures;
    let mut src = v;
    let ghost orig = src@;
    let n = src.len();
    let mut out: Vec<T> = Vec::new();
    let mut i: usize = 0;
    let ghost mut perm: Seq<int> = Seq::empty();
    assert(orig.take(0) =~= Seq::<T>::empty());
    while i < n
        invariant
            n == orig.len(),
            src@ == orig.skip(i as int),
            i <= n,
            out@.to_multiset() == orig.take(i as int).to_multiset(),
            ascending_by_key(out@),
            partial_reorder(out@, orig, perm, i as int),
        decreases n - i,
    {
        let x = src.remove(0);
        assert(x == orig[i as int]);
        assert(src@ =~= orig.skip(i + 1));
        let m = out.len();
        let mut p: usize = 0;
        while p < m && !str_lt(x.key_text(), out[p].key_text())
            invariant
                m == out@.len(),
                p <= m,
                forall|k: int| 0 <= k < p ==> !seq_lt(x.text_key(), #[trigger] out@[k].text_key()),
            decreases m - p,
        {
            p = p + 1;
        }
        let ghost before = out@;
        proof {
            if p < m {
                assert forall|k: int| p < k < m implies !seq_lt(#[trigger] before[k].text_key(), x.text_key()) by {
                    if seq_lt(before[k].text_key(), x.text_key()) {
                        lemma_seq_lt_transitive(before[k].text_key(), x.text_key(), before[p as int].text_key());
                        assert(!seq_lt(before[k].text_key(), before[p as int].text_key()));
                    }
                }
                lemma_seq_lt_asymmetric(before[p as int].text_key(), x.text_key());
            }
            assert forall|k: int| p <= k < before.len() implies #[trigger] before[k].text_key() != orig[i as int].text_key() by {
                lemma_seq_lt_asymmetric(x.text_key(), x.text_key());
                if k > p && before[k].text_key() == x.text_key() {
                    assert(!seq_lt(before[k].text_key(), before[p as int].text_key()));
                }
            }
            lemma_insert_keeps_reorder(before, orig, perm, i as int, p as int);
        }
        let ghost xv = x;
        out.insert(p, x);
        assert(out@ == before.insert(p as int, xv));
        assert(orig.take(i + 1) =~= orig.take(i as int).push(orig[i as int]));
        proof {
            perm = perm.insert(p as int, i as int);
            vstd::seq_lib::to_multiset_insert(before, p as int, xv);
            vstd::seq_lib::to_multiset_build(orig.take(i as int), orig[i as int]);
            assert forall|a: int, b: int| 0 <= a < b < out@.len() implies !seq_lt(
                #[trigger] out@[b].text_key(),
                #[trigger] out@[a].text_key(),
            ) by {
                if a < p && b < p {
                    assert(out@[a] == before[a] && out@[b] == before[b]);
                } else if a < p && b == p {
                    assert(out@[a] == before[a]);
                } else if a < p && b > p {
                    assert(out@[a] == before[a] && out@[b] == before[b - 1]);
                } else if a == p {
                    assert(out@[b] == before[b - 1]);
                } else {
                    assert(out@[a] == before[a - 1] && out@[b] == before[b - 1]);
                }
            }
        }
        i = i + 1;
    }
    assert(orig.take(n as int) =~= orig);
    assert(stable_reorder(out@, orig, perm));
    out
}

/// Sorts records by their key, greatest first, keeping records with equal
/// keys in their order; the records themselves are moved, never changed.
pub fn sort_by_text_key_descending<T: TextKey>(v: Vec<T>) -> (r: Vec<T>)
    ensures
        r@.to_multiset() == v@.to_multiset(),
        descending_by_key(r@),
        exists|perm: Seq<int>| #[trigger] stable_reorder(r@, v@, perm),
{
    broadcast use vstd::seq_lib::group_to_multiset_ensures;
    let mut src = v;
    let ghost orig = src@;
    let n = src.len();
    let mut out: Vec<T> = Vec::new();
    let mut i: usize = 0;
    let ghost mut perm: Seq<int> = Seq::empty();
    assert(orig.take(0) =~= Seq::<T>::empty());
    while i < n
        invariant
            n == orig.len(),
            src@ == orig.skip(i as int),
            i <= n,
            out@.to_multiset() == orig.take(i as int).to_multiset(),
            descending_by_key(out@),
            partial_reorder(out@, orig, perm, i as int),
        decreases n - i,
    {
        let x = src.remove(0);
        assert(x == orig[i as int]);
        assert(src@ =~= orig.skip(i + 1));
        let m = out.len();
        let mut p: usize = 0;
        while p < m && !str_lt(out[p].key_text(), x.key_text())
            invariant
                m == out@.len(),
                p <= m,
                forall|k: int| 0 <= k < p ==> !seq_lt(#[trigger] out@[k].text_key(), x.text_key()),
            decreases m - p,
        {
            p = p + 1;
        }
        let ghost before = out@;
        proof {
            if p < m {
                assert forall|k: int| p < k < m implies !seq_lt(x.text_key(), #[trigger] before[k].text_key()) by {
                    if seq_lt(x.text_key(), before[k].text_key()) {
                        lemma_seq_lt_transitive(before[p as int].text_key(), x.text_key(), before[k].text_key());
                    }
                }
                lemma_seq_lt_asymmetric(before[p as int].text_key(), x.text_key());
            }
            assert forall|k: int| p <= k < before.len() implies #[trigger] before[k].text_key() != orig[i as int].text_key() by {
                lemma_seq_lt_asymmetric(x.text_key(), x.text_key());
                if k > p && before[k].text_key() == x.text_key() {
                    assert(!seq_lt(before[p as int].text_key(), before[k].text_key()));
                }
            }
            lemma_insert_keeps_reorder(before, orig, perm, i as int, p as int);
        }
        let ghost xv = x;
        out.insert(p, x);
        assert(out@ == before.insert(p as int, xv));
        assert(orig.take(i + 1) =~= orig.take(i as int).push(orig[i as int]));
        proof {
            perm = perm.insert(p as int, i as int);
            vstd::seq_lib::to_multiset_insert(before, p as int, xv);
            vstd::seq_lib::to_multiset_build(orig.take(i as int), orig[i as int]);
            assert forall|a: int, b: int| 0 <= a < b < out@.len() implies !seq_lt(
                #[trigger] out@[a].text_key(),
                #[trigger] out@[b].text_key(),
            ) by {
                if a < p && b < p {
                    assert(out@[a] == before[a] && out@[b] == before[b]);
                } else if a < p && b == p {
                    assert(out@[a] == before[a]);
                } else if a < p && b > p {
                    assert(out@[a] == before[a] && out@[b] == before[b - 1]);
                } else if a == p {
                    assert(out@[b] == before[b - 1]);
                } else {
                    assert(out@[a] == before[a - 1] && out@[b] == before[b - 1]);
                }
            }
        }
        i = i + 1;
    }
    assert(orig.take(n as int) =~= orig);
    assert(stable_reorder(out@, orig, perm));
    out
}

} // verus!

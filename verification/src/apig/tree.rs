//! The route and resource trees of an API as rows on screen. A row opens to
//! show the rows listed under its key; the rows on screen are the tree read
//! in pre-order, each open row followed by the rows under it.
use vstd::prelude::*;
use vstd::string::*;
use crate::apig::resource::Resource;
use crate::apig::route::Route;
use crate::text::{filter_keeps, filter_matches, str_eq};

verus! {

/// `key` is among `keys`.
pub open spec fn holds_key(keys: Seq<String>, key: Seq<char>) -> bool {
    exists|i: int| 0 <= i < keys.len() && (#[trigger] keys[i])@ == key
}

/// Whether `key` is among `keys`.
pub fn contains_key(keys: &Vec<String>, key: &str) -> (r: bool)
    ensures
        r == holds_key(keys@, key@),
{
    let mut i: usize = 0;
    while i < keys.len()
        invariant
            i <= keys@.len(),
            forall|j: int| 0 <= j < i ==> (#[trigger] keys@[j])@ != key@,
        decreases keys@.len() - i,
    {
        if str_eq(keys[i].as_str(), key) {
            return true;
        }
        i = i + 1;
    }
    false
}

// ── Routes ──────────────────────────────────────────────────────────────────

/// The routes listed under `key`: those of the first entry for `key`.
pub open spec fn route_children_of(children: Seq<(String, Vec<Route>)>, key: Seq<char>) -> Option<Seq<Route>>
    decreases children.len(),
{
    if children.len() == 0 {
        None
    } else if children[0].0@ == key {
        Some(children[0].1@)
    } else {
        route_children_of(children.drop_first(), key)
    }
}

/// The routes listed under `key`, if any.
pub fn route_children_at<'a>(children: &'a Vec<(String, Vec<Route>)>, key: &str) -> (r: Option<&'a Vec<Route>>)
    ensures
        match r {
            Some(v) => route_children_of(children@, key@) == Some(v@),
            None => route_children_of(children@, key@) is None,
        },
{
    let mut i: usize = 0;
    assert(children@.subrange(0, children@.len() as int) =~= children@);
    while i < children.len()
        invariant
            i <= children@.len(),
            route_children_of(children@, key@) == route_children_of(children@.subrange(i as int, children@.len() as int), key@),
        decreases children@.len() - i,
    {
        assert(children@.subrange(i as int, children@.len() as int).drop_first()
            =~= children@.subrange(i + 1, children@.len() as int));
        if str_eq(children[i].0.as_str(), key) {
            return Some(&children[i].1);
        }
        i = i + 1;
    }
    None
}

/// A route opens on screen: it holds other routes (it has no target), its key
/// is open, and routes are listed under it.
pub open spec fn route_opens(r: Route, expanded: Seq<String>, children: Seq<(String, Vec<Route>)>) -> bool {
    &&& r.target@.len() == 0
    &&& holds_key(expanded, r.route_key@)
    &&& route_children_of(children, r.route_key@) is Some
}

/// The rows on screen for the routes `items`, reading no deeper than `depth`
/// levels below them; none when the tree goes deeper.
pub open spec fn route_rows(
    items: Seq<Route>,
    expanded: Seq<String>,
    children: Seq<(String, Vec<Route>)>,
    depth: nat,
) -> Option<Seq<Route>>
    decreases depth, items.len(),
{
    if items.len() == 0 {
        Some(Seq::empty())
    } else {
        match route_rows(items.drop_last(), expanded, children, depth) {
            None => None,
            Some(before) => {
                let last = items.last();
                if route_opens(last, expanded, children) {
                    if depth == 0 {
                        None
                    } else {
                        match route_rows(
                            route_children_of(children, last.route_key@).unwrap(),
                            expanded,
                            children,
                            (depth - 1) as nat,
                        ) {
                            None => None,
                            Some(sub) => Some(before.push(last) + sub),
                        }
                    }
                } else {
                    Some(before.push(last))
                }
            }
        }
    }
}

/// The route tree is finite: no route lies under itself.
pub open spec fn route_tree_finite(items: Seq<Route>, expanded: Seq<String>, children: Seq<(String, Vec<Route>)>) -> bool {
    exists|d: nat| (#[trigger] route_rows(items, expanded, children, d)) is Some
}

/// A depth that the route tree does not exceed.
pub open spec fn route_depth(items: Seq<Route>, expanded: Seq<String>, children: Seq<(String, Vec<Route>)>) -> nat {
    choose|d: nat| (#[trigger] route_rows(items, expanded, children, d)) is Some
}

/// The rows on screen for the routes `items`.
pub open spec fn visible_routes(items: Seq<Route>, expanded: Seq<String>, children: Seq<(String, Vec<Route>)>) -> Seq<Route> {
    route_rows(items, expanded, children, route_depth(items, expanded, children)).unwrap()
}

/// The rows of the first `k` routes are the first rows of all of them.
pub proof fn lemma_route_rows_prefix(
    items: Seq<Route>,
    expanded: Seq<String>,
    children: Seq<(String, Vec<Route>)>,
    depth: nat,
    k: int,
)
    requires
        route_rows(items, expanded, children, depth) is Some,
        0 <= k <= items.len(),
    ensures
        route_rows(items.take(k), expanded, children, depth) is Some,
        route_rows(items.take(k), expanded, children, depth).unwrap().len()
            <= route_rows(items, expanded, children, depth).unwrap().len(),
        route_rows(items, expanded, children, depth).unwrap().take(
            route_rows(items.take(k), expanded, children, depth).unwrap().len() as int,
        ) == route_rows(items.take(k), expanded, children, depth).unwrap(),
    decreases items.len(),
{
    let all = route_rows(items, expanded, children, depth).unwrap();
    if k == items.len() {
        assert(items.take(k) =~= items);
        assert(all.take(all.len() as int) =~= all);
    } else {
        let init = items.drop_last();
        assert(items.take(k) =~= init.take(k));
        lemma_route_rows_prefix(init, expanded, children, depth, k);
        let before = route_rows(init, expanded, children, depth).unwrap();
        let p = route_rows(init.take(k), expanded, children, depth).unwrap();
        assert(all.take(before.len() as int) =~= before);
        assert(all.take(p.len() as int) =~= before.take(p.len() as int));
    }
}

/// The rows of `k + 1` routes: those of the first `k`, route `k`, and the rows
/// under route `k` when it opens.
pub proof fn lemma_route_rows_step(
    items: Seq<Route>,
    expanded: Seq<String>,
    children: Seq<(String, Vec<Route>)>,
    depth: nat,
    k: int,
)
    requires
        route_rows(items, expanded, children, depth) is Some,
        0 <= k < items.len(),
    ensures
        ({
            let pre = route_rows(items.take(k), expanded, children, depth).unwrap();
            let next = route_rows(items.take(k + 1), expanded, children, depth);
            &&& next is Some
            &&& if route_opens(items[k], expanded, children) {
                &&& depth > 0
                &&& route_rows(route_children_of(children, items[k].route_key@).unwrap(), expanded, children, (depth - 1) as nat) is Some
                &&& next.unwrap() == pre.push(items[k]) + route_rows(
                    route_children_of(children, items[k].route_key@).unwrap(), expanded, children, (depth - 1) as nat).unwrap()
            } else {
                next.unwrap() == pre.push(items[k])
            }
        }),
{
    lemma_route_rows_prefix(items, expanded, children, depth, k + 1);
    let t = items.take(k + 1);
    assert(t.drop_last() =~= items.take(k));
    assert(t.last() == items[k]);
}

/// Looks for row `target` among the rows of `routes`, numbered from
/// `*current_row` on; moves `*current_row` past them when the row is not
/// among them.
fn route_key_in(
    expanded: &Vec<String>,
    children: &Vec<(String, Vec<Route>)>,
    routes: &[Route],
    target: usize,
    current_row: &mut usize,
    Ghost(depth): Ghost<nat>,
) -> (r: Option<String>)
    requires
        route_rows(routes@, expanded@, children@, depth) is Some,
        *old(current_row) + route_rows(routes@, expanded@, children@, depth).unwrap().len() <= usize::MAX,
    ensures
        ({
            let rows = route_rows(routes@, expanded@, children@, depth).unwrap();
            let c = *old(current_row);
            if c <= target < c + rows.len() {
                r is Some && r.unwrap()@ == rows[target - c].route_key@ && *final(current_row) == target
            } else {
                r is None && *final(current_row) == c + rows.len()
            }
        }),
    decreases depth,
{
    let ghost all = route_rows(routes@, expanded@, children@, depth).unwrap();
    let ghost c = *current_row;
    let mut i: usize = 0;
    let ghost mut pre: Seq<Route> = Seq::empty();
    assert(routes@.take(0) =~= Seq::<Route>::empty());
    while i < routes.len()
        invariant
            i <= routes@.len(),
            route_rows(routes@, expanded@, children@, depth) == Some(all),
            route_rows(routes@.take(i as int), expanded@, children@, depth) == Some(pre),
            all.take(pre.len() as int) == pre,
            pre.len() <= all.len(),
            *current_row == c + pre.len(),
            *old(current_row) == c,
            c + all.len() <= usize::MAX,
            !(c <= target < c + pre.len()),
        decreases routes@.len() - i,
    {
        proof {
            lemma_route_rows_step(routes@, expanded@, children@, depth, i as int);
            lemma_route_rows_prefix(routes@, expanded@, children@, depth, i + 1);
        }
        let ghost next = route_rows(routes@.take(i + 1), expanded@, children@, depth).unwrap();
        let route = &routes[i];
        if *current_row == target {
            assert(next[pre.len() as int] == routes@[i as int]);
            assert(all.take(next.len() as int)[pre.len() as int] == all[pre.len() as int]);
            assert(all.take(next.len() as int) == next);
            assert(all[target - c] == routes@[i as int]);
            let k = route.route_key.clone();
            assert(k@ == all[target - c].route_key@);
            return Some(k);
        }
        *current_row = *current_row + 1;
        if route.is_expandable() && contains_key(expanded, route.route_key.as_str()) {
            if let Some(sub_routes) = route_children_at(children, route.route_key.as_str()) {
                let ghost sub = route_rows(sub_routes@, expanded@, children@, (depth - 1) as nat).unwrap();
                assert(next =~= pre.push(*route) + sub);
                let found = route_key_in(expanded, children, sub_routes.as_slice(), target, current_row, Ghost((depth - 1) as nat));
                if let Some(key) = found {
                    assert(all.take(next.len() as int)[target - c] == all[target - c]);
                    assert(next[target - c] == sub[target - c - pre.len() - 1]);
                    return Some(key);
                }
            }
        }
        proof {
            pre = next;
        }
        i = i + 1;
    }
    assert(routes@.take(routes@.len() as int) =~= routes@);
    None
}

/// The key of the route at row `target` of the routes on screen, counting
/// rows from `*current_row` on; when the row is not among them, none, with
/// `*current_row` moved past them.
pub fn route_key_at_row(
    expanded: &Vec<String>,
    children: &Vec<(String, Vec<Route>)>,
    routes: &[Route],
    target: usize,
    current_row: &mut usize,
) -> (r: Option<String>)
    requires
        route_tree_finite(routes@, expanded@, children@),
        *old(current_row) + visible_routes(routes@, expanded@, children@).len() <= usize::MAX,
    ensures
        ({
            let rows = visible_routes(routes@, expanded@, children@);
            let c = *old(current_row);
            if c <= target < c + rows.len() {
                r is Some && r.unwrap()@ == rows[target - c].route_key@ && *final(current_row) == target
            } else {
                r is None && *final(current_row) == c + rows.len()
            }
        }),
{
    let ghost d = route_depth(routes@, expanded@, children@);
    route_key_in(expanded, children, routes, target, current_row, Ghost(d))
}

/// When the rows of the first `k` routes go deeper than `depth`, or are more
/// than `usize::MAX`, so are the rows of all of them.
pub proof fn lemma_route_rows_cut(
    items: Seq<Route>,
    expanded: Seq<String>,
    children: Seq<(String, Vec<Route>)>,
    depth: nat,
    k: int,
)
    requires
        0 <= k <= items.len(),
    ensures
        route_rows(items.take(k), expanded, children, depth) is None ==> route_rows(items, expanded, children, depth) is None,
        route_rows(items, expanded, children, depth) is Some ==> route_rows(items.take(k), expanded, children, depth).unwrap().len()
            <= route_rows(items, expanded, children, depth).unwrap().len(),
{
    if route_rows(items, expanded, children, depth) is Some {
        lemma_route_rows_prefix(items, expanded, children, depth, k);
    }
}

/// Read to any depth that the tree does not exceed, the rows are the same.
pub proof fn lemma_route_rows_depth(
    items: Seq<Route>,
    expanded: Seq<String>,
    children: Seq<(String, Vec<Route>)>,
    d1: nat,
    d2: nat,
)
    requires
        route_rows(items, expanded, children, d1) is Some,
        route_rows(items, expanded, children, d2) is Some,
    ensures
        route_rows(items, expanded, children, d1) == route_rows(items, expanded, children, d2),
    decreases d1, items.len(),
{
    if items.len() > 0 {
        lemma_route_rows_depth(items.drop_last(), expanded, children, d1, d2);
        let last = items.last();
        if route_opens(last, expanded, children) {
            lemma_route_rows_depth(
                route_children_of(children, last.route_key@).unwrap(),
                expanded,
                children,
                (d1 - 1) as nat,
                (d2 - 1) as nat,
            );
        }
    }
}

/// Counts the rows of `items` reading no deeper than `depth` levels below
/// them: none when the tree goes deeper or the count passes `usize::MAX`.
pub fn route_rows_within(
    expanded: &Vec<String>,
    children: &Vec<(String, Vec<Route>)>,
    items: &[Route],
    depth: usize,
) -> (r: Option<usize>)
    ensures
        match r {
            Some(n) => route_rows(items@, expanded@, children@, depth as nat) is Some
                && n == route_rows(items@, expanded@, children@, depth as nat).unwrap().len(),
            None => route_rows(items@, expanded@, children@, depth as nat) is None
                || route_rows(items@, expanded@, children@, depth as nat).unwrap().len() > usize::MAX,
        },
    decreases depth,
{
    let mut n: usize = 0;
    let mut i: usize = 0;
    assert(items@.take(0) =~= Seq::<Route>::empty());
    while i < items.len()
        invariant
            i <= items@.len(),
            route_rows(items@.take(i as int), expanded@, children@, depth as nat) is Some,
            n == route_rows(items@.take(i as int), expanded@, children@, depth as nat).unwrap().len(),
        decreases items@.len() - i,
    {
        let ghost t = items@.take(i + 1);
        assert(t.drop_last() =~= items@.take(i as int));
        assert(t.last() == items@[i as int]);
        let route = &items[i];
        let mut opened = false;
        if route.is_expandable() && contains_key(expanded, route.route_key.as_str()) {
            if let Some(sub) = route_children_at(children, route.route_key.as_str()) {
                opened = true;
                if depth == 0 {
                    proof {
                        lemma_route_rows_cut(items@, expanded@, children@, depth as nat, i + 1);
                    }
                    return None;
                }
                match route_rows_within(expanded, children, sub.as_slice(), depth - 1) {
                    None => {
                        proof {
                            lemma_route_rows_cut(items@, expanded@, children@, depth as nat, i + 1);
                        }
                        return None;
                    },
                    Some(m) => {
                        if n >= usize::MAX - m {
                            proof {
                                lemma_route_rows_cut(items@, expanded@, children@, depth as nat, i + 1);
                            }
                            return None;
                        }
                        n = n + 1 + m;
                    },
                }
            }
        }
        if !opened {
            if n == usize::MAX {
                proof {
                    lemma_route_rows_cut(items@, expanded@, children@, depth as nat, i + 1);
                }
                return None;
            }
            n = n + 1;
        }
        i = i + 1;
    }
    assert(items@.take(items@.len() as int) =~= items@);
    Some(n)
}

/// A route whose rows open on screen and list a route of key `key`.
pub open spec fn route_parent_of(
    r: Route,
    expanded: Seq<String>,
    children: Seq<(String, Vec<Route>)>,
    key: Seq<char>,
) -> bool {
    &&& route_opens(r, expanded, children)
    &&& exists|m: int| 0 <= m < route_children_of(children, r.route_key@).unwrap().len()
        && (#[trigger] route_children_of(children, r.route_key@).unwrap()[m]).route_key@ == key
}

/// Whether one of `routes` has key `key`.
fn lists_route_key(routes: &Vec<Route>, key: &str) -> (r: bool)
    ensures
        r == exists|m: int| 0 <= m < routes@.len() && (#[trigger] routes@[m]).route_key@ == key@,
{
    let mut m: usize = 0;
    while m < routes.len()
        invariant
            m <= routes@.len(),
            forall|q: int| 0 <= q < m ==> (#[trigger] routes@[q]).route_key@ != key@,
        decreases routes@.len() - m,
    {
        if str_eq(routes[m].route_key.as_str(), key) {
            return true;
        }
        m = m + 1;
    }
    false
}

/// The first row, counting from `*current_row`, whose route opens and lists a
/// route of key `key`.
fn route_parent_in(
    expanded: &Vec<String>,
    children: &Vec<(String, Vec<Route>)>,
    routes: &[Route],
    key: &str,
    current_row: &mut usize,
    Ghost(depth): Ghost<nat>,
) -> (r: Option<usize>)
    requires
        route_rows(routes@, expanded@, children@, depth) is Some,
        *old(current_row) + route_rows(routes@, expanded@, children@, depth).unwrap().len() <= usize::MAX,
    ensures
        ({
            let rows = route_rows(routes@, expanded@, children@, depth).unwrap();
            let c = *old(current_row);
            match r {
                Some(p) => c <= p < c + rows.len() && route_parent_of(rows[p - c], expanded@, children@, key@)
                    && forall|j: int| 0 <= j < p - c ==> !route_parent_of(#[trigger] rows[j], expanded@, children@, key@),
                None => *final(current_row) == c + rows.len()
                    && forall|j: int| 0 <= j < rows.len() ==> !route_parent_of(#[trigger] rows[j], expanded@, children@, key@),
            }
        }),
    decreases depth,
{
    let ghost all = route_rows(routes@, expanded@, children@, depth).unwrap();
    let ghost c = *current_row;
    let mut i: usize = 0;
    let ghost mut pre: Seq<Route> = Seq::empty();
    assert(routes@.take(0) =~= Seq::<Route>::empty());
    while i < routes.len()
        invariant
            i <= routes@.len(),
            route_rows(routes@, expanded@, children@, depth) == Some(all),
            route_rows(routes@.take(i as int), expanded@, children@, depth) == Some(pre),
            all.take(pre.len() as int) == pre,
            pre.len() <= all.len(),
            *current_row == c + pre.len(),
            *old(current_row) == c,
            c + all.len() <= usize::MAX,
            forall|j: int| 0 <= j < pre.len() ==> !route_parent_of(#[trigger] all[j], expanded@, children@, key@),
        decreases routes@.len() - i,
    {
        proof {
            lemma_route_rows_step(routes@, expanded@, children@, depth, i as int);
            lemma_route_rows_prefix(routes@, expanded@, children@, depth, i + 1);
        }
        let ghost next = route_rows(routes@.take(i + 1), expanded@, children@, depth).unwrap();
        assert(all.take(next.len() as int) == next);
        assert(all[pre.len() as int] == routes@[i as int]) by {
            assert(all.take(next.len() as int)[pre.len() as int] == all[pre.len() as int]);
        }
        let route = &routes[i];
        let parent_row = *current_row;
        *current_row = *current_row + 1;
        if route.is_expandable() && contains_key(expanded, route.route_key.as_str()) {
            if let Some(subs) = route_children_at(children, route.route_key.as_str()) {
                if lists_route_key(subs, key) {
                    return Some(parent_row);
                }
                assert(!route_parent_of(all[pre.len() as int], expanded@, children@, key@));
                let ghost sub = route_rows(subs@, expanded@, children@, (depth - 1) as nat).unwrap();
                assert(next =~= pre.push(*route) + sub);
                let found = route_parent_in(expanded, children, subs.as_slice(), key, current_row, Ghost((depth - 1) as nat));
                if let Some(p) = found {
                    assert(all[p - c] == sub[p - c - pre.len() - 1]) by {
                        assert(all.take(next.len() as int)[p - c] == all[p - c]);
                    }
                    assert forall|j: int| 0 <= j < p - c implies !route_parent_of(#[trigger] all[j], expanded@, children@, key@) by {
                        if j > pre.len() {
                            assert(all.take(next.len() as int)[j] == all[j]);
                            assert(all[j] == sub[j - pre.len() - 1]);
                        }
                    }
                    return Some(p);
                }
                assert forall|j: int| 0 <= j < next.len() implies !route_parent_of(#[trigger] all[j], expanded@, children@, key@) by {
                    if j > pre.len() {
                        assert(all.take(next.len() as int)[j] == all[j]);
                        assert(all[j] == sub[j - pre.len() - 1]);
                    }
                }
            }
        }
        proof {
            pre = next;
        }
        i = i + 1;
    }
    assert(routes@.take(routes@.len() as int) =~= routes@);
    None
}

/// The row of the first route on screen that opens and lists a route of key
/// `key`, if any.
pub fn route_parent_row(
    expanded: &Vec<String>,
    children: &Vec<(String, Vec<Route>)>,
    routes: &[Route],
    key: &str,
) -> (r: Option<usize>)
    requires
        route_tree_finite(routes@, expanded@, children@),
        visible_routes(routes@, expanded@, children@).len() <= usize::MAX,
    ensures
        ({
            let rows = visible_routes(routes@, expanded@, children@);
            match r {
                Some(p) => p < rows.len() && route_parent_of(rows[p as int], expanded@, children@, key@)
                    && forall|j: int| 0 <= j < p ==> !route_parent_of(#[trigger] rows[j], expanded@, children@, key@),
                None => forall|j: int| 0 <= j < rows.len() ==> !route_parent_of(#[trigger] rows[j], expanded@, children@, key@),
            }
        }),
{
    let ghost d = route_depth(routes@, expanded@, children@);
    let mut current_row: usize = 0;
    route_parent_in(expanded, children, routes, key, &mut current_row, Ghost(d))
}

/// What the search for the route id at row `target` finds among `items`,
/// whose rows are numbered from `c`, and the row number it ends on. The search
/// stops at the target row: it finds the id of that route when the route has
/// a target, and nothing when it has none. A level that finds nothing below
/// one of its routes goes on with its next route from the row the level below
/// ended on. (A tree deeper than `depth` counts as ending there.)
pub open spec fn route_id_scan(
    items: Seq<Route>,
    expanded: Seq<String>,
    children: Seq<(String, Vec<Route>)>,
    target: int,
    c: int,
    depth: nat,
) -> (Option<Seq<char>>, int)
    decreases depth, items.len(),
{
    if items.len() == 0 {
        (None, c)
    } else {
        let h = items[0];
        if c == target {
            (if h.target@.len() > 0 { Some(h.route_id@) } else { None }, c)
        } else if route_opens(h, expanded, children) && depth > 0 {
            let below = route_id_scan(
                route_children_of(children, h.route_key@).unwrap(),
                expanded,
                children,
                target,
                c + 1,
                (depth - 1) as nat,
            );
            if below.0 is Some {
                below
            } else {
                route_id_scan(items.drop_first(), expanded, children, target, below.1, depth)
            }
        } else {
            route_id_scan(items.drop_first(), expanded, children, target, c + 1, depth)
        }
    }
}

/// The search of `route_id_scan`, on `routes` from row `*current_row`.
fn route_id_in(
    expanded: &Vec<String>,
    children: &Vec<(String, Vec<Route>)>,
    routes: &[Route],
    target: usize,
    current_row: &mut usize,
    Ghost(depth): Ghost<nat>,
) -> (r: Option<String>)
    requires
        route_rows(routes@, expanded@, children@, depth) is Some,
        *old(current_row) + route_rows(routes@, expanded@, children@, depth).unwrap().len() <= usize::MAX,
    ensures
        ({
            let scan = route_id_scan(routes@, expanded@, children@, target as int, *old(current_row) as int, depth);
            &&& match r {
                Some(id) => scan.0 == Some(id@),
                None => scan.0 is None,
            }
            &&& *final(current_row) == scan.1
            &&& *final(current_row) <= *old(current_row) + route_rows(routes@, expanded@, children@, depth).unwrap().len()
            &&& r is None ==> *final(current_row) == *old(current_row) + route_rows(routes@, expanded@, children@, depth).unwrap().len()
                || *final(current_row) == target
        }),
    decreases depth,
{
    let ghost all = route_rows(routes@, expanded@, children@, depth).unwrap();
    let ghost c = *current_row;
    let ghost whole = route_id_scan(routes@, expanded@, children@, target as int, c as int, depth);
    let mut i: usize = 0;
    let ghost mut pre: Seq<Route> = Seq::empty();
    assert(routes@.take(0) =~= Seq::<Route>::empty());
    assert(routes@.skip(0) =~= routes@);
    while i < routes.len()
        invariant
            i <= routes@.len(),
            route_rows(routes@, expanded@, children@, depth) == Some(all),
            route_rows(routes@.take(i as int), expanded@, children@, depth) == Some(pre),
            all.take(pre.len() as int) == pre,
            pre.len() <= all.len(),
            *current_row <= c + pre.len(),
            *current_row == c + pre.len() || *current_row == target,
            *old(current_row) == c,
            c + all.len() <= usize::MAX,
            whole == route_id_scan(routes@, expanded@, children@, target as int, c as int, depth),
            whole == route_id_scan(routes@.skip(i as int), expanded@, children@, target as int, *current_row as int, depth),
        decreases routes@.len() - i,
    {
        proof {
            lemma_route_rows_step(routes@, expanded@, children@, depth, i as int);
            lemma_route_rows_prefix(routes@, expanded@, children@, depth, i + 1);
        }
        let ghost next = route_rows(routes@.take(i + 1), expanded@, children@, depth).unwrap();
        let ghost rest = routes@.skip(i as int);
        assert(rest[0] == routes@[i as int]);
        assert(rest.drop_first() =~= routes@.skip(i + 1));
        let route = &routes[i];
        if *current_row == target {
            if route.target.unicode_len() > 0 {
                return Some(route.route_id.clone());
            } else {
                return None;
            }
        }
        *current_row = *current_row + 1;
        if route.is_expandable() && contains_key(expanded, route.route_key.as_str()) {
            if let Some(subs) = route_children_at(children, route.route_key.as_str()) {
                let ghost sub = route_rows(subs@, expanded@, children@, (depth - 1) as nat).unwrap();
                assert(next =~= pre.push(*route) + sub);
                let found = route_id_in(expanded, children, subs.as_slice(), target, current_row, Ghost((depth - 1) as nat));
                if found.is_some() {
                    return found;
                }
            }
        }
        proof {
            pre = next;
        }
        i = i + 1;
    }
    assert(routes@.take(routes@.len() as int) =~= routes@);
    None
}

/// The id of the route at row `target` as the routes page addresses it,
/// counting rows from `*current_row` on: the search of `route_id_scan`, read
/// to the depth of the tree.
pub fn route_id_at_row(
    expanded: &Vec<String>,
    children: &Vec<(String, Vec<Route>)>,
    routes: &[Route],
    target: usize,
    current_row: &mut usize,
) -> (r: Option<String>)
    requires
        route_tree_finite(routes@, expanded@, children@),
        *old(current_row) + visible_routes(routes@, expanded@, children@).len() <= usize::MAX,
    ensures
        ({
            let scan = route_id_scan(routes@, expanded@, children@, target as int, *old(current_row) as int,
                route_depth(routes@, expanded@, children@));
            &&& match r {
                Some(id) => scan.0 == Some(id@),
                None => scan.0 is None,
            }
            &&& *final(current_row) == scan.1
        }),
{
    let ghost d = route_depth(routes@, expanded@, children@);
    route_id_in(expanded, children, routes, target, current_row, Ghost(d))
}

/// The number of rows of `routes`, reading no deeper than `depth`.
fn count_routes_in(
    expanded: &Vec<String>,
    children: &Vec<(String, Vec<Route>)>,
    routes: &[Route],
    Ghost(depth): Ghost<nat>,
) -> (r: usize)
    requires
        route_rows(routes@, expanded@, children@, depth) is Some,
        route_rows(routes@, expanded@, children@, depth).unwrap().len() <= usize::MAX,
    ensures
        r == route_rows(routes@, expanded@, children@, depth).unwrap().len(),
    decreases depth,
{
    let ghost all = route_rows(routes@, expanded@, children@, depth).unwrap();
    let mut n: usize = 0;
    let mut i: usize = 0;
    assert(routes@.take(0) =~= Seq::<Route>::empty());
    while i < routes.len()
        invariant
            i <= routes@.len(),
            route_rows(routes@, expanded@, children@, depth) == Some(all),
            all.len() <= usize::MAX,
            route_rows(routes@.take(i as int), expanded@, children@, depth) is Some,
            n == route_rows(routes@.take(i as int), expanded@, children@, depth).unwrap().len(),
        decreases routes@.len() - i,
    {
        proof {
            lemma_route_rows_step(routes@, expanded@, children@, depth, i as int);
            lemma_route_rows_prefix(routes@, expanded@, children@, depth, i + 1);
        }
        let route = &routes[i];
        n = n + 1;
        if route.is_expandable() && contains_key(expanded, route.route_key.as_str()) {
            if let Some(subs) = route_children_at(children, route.route_key.as_str()) {
                let m = count_routes_in(expanded, children, subs.as_slice(), Ghost((depth - 1) as nat));
                n = n + m;
            }
        }
        i = i + 1;
    }
    assert(routes@.take(routes@.len() as int) =~= routes@);
    n
}

/// The number of rows the routes take on screen.
pub fn count_route_rows(expanded: &Vec<String>, children: &Vec<(String, Vec<Route>)>, routes: &[Route]) -> (r: usize)
    requires
        route_tree_finite(routes@, expanded@, children@),
        visible_routes(routes@, expanded@, children@).len() <= usize::MAX,
    ensures
        r == visible_routes(routes@, expanded@, children@).len(),
{
    let ghost d = route_depth(routes@, expanded@, children@);
    count_routes_in(expanded, children, routes, Ghost(d))
}

/// A copy of a route.
pub fn copy_route(r: &Route) -> (c: Route)
    ensures
        c == *r,
{
    Route {
        route_id: r.route_id.clone(),
        route_key: r.route_key.clone(),
        target: r.target.clone(),
        authorization_type: r.authorization_type.clone(),
        api_key_required: r.api_key_required,
        display_name: r.display_name.clone(),
        arn: r.arn.clone(),
    }
}

/// The top-level routes whose key passes the filter, in order; what is listed
/// under them is left as it is.
pub open spec fn kept_routes(items: Seq<Route>, filter: Seq<char>) -> Seq<Route>
    decreases items.len(),
{
    if items.len() == 0 {
        Seq::empty()
    } else {
        let before = kept_routes(items.drop_last(), filter);
        if filter_keeps(filter, items.last().route_key@) {
            before.push(items.last())
        } else {
            before
        }
    }
}

/// The top-level routes whose key passes the filter.
pub fn filter_routes(items: &Vec<Route>, filter: &str) -> (r: Vec<Route>)
    ensures
        r@ == kept_routes(items@, filter@),
{
    let mut out: Vec<Route> = Vec::new();
    let mut i: usize = 0;
    assert(items@.take(0) =~= Seq::<Route>::empty());
    while i < items.len()
        invariant
            i <= items@.len(),
            out@ == kept_routes(items@.take(i as int), filter@),
        decreases items@.len() - i,
    {
        assert(items@.take(i + 1).drop_last() =~= items@.take(i as int));
        if filter_matches(filter, items[i].route_key.as_str()) {
            out.push(copy_route(&items[i]));
        }
        i = i + 1;
    }
    assert(items@.take(items@.len() as int) =~= items@);
    out
}

// ── Resources ──────────────────────────────────────────────────────────────────

/// The resources listed under `key`: those of the first entry for `key`.
pub open spec fn resource_children_of(children: Seq<(String, Vec<Resource>)>, key: Seq<char>) -> Option<Seq<Resource>>
    decreases children.len(),
{
    if children.len() == 0 {
        None
    } else if children[0].0@ == key {
        Some(children[0].1@)
    } else {
        resource_children_of(children.drop_first(), key)
    }
}

/// The resources listed under `key`, if any.
pub fn resource_children_at<'a>(children: &'a Vec<(String, Vec<Resource>)>, key: &str) -> (r: Option<&'a Vec<Resource>>)
    ensures
        match r {
            Some(v) => resource_children_of(children@, key@) == Some(v@),
            None => resource_children_of(children@, key@) is None,
        },
{
    let mut i: usize = 0;
    assert(children@.subrange(0, children@.len() as int) =~= children@);
    while i < children.len()
        invariant
            i <= children@.len(),
            resource_children_of(children@, key@) == resource_children_of(children@.subrange(i as int, children@.len() as int), key@),
        decreases children@.len() - i,
    {
        assert(children@.subrange(i as int, children@.len() as int).drop_first()
            =~= children@.subrange(i + 1, children@.len() as int));
        if str_eq(children[i].0.as_str(), key) {
            return Some(&children[i].1);
        }
        i = i + 1;
    }
    None
}

/// A resource opens on screen: its id is open and resources are listed under it.
pub open spec fn resource_opens(r: Resource, expanded: Seq<String>, children: Seq<(String, Vec<Resource>)>) -> bool {
    &&& holds_key(expanded, r.id@)
    &&& resource_children_of(children, r.id@) is Some
}

/// The rows on screen for the resources `items`, reading no deeper than `depth`
/// levels below them; none when the tree goes deeper.
pub open spec fn resource_rows(
    items: Seq<Resource>,
    expanded: Seq<String>,
    children: Seq<(String, Vec<Resource>)>,
    depth: nat,
) -> Option<Seq<Resource>>
    decreases depth, items.len(),
{
    if items.len() == 0 {
        Some(Seq::empty())
    } else {
        match resource_rows(items.drop_last(), expanded, children, depth) {
            None => None,
            Some(before) => {
                let last = items.last();
                if resource_opens(last, expanded, children) {
                    if depth == 0 {
                        None
                    } else {
                        match resource_rows(
                            resource_children_of(children, last.id@).unwrap(),
                            expanded,
                            children,
                            (depth - 1) as nat,
                        ) {
                            None => None,
                            Some(sub) => Some(before.push(last) + sub),
                        }
                    }
                } else {
                    Some(before.push(last))
                }
            }
        }
    }
}

/// The resource tree is finite: no resource lies under itself.
pub open spec fn resource_tree_finite(items: Seq<Resource>, expanded: Seq<String>, children: Seq<(String, Vec<Resource>)>) -> bool {
    exists|d: nat| (#[trigger] resource_rows(items, expanded, children, d)) is Some
}

/// A depth that the resource tree does not exceed.
pub open spec fn resource_depth(items: Seq<Resource>, expanded: Seq<String>, children: Seq<(String, Vec<Resource>)>) -> nat {
    choose|d: nat| (#[trigger] resource_rows(items, expanded, children, d)) is Some
}

/// The rows on screen for the resources `items`.
pub open spec fn visible_resources(items: Seq<Resource>, expanded: Seq<String>, children: Seq<(String, Vec<Resource>)>) -> Seq<Resource> {
    resource_rows(items, expanded, children, resource_depth(items, expanded, children)).unwrap()
}

/// The rows of the first `k` resources are the first rows of all of them.
pub proof fn lemma_resource_rows_prefix(
    items: Seq<Resource>,
    expanded: Seq<String>,
    children: Seq<(String, Vec<Resource>)>,
    depth: nat,
    k: int,
)
    requires
        resource_rows(items, expanded, children, depth) is Some,
        0 <= k <= items.len(),
    ensures
        resource_rows(items.take(k), expanded, children, depth) is Some,
        resource_rows(items.take(k), expanded, children, depth).unwrap().len()
            <= resource_rows(items, expanded, children, depth).unwrap().len(),
        resource_rows(items, expanded, children, depth).unwrap().take(
            resource_rows(items.take(k), expanded, children, depth).unwrap().len() as int,
        ) == resource_rows(items.take(k), expanded, children, depth).unwrap(),
    decreases items.len(),
{
    let all = resource_rows(items, expanded, children, depth).unwrap();
    if k == items.len() {
        assert(items.take(k) =~= items);
        assert(all.take(all.len() as int) =~= all);
    } else {
        let init = items.drop_last();
        assert(items.take(k) =~= init.take(k));
        lemma_resource_rows_prefix(init, expanded, children, depth, k);
        let before = resource_rows(init, expanded, children, depth).unwrap();
        let p = resource_rows(init.take(k), expanded, children, depth).unwrap();
        assert(all.take(before.len() as int) =~= before);
        assert(all.take(p.len() as int) =~= before.take(p.len() as int));
    }
}

/// The rows of `k + 1` resources: those of the first `k`, resource `k`, and the rows
/// under resource `k` when it opens.
pub proof fn lemma_resource_rows_step(
    items: Seq<Resource>,
    expanded: Seq<String>,
    children: Seq<(String, Vec<Resource>)>,
    depth: nat,
    k: int,
)
    requires
        resource_rows(items, expanded, children, depth) is Some,
        0 <= k < items.len(),
    ensures
        ({
            let pre = resource_rows(items.take(k), expanded, children, depth).unwrap();
            let next = resource_rows(items.take(k + 1), expanded, children, depth);
            &&& next is Some
            &&& if resource_opens(items[k], expanded, children) {
                &&& depth > 0
                &&& resource_rows(resource_children_of(children, items[k].id@).unwrap(), expanded, children, (depth - 1) as nat) is Some
                &&& next.unwrap() == pre.push(items[k]) + resource_rows(
                    resource_children_of(children, items[k].id@).unwrap(), expanded, children, (depth - 1) as nat).unwrap()
            } else {
                next.unwrap() == pre.push(items[k])
            }
        }),
{
    lemma_resource_rows_prefix(items, expanded, children, depth, k + 1);
    let t = items.take(k + 1);
    assert(t.drop_last() =~= items.take(k));
    assert(t.last() == items[k]);
}

/// Looks for row `target` among the rows of `resources`, numbered from
/// `*current_row` on; moves `*current_row` past them when the row is not
/// among them.
fn resource_id_in(
    expanded: &Vec<String>,
    children: &Vec<(String, Vec<Resource>)>,
    resources: &[Resource],
    target: usize,
    current_row: &mut usize,
    Ghost(depth): Ghost<nat>,
) -> (r: Option<String>)
    requires
        resource_rows(resources@, expanded@, children@, depth) is Some,
        *old(current_row) + resource_rows(resources@, expanded@, children@, depth).unwrap().len() <= usize::MAX,
    ensures
        ({
            let rows = resource_rows(resources@, expanded@, children@, depth).unwrap();
            let c = *old(current_row);
            if c <= target < c + rows.len() {
                r is Some && r.unwrap()@ == rows[target - c].id@ && *final(current_row) == target
            } else {
                r is None && *final(current_row) == c + rows.len()
            }
        }),
    decreases depth,
{
    let ghost all = resource_rows(resources@, expanded@, children@, depth).unwrap();
    let ghost c = *current_row;
    let mut i: usize = 0;
    let ghost mut pre: Seq<Resource> = Seq::empty();
    assert(resources@.take(0) =~= Seq::<Resource>::empty());
    while i < resources.len()
        invariant
            i <= resources@.len(),
            resource_rows(resources@, expanded@, children@, depth) == Some(all),
            resource_rows(resources@.take(i as int), expanded@, children@, depth) == Some(pre),
            all.take(pre.len() as int) == pre,
            pre.len() <= all.len(),
            *current_row == c + pre.len(),
            *old(current_row) == c,
            c + all.len() <= usize::MAX,
            !(c <= target < c + pre.len()),
        decreases resources@.len() - i,
    {
        proof {
            lemma_resource_rows_step(resources@, expanded@, children@, depth, i as int);
            lemma_resource_rows_prefix(resources@, expanded@, children@, depth, i + 1);
        }
        let ghost next = resource_rows(resources@.take(i + 1), expanded@, children@, depth).unwrap();
        let resource = &resources[i];
        if *current_row == target {
            assert(next[pre.len() as int] == resources@[i as int]);
            assert(all.take(next.len() as int)[pre.len() as int] == all[pre.len() as int]);
            assert(all.take(next.len() as int) == next);
            assert(all[target - c] == resources@[i as int]);
            let k = resource.id.clone();
            assert(k@ == all[target - c].id@);
            return Some(k);
        }
        *current_row = *current_row + 1;
        if contains_key(expanded, resource.id.as_str()) {
            if let Some(sub_resources) = resource_children_at(children, resource.id.as_str()) {
                let ghost sub = resource_rows(sub_resources@, expanded@, children@, (depth - 1) as nat).unwrap();
                assert(next =~= pre.push(*resource) + sub);
                let found = resource_id_in(expanded, children, sub_resources.as_slice(), target, current_row, Ghost((depth - 1) as nat));
                if let Some(key) = found {
                    assert(all.take(next.len() as int)[target - c] == all[target - c]);
                    assert(next[target - c] == sub[target - c - pre.len() - 1]);
                    return Some(key);
                }
            }
        }
        proof {
            pre = next;
        }
        i = i + 1;
    }
    assert(resources@.take(resources@.len() as int) =~= resources@);
    None
}

/// The key of the resource at row `target` of the resources on screen, counting
/// rows from `*current_row` on; when the row is not among them, none, with
/// `*current_row` moved past them.
pub fn resource_id_at_row(
    expanded: &Vec<String>,
    children: &Vec<(String, Vec<Resource>)>,
    resources: &[Resource],
    target: usize,
    current_row: &mut usize,
) -> (r: Option<String>)
    requires
        resource_tree_finite(resources@, expanded@, children@),
        *old(current_row) + visible_resources(resources@, expanded@, children@).len() <= usize::MAX,
    ensures
        ({
            let rows = visible_resources(resources@, expanded@, children@);
            let c = *old(current_row);
            if c <= target < c + rows.len() {
                r is Some && r.unwrap()@ == rows[target - c].id@ && *final(current_row) == target
            } else {
                r is None && *final(current_row) == c + rows.len()
            }
        }),
{
    let ghost d = resource_depth(resources@, expanded@, children@);
    resource_id_in(expanded, children, resources, target, current_row, Ghost(d))
}

/// When the rows of the first `k` resources go deeper than `depth`, or are more
/// than `usize::MAX`, so are the rows of all of them.
pub proof fn lemma_resource_rows_cut(
    items: Seq<Resource>,
    expanded: Seq<String>,
    children: Seq<(String, Vec<Resource>)>,
    depth: nat,
    k: int,
)
    requires
        0 <= k <= items.len(),
    ensures
        resource_rows(items.take(k), expanded, children, depth) is None ==> resource_rows(items, expanded, children, depth) is None,
        resource_rows(items, expanded, children, depth) is Some ==> resource_rows(items.take(k), expanded, children, depth).unwrap().len()
            <= resource_rows(items, expanded, children, depth).unwrap().len(),
{
    if resource_rows(items, expanded, children, depth) is Some {
        lemma_resource_rows_prefix(items, expanded, children, depth, k);
    }
}

/// Counts the rows of `items` reading no deeper than `depth` levels below
/// them: none when the tree goes deeper or the count passes `usize::MAX`.
pub fn resource_rows_within(
    expanded: &Vec<String>,
    children: &Vec<(String, Vec<Resource>)>,
    items: &[Resource],
    depth: usize,
) -> (r: Option<usize>)
    ensures
        match r {
            Some(n) => resource_rows(items@, expanded@, children@, depth as nat) is Some
                && n == resource_rows(items@, expanded@, children@, depth as nat).unwrap().len(),
            None => resource_rows(items@, expanded@, children@, depth as nat) is None
                || resource_rows(items@, expanded@, children@, depth as nat).unwrap().len() > usize::MAX,
        },
    decreases depth,
{
    let mut n: usize = 0;
    let mut i: usize = 0;
    assert(items@.take(0) =~= Seq::<Resource>::empty());
    while i < items.len()
        invariant
            i <= items@.len(),
            resource_rows(items@.take(i as int), expanded@, children@, depth as nat) is Some,
            n == resource_rows(items@.take(i as int), expanded@, children@, depth as nat).unwrap().len(),
        decreases items@.len() - i,
    {
        let ghost t = items@.take(i + 1);
        assert(t.drop_last() =~= items@.take(i as int));
        assert(t.last() == items@[i as int]);
        let resource = &items[i];
        let mut opened = false;
        if contains_key(expanded, resource.id.as_str()) {
            if let Some(sub) = resource_children_at(children, resource.id.as_str()) {
                opened = true;
                if depth == 0 {
                    proof {
                        lemma_resource_rows_cut(items@, expanded@, children@, depth as nat, i + 1);
                    }
                    return None;
                }
                match resource_rows_within(expanded, children, sub.as_slice(), depth - 1) {
                    None => {
                        proof {
                            lemma_resource_rows_cut(items@, expanded@, children@, depth as nat, i + 1);
                        }
                        return None;
                    },
                    Some(m) => {
                        if n >= usize::MAX - m {
                            proof {
                                lemma_resource_rows_cut(items@, expanded@, children@, depth as nat, i + 1);
                            }
                            return None;
                        }
                        n = n + 1 + m;
                    },
                }
            }
        }
        if !opened {
            if n == usize::MAX {
                proof {
                    lemma_resource_rows_cut(items@, expanded@, children@, depth as nat, i + 1);
                }
                return None;
            }
            n = n + 1;
        }
        i = i + 1;
    }
    assert(items@.take(items@.len() as int) =~= items@);
    Some(n)
}

/// A resource whose rows open on screen and list a resource of key `key`.
pub open spec fn resource_parent_of(
    r: Resource,
    expanded: Seq<String>,
    children: Seq<(String, Vec<Resource>)>,
    key: Seq<char>,
) -> bool {
    &&& resource_opens(r, expanded, children)
    &&& exists|m: int| 0 <= m < resource_children_of(children, r.id@).unwrap().len()
        && (#[trigger] resource_children_of(children, r.id@).unwrap()[m]).id@ == key
}

/// Whether one of `resources` has key `key`.
fn lists_resource_id(resources: &Vec<Resource>, key: &str) -> (r: bool)
    ensures
        r == exists|m: int| 0 <= m < resources@.len() && (#[trigger] resources@[m]).id@ == key@,
{
    let mut m: usize = 0;
    while m < resources.len()
        invariant
            m <= resources@.len(),
            forall|q: int| 0 <= q < m ==> (#[trigger] resources@[q]).id@ != key@,
        decreases resources@.len() - m,
    {
        if str_eq(resources[m].id.as_str(), key) {
            return true;
        }
        m = m + 1;
    }
    false
}

/// The first row, counting from `*current_row`, whose resource opens and lists a
/// resource of key `key`.
fn resource_parent_in(
    expanded: &Vec<String>,
    children: &Vec<(String, Vec<Resource>)>,
    resources: &[Resource],
    key: &str,
    current_row: &mut usize,
    Ghost(depth): Ghost<nat>,
) -> (r: Option<usize>)
    requires
        resource_rows(resources@, expanded@, children@, depth) is Some,
        *old(current_row) + resource_rows(resources@, expanded@, children@, depth).unwrap().len() <= usize::MAX,
    ensures
        ({
            let rows = resource_rows(resources@, expanded@, children@, depth).unwrap();
            let c = *old(current_row);
            match r {
                Some(p) => c <= p < c + rows.len() && resource_parent_of(rows[p - c], expanded@, children@, key@)
                    && forall|j: int| 0 <= j < p - c ==> !resource_parent_of(#[trigger] rows[j], expanded@, children@, key@),
                None => *final(current_row) == c + rows.len()
                    && forall|j: int| 0 <= j < rows.len() ==> !resource_parent_of(#[trigger] rows[j], expanded@, children@, key@),
            }
        }),
    decreases depth,
{
    let ghost all = resource_rows(resources@, expanded@, children@, depth).unwrap();
    let ghost c = *current_row;
    let mut i: usize = 0;
    let ghost mut pre: Seq<Resource> = Seq::empty();
    assert(resources@.take(0) =~= Seq::<Resource>::empty());
    while i < resources.len()
        invariant
            i <= resources@.len(),
            resource_rows(resources@, expanded@, children@, depth) == Some(all),
            resource_rows(resources@.take(i as int), expanded@, children@, depth) == Some(pre),
            all.take(pre.len() as int) == pre,
            pre.len() <= all.len(),
            *current_row == c + pre.len(),
            *old(current_row) == c,
            c + all.len() <= usize::MAX,
            forall|j: int| 0 <= j < pre.len() ==> !resource_parent_of(#[trigger] all[j], expanded@, children@, key@),
        decreases resources@.len() - i,
    {
        proof {
            lemma_resource_rows_step(resources@, expanded@, children@, depth, i as int);
            lemma_resource_rows_prefix(resources@, expanded@, children@, depth, i + 1);
        }
        let ghost next = resource_rows(resources@.take(i + 1), expanded@, children@, depth).unwrap();
        assert(all.take(next.len() as int) == next);
        assert(all[pre.len() as int] == resources@[i as int]) by {
            assert(all.take(next.len() as int)[pre.len() as int] == all[pre.len() as int]);
        }
        let resource = &resources[i];
        let parent_row = *current_row;
        *current_row = *current_row + 1;
        if contains_key(expanded, resource.id.as_str()) {
            if let Some(subs) = resource_children_at(children, resource.id.as_str()) {
                if lists_resource_id(subs, key) {
                    return Some(parent_row);
                }
                assert(!resource_parent_of(all[pre.len() as int], expanded@, children@, key@));
                let ghost sub = resource_rows(subs@, expanded@, children@, (depth - 1) as nat).unwrap();
                assert(next =~= pre.push(*resource) + sub);
                let found = resource_parent_in(expanded, children, subs.as_slice(), key, current_row, Ghost((depth - 1) as nat));
                if let Some(p) = found {
                    assert(all[p - c] == sub[p - c - pre.len() - 1]) by {
                        assert(all.take(next.len() as int)[p - c] == all[p - c]);
                    }
                    assert forall|j: int| 0 <= j < p - c implies !resource_parent_of(#[trigger] all[j], expanded@, children@, key@) by {
                        if j > pre.len() {
                            assert(all.take(next.len() as int)[j] == all[j]);
                            assert(all[j] == sub[j - pre.len() - 1]);
                        }
                    }
                    return Some(p);
                }
                assert forall|j: int| 0 <= j < next.len() implies !resource_parent_of(#[trigger] all[j], expanded@, children@, key@) by {
                    if j > pre.len() {
                        assert(all.take(next.len() as int)[j] == all[j]);
                        assert(all[j] == sub[j - pre.len() - 1]);
                    }
                }
            }
        }
        proof {
            pre = next;
        }
        i = i + 1;
    }
    assert(resources@.take(resources@.len() as int) =~= resources@);
    None
}

/// The row of the first resource on screen that opens and lists a resource of key
/// `key`, if any.
pub fn resource_parent_row(
    expanded: &Vec<String>,
    children: &Vec<(String, Vec<Resource>)>,
    resources: &[Resource],
    key: &str,
) -> (r: Option<usize>)
    requires
        resource_tree_finite(resources@, expanded@, children@),
        visible_resources(resources@, expanded@, children@).len() <= usize::MAX,
    ensures
        ({
            let rows = visible_resources(resources@, expanded@, children@);
            match r {
                Some(p) => p < rows.len() && resource_parent_of(rows[p as int], expanded@, children@, key@)
                    && forall|j: int| 0 <= j < p ==> !resource_parent_of(#[trigger] rows[j], expanded@, children@, key@),
                None => forall|j: int| 0 <= j < rows.len() ==> !resource_parent_of(#[trigger] rows[j], expanded@, children@, key@),
            }
        }),
{
    let ghost d = resource_depth(resources@, expanded@, children@);
    let mut current_row: usize = 0;
    resource_parent_in(expanded, children, resources, key, &mut current_row, Ghost(d))
}

/// The number of rows of `resources`, reading no deeper than `depth`.
fn count_resources_in(
    expanded: &Vec<String>,
    children: &Vec<(String, Vec<Resource>)>,
    resources: &[Resource],
    Ghost(depth): Ghost<nat>,
) -> (r: usize)
    requires
        resource_rows(resources@, expanded@, children@, depth) is Some,
        resource_rows(resources@, expanded@, children@, depth).unwrap().len() <= usize::MAX,
    ensures
        r == resource_rows(resources@, expanded@, children@, depth).unwrap().len(),
    decreases depth,
{
    let ghost all = resource_rows(resources@, expanded@, children@, depth).unwrap();
    let mut n: usize = 0;
    let mut i: usize = 0;
    assert(resources@.take(0) =~= Seq::<Resource>::empty());
    while i < resources.len()
        invariant
            i <= resources@.len(),
            resource_rows(resources@, expanded@, children@, depth) == Some(all),
            all.len() <= usize::MAX,
            resource_rows(resources@.take(i as int), expanded@, children@, depth) is Some,
            n == resource_rows(resources@.take(i as int), expanded@, children@, depth).unwrap().len(),
        decreases resources@.len() - i,
    {
        proof {
            lemma_resource_rows_step(resources@, expanded@, children@, depth, i as int);
            lemma_resource_rows_prefix(resources@, expanded@, children@, depth, i + 1);
        }
        let resource = &resources[i];
        n = n + 1;
        if contains_key(expanded, resource.id.as_str()) {
            if let Some(subs) = resource_children_at(children, resource.id.as_str()) {
                let m = count_resources_in(expanded, children, subs.as_slice(), Ghost((depth - 1) as nat));
                n = n + m;
            }
        }
        i = i + 1;
    }
    assert(resources@.take(resources@.len() as int) =~= resources@);
    n
}

/// The number of rows the resources take on screen.
pub fn count_resource_rows(expanded: &Vec<String>, children: &Vec<(String, Vec<Resource>)>, resources: &[Resource]) -> (r: usize)
    requires
        resource_tree_finite(resources@, expanded@, children@),
        visible_resources(resources@, expanded@, children@).len() <= usize::MAX,
    ensures
        r == visible_resources(resources@, expanded@, children@).len(),
{
    let ghost d = resource_depth(resources@, expanded@, children@);
    count_resources_in(expanded, children, resources, Ghost(d))
}

/// Read to any depth that the tree does not exceed, the rows are the same.
pub proof fn lemma_resource_rows_depth(
    items: Seq<Resource>,
    expanded: Seq<String>,
    children: Seq<(String, Vec<Resource>)>,
    d1: nat,
    d2: nat,
)
    requires
        resource_rows(items, expanded, children, d1) is Some,
        resource_rows(items, expanded, children, d2) is Some,
    ensures
        resource_rows(items, expanded, children, d1) == resource_rows(items, expanded, children, d2),
    decreases d1, items.len(),
{
    if items.len() > 0 {
        lemma_resource_rows_depth(items.drop_last(), expanded, children, d1, d2);
        let last = items.last();
        if resource_opens(last, expanded, children) {
            lemma_resource_rows_depth(
                resource_children_of(children, last.id@).unwrap(),
                expanded,
                children,
                (d1 - 1) as nat,
                (d2 - 1) as nat,
            );
        }
    }
}

/// Two resources with the same fields, their methods read as sequences.
pub open spec fn same_resource(a: Resource, b: Resource) -> bool {
    &&& a.id == b.id
    &&& a.path == b.path
    &&& a.parent_id == b.parent_id
    &&& a.methods@ == b.methods@
    &&& a.display_name == b.display_name
    &&& a.arn == b.arn
}

/// Two lists of resources that agree resource by resource.
pub open spec fn same_resources(a: Seq<Resource>, b: Seq<Resource>) -> bool {
    a.len() == b.len() && forall|i: int| 0 <= i < a.len() ==> same_resource(#[trigger] a[i], b[i])
}

/// Lists of resources that agree resource by resource take rows that agree
/// row by row.
pub proof fn lemma_resource_rows_same(
    a: Seq<Resource>,
    b: Seq<Resource>,
    expanded: Seq<String>,
    children: Seq<(String, Vec<Resource>)>,
    depth: nat,
)
    requires
        same_resources(a, b),
    ensures
        (resource_rows(a, expanded, children, depth) is Some) == (resource_rows(b, expanded, children, depth) is Some),
        resource_rows(a, expanded, children, depth) is Some ==> same_resources(
            resource_rows(a, expanded, children, depth).unwrap(),
            resource_rows(b, expanded, children, depth).unwrap(),
        ),
    decreases a.len(),
{
    if a.len() > 0 {
        assert(same_resources(a.drop_last(), b.drop_last())) by {
            assert forall|i: int| 0 <= i < a.drop_last().len() implies same_resource(#[trigger] a.drop_last()[i], b.drop_last()[i]) by {
                assert(same_resource(a[i], b[i]));
            }
        }
        lemma_resource_rows_same(a.drop_last(), b.drop_last(), expanded, children, depth);
        assert(same_resource(a.last(), b.last()));
        let ra = resource_rows(a, expanded, children, depth);
        let rb = resource_rows(b, expanded, children, depth);
        if ra is Some {
            let pa = resource_rows(a.drop_last(), expanded, children, depth).unwrap();
            let pb = resource_rows(b.drop_last(), expanded, children, depth).unwrap();
            let x = ra.unwrap();
            let y = rb.unwrap();
            assert forall|i: int| 0 <= i < x.len() implies same_resource(#[trigger] x[i], y[i]) by {
                if i < pa.len() {
                    assert(same_resource(pa[i], pb[i]));
                }
            }
        }
    }
}

/// The top-level resources whose path passes the filter, in order; what is listed
/// under them is left as it is.
pub open spec fn kept_resources(items: Seq<Resource>, filter: Seq<char>) -> Seq<Resource>
    decreases items.len(),
{
    if items.len() == 0 {
        Seq::empty()
    } else {
        let before = kept_resources(items.drop_last(), filter);
        if filter_keeps(filter, items.last().path@) {
            before.push(items.last())
        } else {
            before
        }
    }
}

/// The top-level resources whose path passes the filter.
pub fn filter_resources(items: &Vec<Resource>, filter: &str) -> (r: Vec<Resource>)
    ensures
        same_resources(r@, kept_resources(items@, filter@)),
{
    let mut out: Vec<Resource> = Vec::new();
    let mut i: usize = 0;
    assert(items@.take(0) =~= Seq::<Resource>::empty());
    while i < items.len()
        invariant
            i <= items@.len(),
            same_resources(out@, kept_resources(items@.take(i as int), filter@)),
        decreases items@.len() - i,
    {
        assert(items@.take(i + 1).drop_last() =~= items@.take(i as int));
        if filter_matches(filter, items[i].path.as_str()) {
            let c = copy_resource(&items[i]);
            out.push(c);
        }
        i = i + 1;
    }
    assert(items@.take(items@.len() as int) =~= items@);
    out
}

/// A copy of a resource.
pub fn copy_resource(r: &Resource) -> (c: Resource)
    ensures
        same_resource(c, *r),
{
    let mut methods: Vec<String> = Vec::new();
    let mut i: usize = 0;
    while i < r.methods.len()
        invariant
            i <= r.methods@.len(),
            methods@ == r.methods@.take(i as int),
        decreases r.methods@.len() - i,
    {
        methods.push(r.methods[i].clone());
        assert(methods@ =~= r.methods@.take(i + 1));
        i = i + 1;
    }
    assert(methods@ =~= r.methods@);
    Resource {
        id: r.id.clone(),
        path: r.path.clone(),
        parent_id: match &r.parent_id {
            Some(p) => Some(p.clone()),
            None => None,
        },
        methods,
        display_name: r.display_name.clone(),
        arn: r.arn.clone(),
    }
}

} // verus!

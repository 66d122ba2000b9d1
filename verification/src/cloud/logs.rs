//! CloudWatch Logs: the records the console shows.
use vstd::prelude::*;
use vstd::string::*;
use crate::text::str_eq;
use crate::timestamp::{civil_from_millis, epoch, unix_millis_civil, UtcTime};

verus! {

/// A log group.
#[derive(Clone, Debug)]
pub struct LogGroup {
    pub name: String,
    pub creation_time: Option<UtcTime>,
    pub stored_bytes: Option<i64>,
    pub retention_days: Option<i32>,
    pub log_class: Option<String>,
    pub arn: Option<String>,
    pub log_group_arn: Option<String>,
    pub deletion_protection_enabled: Option<bool>,
}

/// A stream of a log group.
#[derive(Clone, Debug)]
pub struct LogStream {
    pub name: String,
    pub creation_time: Option<UtcTime>,
    pub last_event_time: Option<UtcTime>,
}

/// One event of a log stream.
#[derive(Clone, Debug)]
pub struct LogEvent {
    pub timestamp: UtcTime,
    pub message: String,
}


/// What an event of a log stream is ordered by: its time in milliseconds
/// (0 when absent), the epoch standing for a time out of range.
pub open spec fn event_millis(t: Option<i64>) -> i64 {
    match t {
        Some(m) => if unix_millis_civil(m) is Some { m } else { 0 },
        None => 0,
    }
}

/// The time of an event as the console keeps it.
pub open spec fn event_time(t: Option<i64>) -> UtcTime {
    match unix_millis_civil(match t { Some(m) => m, None => 0 }) {
        Some(c) => c,
        None => epoch(),
    }
}

/// One event of a log stream as CloudWatch Logs gives it.
pub struct LogEventDescription {
    pub timestamp: Option<i64>,
    pub message: Option<String>,
}

/// The events of a page of a log stream, newest first, and whether there are
/// older ones.
pub struct LogEventsPage {
    pub events: Vec<LogEvent>,
    pub has_more: bool,
    pub next_backward_token: Option<String>,
}

/// `perm` orders the events of `ds` newest first: it holds each position of
/// `ds` once, and the times it goes through never go up.
pub open spec fn newest_first_order(perm: Seq<int>, ds: Seq<LogEventDescription>) -> bool {
    &&& perm.len() == ds.len()
    &&& perm.to_multiset() == Seq::new(ds.len(), |i: int| i).to_multiset()
    &&& forall|i: int| 0 <= i < perm.len() ==> 0 <= #[trigger] perm[i] < ds.len()
    &&& forall|i: int, j: int| 0 <= i < j < perm.len() ==> event_millis(ds[#[trigger] perm[i]].timestamp)
        >= event_millis(ds[#[trigger] perm[j]].timestamp)
}

/// A paging token by its characters.
pub open spec fn token_text(t: Option<String>) -> Option<Seq<char>> {
    match t {
        Some(s) => Some(s@),
        None => None,
    }
}

/// `e` is the event CloudWatch Logs describes as `d`.
pub open spec fn is_event_of(e: LogEvent, d: LogEventDescription) -> bool {
    &&& e.timestamp == event_time(d.timestamp)
    &&& e.message@ == (match d.message { Some(m) => m@, None => Seq::empty() })
}

fn event_millis_exec(t: Option<i64>) -> (r: i64)
    ensures
        r == event_millis(t),
{
    match t {
        Some(m) => if civil_from_millis(m).is_some() { m } else { 0 },
        None => 0,
    }
}

fn event_from(d: &LogEventDescription) -> (r: LogEvent)
    ensures
        is_event_of(r, *d),
{
    let m = match d.timestamp {
        Some(m) => m,
        None => 0,
    };
    let timestamp = match civil_from_millis(m) {
        Some(c) => c,
        None => UtcTime { year: 1970, month: 1, day: 1, hour: 0, minute: 0, second: 0 },
    };
    LogEvent {
        timestamp,
        message: match &d.message {
            Some(msg) => msg.clone(),
            None => String::new(),
        },
    }
}

/// A page of a log stream's events: the events newest first (events of the
/// same time keep their order), and whether there are older ones: there are
/// when the page has events and CloudWatch Logs gave a backward token other
/// than the one asked with.
pub fn log_events_page(
    descriptions: &Vec<LogEventDescription>,
    asked_token: &Option<String>,
    next_backward_token: Option<String>,
) -> (r: LogEventsPage)
    ensures
        r.events@.len() == descriptions@.len(),
        exists|perm: Seq<int>| #[trigger] newest_first_order(perm, descriptions@)
            && forall|i: int| 0 <= i < perm.len() ==> is_event_of(#[trigger] r.events@[i], descriptions@[perm[i]]),
        r.has_more == (next_backward_token is Some && token_text(next_backward_token) != token_text(*asked_token)
            && descriptions@.len() > 0),
        r.next_backward_token == next_backward_token,
{
    broadcast use vstd::seq_lib::group_to_multiset_ensures;
    let n = descriptions.len();
    let ghost ds = descriptions@;
    let mut keys: Vec<i64> = Vec::new();
    let mut k: usize = 0;
    while k < n
        invariant
            n == ds.len(),
            ds == descriptions@,
            k <= n,
            keys@.len() == k,
            forall|j: int| 0 <= j < k ==> #[trigger] keys@[j] == event_millis(ds[j].timestamp),
        decreases n - k,
    {
        keys.push(event_millis_exec(descriptions[k].timestamp));
        k = k + 1;
    }
    let mut order: Vec<usize> = Vec::new();
    let mut i: usize = 0;
    assert(Seq::new(0nat, |j: int| j) =~= Seq::<int>::empty());
    assert(order@.map_values(|x: usize| x as int) =~= Seq::<int>::empty());
    while i < n
        invariant
            n == ds.len(),
            ds == descriptions@,
            keys@.len() == n,
            forall|j: int| 0 <= j < n ==> #[trigger] keys@[j] == event_millis(ds[j].timestamp),
            i <= n,
            order@.len() == i,
            order@.map_values(|x: usize| x as int).to_multiset() == Seq::new(i as nat, |j: int| j).to_multiset(),
            forall|a: int| 0 <= a < order@.len() ==> #[trigger] order@[a] < i,
            forall|a: int, b: int| 0 <= a < b < order@.len() ==> keys@[#[trigger] order@[a] as int] >= keys@[#[trigger] order@[b] as int],
        decreases n - i,
    {
        let key = keys[i];
        let m = order.len();
        let mut p: usize = 0;
        while p < m && keys[order[p]] >= key
            invariant
                m == order@.len(),
                p <= m,
                keys@.len() == n,
                i < n,
                forall|a: int| 0 <= a < order@.len() ==> #[trigger] order@[a] < i,
                forall|a: int| 0 <= a < p ==> keys@[#[trigger] order@[a] as int] >= key,
            decreases m - p,
        {
            p = p + 1;
        }
        let ghost before = order@;
        order.insert(p, i);
        assert(order@ == before.insert(p as int, i));
        proof {
            assert(order@.map_values(|x: usize| x as int) =~= before.map_values(|x: usize| x as int).insert(p as int, i as int));
            vstd::seq_lib::to_multiset_insert(before.map_values(|x: usize| x as int), p as int, i as int);
            assert(Seq::new((i + 1) as nat, |j: int| j) =~= Seq::new(i as nat, |j: int| j).push(i as int));
            vstd::seq_lib::to_multiset_build(Seq::new(i as nat, |j: int| j), i as int);
            assert forall|a: int, b: int| 0 <= a < b < order@.len() implies keys@[#[trigger] order@[a] as int] >= keys@[#[trigger] order@[b] as int] by {
                if a < p && b < p {
                    assert(order@[a] == before[a] && order@[b] == before[b]);
                } else if a < p && b == p {
                    assert(order@[a] == before[a]);
                } else if a < p && b > p {
                    assert(order@[a] == before[a] && order@[b] == before[b - 1]);
                } else if a == p {
                    assert(order@[b] == before[b - 1]);
                    assert(keys@[before[p as int] as int] < key);
                } else {
                    assert(order@[a] == before[a - 1] && order@[b] == before[b - 1]);
                }
            }
        }
        i = i + 1;
    }
    let mut events: Vec<LogEvent> = Vec::new();
    let mut e: usize = 0;
    while e < n
        invariant
            n == ds.len(),
            ds == descriptions@,
            order@.len() == n,
            forall|a: int| 0 <= a < order@.len() ==> #[trigger] order@[a] < n,
            e <= n,
            events@.len() == e,
            forall|a: int| 0 <= a < e ==> is_event_of(#[trigger] events@[a], ds[order@[a] as int]),
        decreases n - e,
    {
        events.push(event_from(&descriptions[order[e]]));
        e = e + 1;
    }
    let ghost perm = order@.map_values(|x: usize| x as int);
    assert(newest_first_order(perm, ds)) by {
        assert forall|a: int, b: int| 0 <= a < b < perm.len() implies event_millis(ds[#[trigger] perm[a]].timestamp)
            >= event_millis(ds[#[trigger] perm[b]].timestamp) by {
            assert(keys@[order@[a] as int] >= keys@[order@[b] as int]);
        }
    }
    assert(forall|a: int| 0 <= a < perm.len() ==> is_event_of(#[trigger] events@[a], descriptions@[perm[a]]));
    let has_more = match (&next_backward_token, asked_token) {
        (Some(t), Some(a)) => !str_eq(t.as_str(), a.as_str()) && n > 0,
        (Some(_), None) => n > 0,
        _ => false,
    };
    LogEventsPage { events, has_more, next_backward_token }
}


/// The text of an optional string: empty when absent.
pub open spec fn or_empty(o: Option<String>) -> Seq<char> {
    match o {
        Some(s) => s@,
        None => Seq::empty(),
    }
}

fn or_empty_of(o: &Option<String>) -> (r: String)
    ensures
        r@ == or_empty(*o),
{
    match o {
        Some(s) => s.clone(),
        None => String::new(),
    }
}

/// The status of a Logs Insights query and its rows of fields and values,
/// from what CloudWatch Logs gives: the status by name (`Unknown` when not
/// given), absent field names and values left empty.
pub fn query_results_from(
    status: &Option<String>,
    rows: &Vec<Vec<(Option<String>, Option<String>)>>,
) -> (r: (String, Vec<Vec<(String, String)>>))
    ensures
        r.0@ == (match *status { Some(s) => s@, None => "Unknown"@ }),
        r.1@.len() == rows@.len(),
        forall|i: int| 0 <= i < rows@.len() ==> {
            &&& (#[trigger] r.1@[i])@.len() == rows@[i]@.len()
            &&& forall|j: int| 0 <= j < rows@[i]@.len() ==> (#[trigger] r.1@[i]@[j].0@, r.1@[i]@[j].1@)
                == (or_empty(rows@[i]@[j].0), or_empty(rows@[i]@[j].1))
        },
{
    let st = match status {
        Some(s) => s.clone(),
        None => String::from_str("Unknown"),
    };
    proof {
        reveal_strlit("Unknown");
    }
    let mut out: Vec<Vec<(String, String)>> = Vec::new();
    let mut i: usize = 0;
    while i < rows.len()
        invariant
            i <= rows@.len(),
            out@.len() == i,
            forall|a: int| 0 <= a < i ==> {
                &&& (#[trigger] out@[a])@.len() == rows@[a]@.len()
                &&& forall|j: int| 0 <= j < rows@[a]@.len() ==> (#[trigger] out@[a]@[j].0@, out@[a]@[j].1@)
                    == (or_empty(rows@[a]@[j].0), or_empty(rows@[a]@[j].1))
            },
        decreases rows@.len() - i,
    {
        let row = &rows[i];
        let mut fields: Vec<(String, String)> = Vec::new();
        let mut j: usize = 0;
        while j < row.len()
            invariant
                j <= row@.len(),
                fields@.len() == j,
                forall|b: int| 0 <= b < j ==> (#[trigger] fields@[b].0@, fields@[b].1@) == (or_empty(row@[b].0), or_empty(row@[b].1)),
            decreases row@.len() - j,
        {
            fields.push((or_empty_of(&row[j].0), or_empty_of(&row[j].1)));
            j = j + 1;
        }
        out.push(fields);
        i = i + 1;
    }
    (st, out)
}

} // verus!

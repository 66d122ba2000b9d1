//! CloudWatch views: alarms, log groups and Logs Insights.
use vstd::prelude::*;
use crate::cloud::logs::{LogEvent, LogGroup, LogStream};
use crate::common::{first_value, lookup, with_defaults, InputFocus, Translations};
use crate::table::{kept_indices, TableState};
use crate::text::{filter_keeps, filter_matches};

pub mod actions;
pub mod alarms;
pub mod insights;
pub mod logs;
pub mod tag;

pub use alarms::{Alarm, AlarmColumn};
pub use logs::{EventColumn, LogGroupColumn, StreamColumn};

use crate::common::{cyclic_next, cyclic_prev, lemma_cyclic_law, CyclicEnum};

verus! {

/// Gives the alarm columns, then the log columns, their default labels, unless
/// they already have a translation.
pub fn init(tr: &mut Translations)
    ensures
        forall|k: Seq<char>| #[trigger] lookup(final(tr).entries@, k) == with_defaults(
            with_defaults(
                lookup(old(tr).entries@, k),
                AlarmColumn::default_pairs().0,
                AlarmColumn::default_pairs().1,
                k,
            ),
            logs::default_labels().0,
            logs::default_labels().1,
            k,
        ),
{
    let ghost t0 = tr.entries@;
    alarms::init(tr);
    let ghost t1 = tr.entries@;
    logs::init(tr);
    assert forall|k: Seq<char>| #[trigger] lookup(tr.entries@, k) == with_defaults(
        with_defaults(lookup(t0, k), AlarmColumn::default_pairs().0, AlarmColumn::default_pairs().1, k),
        logs::default_labels().0,
        logs::default_labels().1,
        k,
    ) by {
        assert(lookup(t1, k) == with_defaults(lookup(t0, k), AlarmColumn::default_pairs().0, AlarmColumn::default_pairs().1, k));
    }
}

// ── Alarms ───────────────────────────────────────────────────────────────────

/// The two lists of the alarms view.
#[derive(Clone, Copy, Debug, PartialEq, Eq, Structural)]
pub enum AlarmTab {
    AllAlarms,
    InAlarm,
}

/// Tabs of an open alarm, in display order.
#[derive(Clone, Copy, Debug, PartialEq, Eq, Structural)]
pub enum AlarmDetailTab {
    Details,
    Actions,
    History,
}

impl AlarmDetailTab {
    /// The tab after this one, wrapping around.
    pub open spec fn following(self) -> AlarmDetailTab {
        match self {
            AlarmDetailTab::Details => AlarmDetailTab::Actions,
            AlarmDetailTab::Actions => AlarmDetailTab::History,
            AlarmDetailTab::History => AlarmDetailTab::Details,
        }
    }

    /// The tab before this one, wrapping around.
    pub open spec fn preceding(self) -> AlarmDetailTab {
        match self {
            AlarmDetailTab::Details => AlarmDetailTab::History,
            AlarmDetailTab::Actions => AlarmDetailTab::Details,
            AlarmDetailTab::History => AlarmDetailTab::Actions,
        }
    }

    /// The tab after this one, wrapping around.
    pub fn next(&self) -> (r: AlarmDetailTab)
        ensures
            r == self.following(),
    {
        match self {
            AlarmDetailTab::Details => AlarmDetailTab::Actions,
            AlarmDetailTab::Actions => AlarmDetailTab::History,
            AlarmDetailTab::History => AlarmDetailTab::Details,
        }
    }

    /// The tab before this one, wrapping around.
    pub fn prev(&self) -> (r: AlarmDetailTab)
        ensures
            r == self.preceding(),
    {
        match self {
            AlarmDetailTab::Details => AlarmDetailTab::History,
            AlarmDetailTab::Actions => AlarmDetailTab::Details,
            AlarmDetailTab::History => AlarmDetailTab::Actions,
        }
    }

    /// Going forward one and back one (or back, then forward) returns to
    /// where it started.
    pub proof fn lemma_cycle(t: AlarmDetailTab)
        ensures
            t.following().preceding() == t,
            t.preceding().following() == t,
            <AlarmDetailTab as CyclicEnum>::all_values().no_duplicates(),
            t.following() == cyclic_next(<AlarmDetailTab as CyclicEnum>::all_values(), t),
            t.preceding() == cyclic_prev(<AlarmDetailTab as CyclicEnum>::all_values(), t),
    {
        let all = <AlarmDetailTab as CyclicEnum>::all_values();
        assert(all.no_duplicates()) by {
            assert forall|a: int, b: int| 0 <= a < all.len() && 0 <= b < all.len() && a != b implies all[a] != all[b] by {
            }
        }
        match t {
            AlarmDetailTab::Details => lemma_cyclic_law(all, 0),
            AlarmDetailTab::Actions => lemma_cyclic_law(all, 1),
            AlarmDetailTab::History => lemma_cyclic_law(all, 2),
        }
    }
}

/// The controls of the alarms filter bar, in focus order.
pub open spec fn alarm_filter_controls() -> Seq<InputFocus> {
    seq![InputFocus::Filter, InputFocus::Pagination]
}

/// The controls of the alarms filter bar, in focus order.
pub fn alarm_filter_control_list() -> (r: Vec<InputFocus>)
    ensures
        r@ == alarm_filter_controls(),
{
    let r = vec![InputFocus::Filter, InputFocus::Pagination];
    assert(r@ =~= alarm_filter_controls());
    r
}

/// State of the alarms view. Metric points are (timestamp, bit pattern of the
/// IEEE 754 double value).
pub struct AlarmsState {
    pub table: TableState<Alarm>,
    pub alarm_tab: AlarmTab,
    pub current_alarm: Option<String>,
    pub detail_tab: AlarmDetailTab,
    pub input_focus: InputFocus,
    pub metrics_loading: bool,
    pub metric_data: Vec<(i64, u64)>,
}

// ── Log groups ───────────────────────────────────────────────────────────────

/// The filter controls of a log stream's events.
#[derive(Clone, Copy, Debug, PartialEq, Eq, Structural)]
pub enum EventFilterFocus {
    Filter,
    DateRange,
}

impl EventFilterFocus {
    /// The other control.
    pub open spec fn following(self) -> EventFilterFocus {
        match self {
            EventFilterFocus::Filter => EventFilterFocus::DateRange,
            EventFilterFocus::DateRange => EventFilterFocus::Filter,
        }
    }

    /// The control after this one, wrapping around.
    pub fn next(&self) -> (r: EventFilterFocus)
        ensures
            r == self.following(),
    {
        match self {
            EventFilterFocus::Filter => EventFilterFocus::DateRange,
            EventFilterFocus::DateRange => EventFilterFocus::Filter,
        }
    }

    /// The control before this one, wrapping around.
    pub fn prev(&self) -> (r: EventFilterFocus)
        ensures
            r == self.following(),
    {
        match self {
            EventFilterFocus::Filter => EventFilterFocus::DateRange,
            EventFilterFocus::DateRange => EventFilterFocus::Filter,
        }
    }
}

/// The controls of the log group list's filter bar, in focus order.
pub open spec fn list_filter_controls() -> Seq<InputFocus> {
    seq![InputFocus::Filter, InputFocus::Pagination]
}

/// The controls of the log stream list's filter bar, in focus order.
pub open spec fn stream_filter_controls() -> Seq<InputFocus> {
    seq![InputFocus::Filter, InputFocus::Checkbox("exact"), InputFocus::Checkbox("show_expired"), InputFocus::Pagination]
}

/// The controls of the log group list's filter bar, in focus order.
pub fn list_filter_control_list() -> (r: Vec<InputFocus>)
    ensures
        r@ == list_filter_controls(),
{
    let r = vec![InputFocus::Filter, InputFocus::Pagination];
    assert(r@ =~= list_filter_controls());
    r
}

/// The controls of the log stream list's filter bar, in focus order.
pub fn stream_filter_control_list() -> (r: Vec<InputFocus>)
    ensures
        r@ == stream_filter_controls(),
{
    let r = vec![InputFocus::Filter, InputFocus::Checkbox("exact"), InputFocus::Checkbox("show_expired"), InputFocus::Pagination];
    assert(r@ =~= stream_filter_controls());
    r
}

/// State of the log groups view: the groups, the streams of the open group and
/// the events of the open stream.
pub struct LogGroupsState {
    pub log_groups: TableState<LogGroup>,
    pub log_streams: Vec<LogStream>,
    pub log_events: Vec<LogEvent>,
    pub tags: TableState<(String, String)>,
    pub input_focus: InputFocus,
    pub event_input_focus: EventFilterFocus,
    pub stream_filter: String,
    pub selected_stream: usize,
    pub expanded_stream: Option<usize>,
    pub stream_page_size: usize,
    pub stream_current_page: usize,
    pub event_scroll_offset: usize,
    pub expanded_event: Option<usize>,
    pub selected_event: usize,
    pub has_older_events: bool,
    pub loading: bool,
    pub next_backward_token: Option<String>,
}

/// Indices of the log groups whose name passes the filter.
pub open spec fn filtered_group_rows(s: LogGroupsState) -> Seq<usize> {
    kept_indices(s.log_groups.items@.len(), |k: int| filter_keeps(s.log_groups.filter@, s.log_groups.items@[k].name@))
}

/// Indices of the streams whose name passes the stream filter.
pub open spec fn filtered_stream_rows(s: LogGroupsState) -> Seq<usize> {
    kept_indices(s.log_streams@.len(), |k: int| filter_keeps(s.stream_filter@, s.log_streams@[k].name@))
}

/// Indices of the log groups whose name passes the filter.
pub fn filtered_log_groups(s: &LogGroupsState) -> (r: Vec<usize>)
    ensures
        r@ == filtered_group_rows(*s),
{
    let n = s.log_groups.items.len();
    let mut out: Vec<usize> = Vec::new();
    let mut i: usize = 0;
    while i < n
        invariant
            n == s.log_groups.items@.len(),
            i <= n,
            out@ == kept_indices(i as nat, |k: int| filter_keeps(s.log_groups.filter@, s.log_groups.items@[k].name@)),
        decreases n - i,
    {
        if filter_matches(s.log_groups.filter.as_str(), s.log_groups.items[i].name.as_str()) {
            out.push(i);
        }
        i = i + 1;
    }
    out
}

/// Indices of the streams whose name passes the stream filter.
pub fn filtered_log_streams(s: &LogGroupsState) -> (r: Vec<usize>)
    ensures
        r@ == filtered_stream_rows(*s),
{
    let n = s.log_streams.len();
    let mut out: Vec<usize> = Vec::new();
    let mut i: usize = 0;
    while i < n
        invariant
            n == s.log_streams@.len(),
            i <= n,
            out@ == kept_indices(i as nat, |k: int| filter_keeps(s.stream_filter@, s.log_streams@[k].name@)),
        decreases n - i,
    {
        if filter_matches(s.stream_filter.as_str(), s.log_streams[i].name.as_str()) {
            out.push(i);
        }
        i = i + 1;
    }
    out
}


impl CyclicEnum for AlarmDetailTab {
    open spec fn all_values() -> Seq<AlarmDetailTab> {
        seq![AlarmDetailTab::Details, AlarmDetailTab::Actions, AlarmDetailTab::History]
    }

    fn all() -> (r: Vec<AlarmDetailTab>) {
        let r = vec![AlarmDetailTab::Details, AlarmDetailTab::Actions, AlarmDetailTab::History];
        assert(r@ =~= Self::all_values());
        r
    }

    fn next(&self) -> (r: AlarmDetailTab) {
        proof {
            AlarmDetailTab::lemma_cycle(*self);
        }
        AlarmDetailTab::next(self)
    }

    fn prev(&self) -> (r: AlarmDetailTab) {
        proof {
            AlarmDetailTab::lemma_cycle(*self);
        }
        AlarmDetailTab::prev(self)
    }

    proof fn lemma_values_listed() {
        let all = Self::all_values();
        AlarmDetailTab::lemma_cycle(AlarmDetailTab::Details);
        assert forall|x: AlarmDetailTab| all.contains(x) by {
            match x {
                AlarmDetailTab::Details => assert(all[0] == x),
                AlarmDetailTab::Actions => assert(all[1] == x),
                AlarmDetailTab::History => assert(all[2] == x),
            }
        }
    }
}

} // verus!

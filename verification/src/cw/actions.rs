//! Key-handling actions of the CloudWatch views: alarms, log groups and
//! Logs Insights.
use vstd::prelude::*;
use vstd::string::*;
use crate::app::{App, Service, ViewMode};
use crate::cloud::logs::{LogGroup, LogStream};
use crate::columns::string_names;
use crate::common::{
    cycle_next, cycle_prev, div_ceil, first_index_of, lemma_first_index_of_found, lemma_first_index_of_prefix, min_usize,
    nav_page_down, sat_sub, InputFocus,
};
use crate::cw::{
    alarm_filter_control_list, alarm_filter_controls, filtered_group_rows, filtered_log_groups,
    filtered_log_streams, filtered_stream_rows, list_filter_control_list, list_filter_controls,
    stream_filter_control_list, stream_filter_controls, Alarm, AlarmDetailTab, AlarmTab, AlarmsState,
    LogGroupsState,
};
use crate::cw::insights::{InsightsFocus, InsightsState};
use crate::table::{min_int, TableState};
use crate::text::{lower_case, str_eq, to_upper, upper_case};

verus! {

/// Whether an upper-cased alarm state is `ALARM`.
pub open spec fn names_alarm(upper: Seq<char>) -> bool {
    upper == "ALARM"@
}

/// Whether an upper-cased alarm state is `ALARM`.
pub fn upper_names_alarm(upper: &str) -> (r: bool)
    ensures
        r == names_alarm(upper@),
{
    str_eq(upper, "ALARM")
}

// ── CloudWatch Alarms ────────────────────────────────────────────────────────

/// Whether an alarm's state reads `ALARM`, in any letter case.
pub open spec fn is_in_alarm(a: Alarm) -> bool {
    names_alarm(upper_case(a.state@))
}

/// How many of `items` are in the `ALARM` state.
pub open spec fn in_alarm_count(items: Seq<Alarm>) -> nat
    decreases items.len(),
{
    if items.len() == 0 {
        0
    } else {
        in_alarm_count(items.drop_last()) + if is_in_alarm(items.last()) { 1nat } else { 0nat }
    }
}

/// The number of alarms the current list shows.
pub open spec fn alarm_row_count(s: AlarmsState) -> nat {
    match s.alarm_tab {
        AlarmTab::AllAlarms => s.table.items@.len(),
        AlarmTab::InAlarm => in_alarm_count(s.table.items@),
    }
}

proof fn lemma_in_alarm_count_le(items: Seq<Alarm>)
    ensures
        in_alarm_count(items) <= items.len(),
    decreases items.len(),
{
    if items.len() > 0 {
        lemma_in_alarm_count_le(items.drop_last());
    }
}

/// `s` with its table replaced by `t`.
pub open spec fn alarms_with_table(s: AlarmsState, t: TableState<Alarm>) -> AlarmsState {
    AlarmsState { table: t, ..s }
}

/// The number of alarms the current list shows: all of them, or on the
/// `In alarm` tab those whose state reads `ALARM`.
pub fn alarms_get_filtered_count(app: &App) -> (r: usize)
    ensures
        r == alarm_row_count(app.alarms_state),
{
    match app.alarms_state.alarm_tab {
        AlarmTab::AllAlarms => app.alarms_state.table.items.len(),
        AlarmTab::InAlarm => {
            let n = app.alarms_state.table.items.len();
            let mut count: usize = 0;
            let mut i: usize = 0;
            while i < n
                invariant
                    n == app.alarms_state.table.items@.len(),
                    i <= n,
                    count == in_alarm_count(app.alarms_state.table.items@.subrange(0, i as int)),
                decreases n - i,
            {
                let ghost prefix = app.alarms_state.table.items@.subrange(0, i + 1);
                assert(prefix.drop_last() =~= app.alarms_state.table.items@.subrange(0, i as int));
                proof {
                    lemma_in_alarm_count_le(app.alarms_state.table.items@.subrange(0, i as int));
                }
                let up = to_upper(app.alarms_state.table.items[i].state.as_str());
                if upper_names_alarm(up.as_str()) {
                    count = count + 1;
                }
                i = i + 1;
            }
            assert(app.alarms_state.table.items@.subrange(0, n as int) =~= app.alarms_state.table.items@);
            count
        },
    }
}

/// Puts the alarm table back at its first row after the filter changed.
pub fn alarms_apply_filter_reset(app: &mut App)
    ensures
        final(app).alarms_state == alarms_with_table(old(app).alarms_state, final(app).alarms_state.table),
        final(app).alarms_state.table.was_reset(old(app).alarms_state.table),
        final(app).unchanged_except(*old(app), Service::CloudWatchAlarms),
        final(app).keeps_shell(*old(app)),
{
    app.alarms_state.table.reset();
}

/// Whether the pagination control of the alarms filter bar has the focus.
pub fn alarms_is_pagination_focused(app: &App) -> (r: bool)
    ensures
        r == app.alarms_state.input_focus.same(InputFocus::Pagination),
{
    app.alarms_state.input_focus.is(&InputFocus::Pagination)
}

/// Moves the focus to the next control of the alarms filter bar.
pub fn alarms_next_filter_focus(app: &mut App)
    ensures
        final(app).alarms_state == (AlarmsState {
            input_focus: cycle_next(alarm_filter_controls(), old(app).alarms_state.input_focus),
            ..old(app).alarms_state
        }),
        final(app).unchanged_except(*old(app), Service::CloudWatchAlarms),
        final(app).keeps_shell(*old(app)),
{
    let controls = alarm_filter_control_list();
    app.alarms_state.input_focus = app.alarms_state.input_focus.next(controls.as_slice());
}

/// Moves the focus to the previous control of the alarms filter bar.
pub fn alarms_prev_filter_focus(app: &mut App)
    ensures
        final(app).alarms_state == (AlarmsState {
            input_focus: cycle_prev(alarm_filter_controls(), old(app).alarms_state.input_focus),
            ..old(app).alarms_state
        }),
        final(app).unchanged_except(*old(app), Service::CloudWatchAlarms),
        final(app).keeps_shell(*old(app)),
{
    let controls = alarm_filter_control_list();
    app.alarms_state.input_focus = app.alarms_state.input_focus.prev(controls.as_slice());
}

/// Starting to filter alarms changes nothing here: the filter input already
/// has the focus, and the caller switches the input mode.
pub fn alarms_start_filter(app: &mut App)
    ensures
        *final(app) == *old(app),
{
}

/// On an open alarm: its next tab. In the list: the other list (all alarms or
/// those in alarm), from its first row.
pub fn alarms_next_detail_tab(app: &mut App)
    ensures
        ({
            let s = old(app).alarms_state;
            let t = final(app).alarms_state;
            if s.current_alarm is Some {
                t == (AlarmsState { detail_tab: s.detail_tab.following(), ..s })
            } else {
                &&& t == (AlarmsState {
                    alarm_tab: if s.alarm_tab == AlarmTab::AllAlarms { AlarmTab::InAlarm } else { AlarmTab::AllAlarms },
                    table: t.table,
                    ..s
                })
                &&& t.table.was_reset(s.table)
            }
        }),
        final(app).unchanged_except(*old(app), Service::CloudWatchAlarms),
        final(app).keeps_shell(*old(app)),
{
    if app.alarms_state.current_alarm.is_some() {
        app.alarms_state.detail_tab = app.alarms_state.detail_tab.next();
    } else {
        app.alarms_state.alarm_tab = match app.alarms_state.alarm_tab {
            AlarmTab::AllAlarms => AlarmTab::InAlarm,
            AlarmTab::InAlarm => AlarmTab::AllAlarms,
        };
        app.alarms_state.table.reset();
    }
}

/// On an open alarm: its previous tab. In the list: the other list, keeping
/// the cursor.
pub fn alarms_prev_detail_tab(app: &mut App)
    ensures
        ({
            let s = old(app).alarms_state;
            if s.current_alarm is Some {
                final(app).alarms_state == (AlarmsState { detail_tab: s.detail_tab.preceding(), ..s })
            } else {
                final(app).alarms_state == (AlarmsState {
                    alarm_tab: if s.alarm_tab == AlarmTab::AllAlarms { AlarmTab::InAlarm } else { AlarmTab::AllAlarms },
                    ..s
                })
            }
        }),
        final(app).unchanged_except(*old(app), Service::CloudWatchAlarms),
        final(app).keeps_shell(*old(app)),
{
    if app.alarms_state.current_alarm.is_some() {
        app.alarms_state.detail_tab = app.alarms_state.detail_tab.prev();
    } else {
        app.alarms_state.alarm_tab = match app.alarms_state.alarm_tab {
            AlarmTab::AllAlarms => AlarmTab::InAlarm,
            AlarmTab::InAlarm => AlarmTab::AllAlarms,
        };
    }
}

/// The next alarm of the current list.
pub fn alarms_next_item(app: &mut App)
    ensures
        final(app).alarms_state == alarms_with_table(old(app).alarms_state, final(app).alarms_state.table),
        final(app).alarms_state.table.moved_down(
            old(app).alarms_state.table,
            alarm_row_count(old(app).alarms_state) as int,
        ),
        final(app).unchanged_except(*old(app), Service::CloudWatchAlarms),
        final(app).keeps_shell(*old(app)),
{
    let filtered = alarms_get_filtered_count(app);
    if filtered > 0 {
        app.alarms_state.table.next_item(filtered);
    }
}

/// The previous alarm.
pub fn alarms_prev_item(app: &mut App)
    ensures
        final(app).alarms_state == alarms_with_table(old(app).alarms_state, final(app).alarms_state.table),
        final(app).alarms_state.table.moved_up(old(app).alarms_state.table),
        final(app).unchanged_except(*old(app), Service::CloudWatchAlarms),
        final(app).keeps_shell(*old(app)),
{
    app.alarms_state.table.prev_item();
}

/// In the filter bar: one page down through the pagination control, when it
/// has the focus.
pub fn alarms_page_down_filter_input(app: &mut App)
    requires
        old(app).alarms_state.table.selected + 100 <= usize::MAX,
    ensures
        ({
            let s = old(app).alarms_state;
            let ps = s.table.page_size.rows();
            if s.input_focus.same(InputFocus::Pagination) {
                final(app).alarms_state == alarms_with_table(s, TableState {
                    selected: min_usize((s.table.selected + ps) as usize, sat_sub(s.table.items@.len() as usize, ps)),
                    scroll_offset: min_usize((s.table.selected + ps) as usize, sat_sub(s.table.items@.len() as usize, ps)),
                    ..s.table
                })
            } else {
                final(app).alarms_state == s
            }
        }),
        final(app).unchanged_except(*old(app), Service::CloudWatchAlarms),
        final(app).keeps_shell(*old(app)),
{
    let page_size = app.alarms_state.table.page_size.value();
    let filtered_count = app.alarms_state.table.items.len();
    let focus = app.alarms_state.input_focus;
    focus.handle_page_down(
        &mut app.alarms_state.table.selected,
        &mut app.alarms_state.table.scroll_offset,
        page_size,
        filtered_count,
    );
}

/// One page down in the current list.
pub fn alarms_page_down_normal(app: &mut App)
    ensures
        final(app).alarms_state == alarms_with_table(old(app).alarms_state, final(app).alarms_state.table),
        final(app).alarms_state.table.paged_down(
            old(app).alarms_state.table,
            alarm_row_count(old(app).alarms_state) as int,
        ),
        final(app).unchanged_except(*old(app), Service::CloudWatchAlarms),
        final(app).keeps_shell(*old(app)),
{
    let filtered = alarms_get_filtered_count(app);
    if filtered > 0 {
        app.alarms_state.table.page_down(filtered);
    }
}

/// In the filter bar: one page up through the pagination control, when it has
/// the focus.
pub fn alarms_page_up_filter_input(app: &mut App)
    ensures
        ({
            let s = old(app).alarms_state;
            let ps = s.table.page_size.rows();
            if s.input_focus.same(InputFocus::Pagination) {
                final(app).alarms_state == alarms_with_table(s, TableState {
                    selected: sat_sub(s.table.selected, ps),
                    scroll_offset: sat_sub(s.table.selected, ps),
                    ..s.table
                })
            } else {
                final(app).alarms_state == s
            }
        }),
        final(app).unchanged_except(*old(app), Service::CloudWatchAlarms),
        final(app).keeps_shell(*old(app)),
{
    let page_size = app.alarms_state.table.page_size.value();
    let focus = app.alarms_state.input_focus;
    focus.handle_page_up(&mut app.alarms_state.table.selected, &mut app.alarms_state.table.scroll_offset, page_size);
}

/// One page up in the current list.
pub fn alarms_page_up_normal(app: &mut App)
    ensures
        final(app).alarms_state == alarms_with_table(old(app).alarms_state, final(app).alarms_state.table),
        final(app).alarms_state.table.paged_up(old(app).alarms_state.table),
        final(app).unchanged_except(*old(app), Service::CloudWatchAlarms),
        final(app).keeps_shell(*old(app)),
{
    app.alarms_state.table.page_up();
}

/// The first row of page `page` (1-based) of `count` rows, `ps` rows a page,
/// kept within the last page.
pub open spec fn alarm_page_start(page: int, ps: int, count: int) -> int {
    let pages = if (count + ps - 1) / ps > 1 { (count + ps - 1) / ps } else { 1 };
    min_int((page - 1) * ps, (pages - 1) * ps)
}

/// Shows page `page` (1-based) of the current list, the last page at most, and
/// selects its first row.
pub fn alarms_go_to_page(app: &mut App, page: usize)
    requires
        page >= 1,
        (page - 1) * old(app).alarms_state.table.page_size.rows() <= usize::MAX,
    ensures
        ({
            let s = old(app).alarms_state;
            let start = alarm_page_start(page as int, s.table.page_size.rows() as int, alarm_row_count(s) as int);
            final(app).alarms_state == alarms_with_table(s, TableState {
                scroll_offset: start as usize,
                selected: min_int(start, if alarm_row_count(s) > 0 { alarm_row_count(s) - 1 } else { 0 }) as usize,
                ..s.table
            })
        }),
        final(app).unchanged_except(*old(app), Service::CloudWatchAlarms),
        final(app).keeps_shell(*old(app)),
{
    let page_size = app.alarms_state.table.page_size.value();
    let target = (page - 1) * page_size;
    let filtered_count = alarms_get_filtered_count(app);
    let pages = div_ceil(filtered_count, page_size);
    let max_offset = if pages > 1 { (pages - 1) * page_size } else { 0 };
    let offset = if target < max_offset { target } else { max_offset };
    proof {
        let ps = page_size as int;
        let d = (filtered_count as int + ps - 1) / ps;
        assert(pages as int == d);
        let pg = if d > 1 { d } else { 1int };
        assert(max_offset as int == (pg - 1) * ps) by (nonlinear_arith)
            requires pg == (if d > 1 { d } else { 1int }), max_offset as int == (if pages > 1 { (pages as int - 1) * ps } else { 0int }), pages as int == d;
        assert(target as int == (page as int - 1) * ps);
    }
    assert(offset == alarm_page_start(page as int, page_size as int, filtered_count as int));
    app.alarms_state.table.scroll_offset = offset;
    let last = if filtered_count > 0 { filtered_count - 1 } else { 0 };
    app.alarms_state.table.selected = if offset < last { offset } else { last };
}

/// Opens the selected alarm row, when it is not open already.
pub fn alarms_expand_row(app: &mut App)
    ensures
        final(app).alarms_state == alarms_with_table(old(app).alarms_state, final(app).alarms_state.table),
        old(app).alarms_state.table.expanded_item is None ==> final(app).alarms_state.table.expand_toggled(
            old(app).alarms_state.table,
        ),
        old(app).alarms_state.table.expanded_item is Some ==> final(app).alarms_state == old(app).alarms_state,
        final(app).unchanged_except(*old(app), Service::CloudWatchAlarms),
        final(app).keeps_shell(*old(app)),
{
    if !app.alarms_state.table.is_expanded() {
        app.alarms_state.table.toggle_expand();
    }
}

/// Opens the selected alarm row, or closes it when it is the open one.
pub fn alarms_select_expand(app: &mut App)
    ensures
        final(app).alarms_state == alarms_with_table(old(app).alarms_state, final(app).alarms_state.table),
        final(app).alarms_state.table.expand_toggled(old(app).alarms_state.table),
        final(app).unchanged_except(*old(app), Service::CloudWatchAlarms),
        final(app).keeps_shell(*old(app)),
{
    app.alarms_state.table.toggle_expand();
}

fn all_alarm_rows(s: &AlarmsState) -> (r: Vec<usize>)
    ensures
        r@.len() == s.table.items@.len(),
        forall|i: int| 0 <= i < r@.len() ==> r@[i] == i,
{
    let n = s.table.items.len();
    let mut r: Vec<usize> = Vec::new();
    let mut i: usize = 0;
    while i < n
        invariant
            n == s.table.items@.len(),
            i <= n,
            r@.len() == i,
            forall|j: int| 0 <= j < i ==> r@[j] == j,
        decreases n - i,
    {
        r.push(i);
        i = i + 1;
    }
    r
}

/// Opens the selected alarm on its details tab, marks its metrics for loading,
/// shows the detail view and retitles the tab.
pub fn alarms_select_item(app: &mut App)
    ensures
        ({
            let s = old(app).alarms_state;
            if s.current_alarm is None && s.table.selected < s.table.items@.len() {
                &&& final(app).alarms_state == (AlarmsState {
                    current_alarm: Some(s.table.items@[s.table.selected as int].name),
                    metrics_loading: true,
                    detail_tab: AlarmDetailTab::Details,
                    ..s
                })
                &&& final(app).view_mode == ViewMode::Detail
                &&& string_names(final(app).tab_breadcrumb@) == final(app).current_breadcrumb()
            } else {
                &&& final(app).alarms_state == s
                &&& final(app).view_mode == old(app).view_mode
                &&& final(app).tab_breadcrumb@ == old(app).tab_breadcrumb@
            }
        }),
        final(app).unchanged_except(*old(app), Service::CloudWatchAlarms),
        final(app).column_selector_index == old(app).column_selector_index,
        final(app).current_service == old(app).current_service,
{
    if app.alarms_state.current_alarm.is_none() {
        let rows = all_alarm_rows(&app.alarms_state);
        match app.alarms_state.table.get_selected(&rows) {
            Some(idx) => {
                let name = app.alarms_state.table.items[idx].name.clone();
                app.alarms_state.current_alarm = Some(name);
                app.alarms_state.metrics_loading = true;
                app.alarms_state.detail_tab = AlarmDetailTab::Details;
                app.view_mode = ViewMode::Detail;
                app.update_current_tab_breadcrumb();
            },
            None => {},
        }
    }
}

/// Closes the open alarm row.
pub fn alarms_prev_pane(app: &mut App)
    ensures
        final(app).alarms_state == alarms_with_table(old(app).alarms_state, final(app).alarms_state.table),
        final(app).alarms_state.table.collapsed(old(app).alarms_state.table),
        final(app).unchanged_except(*old(app), Service::CloudWatchAlarms),
        final(app).keeps_shell(*old(app)),
{
    app.alarms_state.table.collapse();
}

/// Closes the open alarm row.
pub fn alarms_collapse_row(app: &mut App)
    ensures
        final(app).alarms_state == alarms_with_table(old(app).alarms_state, final(app).alarms_state.table),
        final(app).alarms_state.table.collapsed(old(app).alarms_state.table),
        final(app).unchanged_except(*old(app), Service::CloudWatchAlarms),
        final(app).keeps_shell(*old(app)),
{
    app.alarms_state.table.collapse();
}

/// Leaves the open alarm: its metric points are dropped, the list shows again
/// and the tab is retitled.
pub fn alarms_go_back(app: &mut App)
    ensures
        final(app).alarms_state == (AlarmsState {
            current_alarm: None,
            metric_data: final(app).alarms_state.metric_data,
            ..old(app).alarms_state
        }),
        final(app).alarms_state.metric_data@.len() == 0,
        final(app).view_mode == ViewMode::List,
        string_names(final(app).tab_breadcrumb@) == final(app).current_breadcrumb(),
        final(app).unchanged_except(*old(app), Service::CloudWatchAlarms),
        final(app).column_selector_index == old(app).column_selector_index,
        final(app).current_service == old(app).current_service,
{
    app.alarms_state.current_alarm = None;
    app.alarms_state.metric_data.clear();
    app.view_mode = ViewMode::List;
    app.update_current_tab_breadcrumb();
}

/// In the list: closes the open alarm row, if any.
pub fn alarms_go_back_list(app: &mut App)
    ensures
        final(app).alarms_state == alarms_with_table(old(app).alarms_state, final(app).alarms_state.table),
        old(app).alarms_state.table.expanded_item is Some ==> final(app).alarms_state.table.collapsed(
            old(app).alarms_state.table,
        ),
        old(app).alarms_state.table.expanded_item is None ==> final(app).alarms_state == old(app).alarms_state,
        final(app).unchanged_except(*old(app), Service::CloudWatchAlarms),
        final(app).keeps_shell(*old(app)),
{
    if app.alarms_state.table.has_expanded_item() {
        app.alarms_state.table.collapse();
    }
}

/// Marks the metrics of the open alarm for loading again.
pub fn alarms_refresh(app: &mut App)
    ensures
        final(app).alarms_state == (AlarmsState { metrics_loading: true, ..old(app).alarms_state }),
        final(app).unchanged_except(*old(app), Service::CloudWatchAlarms),
        final(app).keeps_shell(*old(app)),
{
    app.alarms_state.metrics_loading = true;
}

/// The last row of the alarms preferences panel.
pub fn alarms_column_selector_max(_app: &App) -> (r: usize)
    ensures
        r == 29,
{
    29
}

/// The number of columns of the alarm table.
pub fn alarms_column_count(_app: &App) -> (r: usize)
    ensures
        r == 14,
{
    14
}

/// The first row of the next section of the alarms preferences panel (rows
/// 18, 22 and 28 start sections), wrapping to the top.
pub open spec fn next_alarm_section(i: usize) -> usize {
    if i < 18 { 18 } else if i < 22 { 22 } else if i < 28 { 28 } else { 0 }
}

/// The first row of the previous section of the alarms preferences panel,
/// wrapping to the last.
pub open spec fn prev_alarm_section(i: usize) -> usize {
    if i >= 28 { 22 } else if i >= 22 { 18 } else if i >= 18 { 0 } else { 28 }
}

/// Moves the preferences cursor to the next section.
pub fn alarms_next_preferences(app: &mut App)
    ensures
        final(app).column_selector_index == next_alarm_section(old(app).column_selector_index),
        final(app).unchanged_except(*old(app), Service::Other),
        final(app).view_mode == old(app).view_mode,
        final(app).current_service == old(app).current_service,
        final(app).tab_breadcrumb@ == old(app).tab_breadcrumb@,
{
    app.column_selector_index = if app.column_selector_index < 18 {
        18
    } else if app.column_selector_index < 22 {
        22
    } else if app.column_selector_index < 28 {
        28
    } else {
        0
    };
}

/// Moves the preferences cursor to the previous section.
pub fn alarms_prev_preferences(app: &mut App)
    ensures
        final(app).column_selector_index == prev_alarm_section(old(app).column_selector_index),
        final(app).unchanged_except(*old(app), Service::Other),
        final(app).view_mode == old(app).view_mode,
        final(app).current_service == old(app).current_service,
        final(app).tab_breadcrumb@ == old(app).tab_breadcrumb@,
{
    app.column_selector_index = if app.column_selector_index >= 28 {
        22
    } else if app.column_selector_index >= 22 {
        18
    } else if app.column_selector_index >= 18 {
        0
    } else {
        28
    };
}

/// The breadcrumb of the alarms view.
pub open spec fn alarms_breadcrumb_of() -> Seq<Seq<char>> {
    seq!["CloudWatch"@, "Alarms"@]
}

/// The breadcrumb of the alarms view.
pub fn alarms_breadcrumb() -> (r: Vec<String>)
    ensures
        string_names(r@) == alarms_breadcrumb_of(),
{
    let r = vec![String::from_str("CloudWatch"), String::from_str("Alarms")];
    assert(string_names(r@) =~= alarms_breadcrumb_of());
    r
}

// ── CloudWatch Log Groups ─────────────────────────────────────────────────────

/// `s` with its log group table replaced by `t`.
pub open spec fn with_groups(s: LogGroupsState, t: TableState<LogGroup>) -> LogGroupsState {
    LogGroupsState { log_groups: t, ..s }
}

/// The names of the log groups.
pub open spec fn group_names(items: Seq<LogGroup>) -> Seq<Seq<char>> {
    items.map_values(|g: LogGroup| g.name@)
}

/// The names of the streams.
pub open spec fn stream_names(items: Seq<LogStream>) -> Seq<Seq<char>> {
    items.map_values(|g: LogStream| g.name@)
}

/// Whether the pagination control of the log groups filter bar has the focus.
pub fn logs_is_pagination_focused(app: &App) -> (r: bool)
    ensures
        r == app.log_groups_state.input_focus.same(InputFocus::Pagination),
{
    app.log_groups_state.input_focus.is(&InputFocus::Pagination)
}

/// Puts the log group table back at its first row after the filter changed.
pub fn logs_apply_filter_reset(app: &mut App)
    ensures
        final(app).log_groups_state == with_groups(old(app).log_groups_state, final(app).log_groups_state.log_groups),
        final(app).log_groups_state.log_groups.was_reset(old(app).log_groups_state.log_groups),
        final(app).unchanged_except(*old(app), Service::CloudWatchLogs),
        final(app).keeps_shell(*old(app)),
{
    app.log_groups_state.log_groups.reset();
}

/// The filter controls of the list on screen: the log group list's in the list
/// view, else the stream list's.
pub open spec fn logs_controls(v: ViewMode) -> Seq<InputFocus> {
    if v == ViewMode::List { list_filter_controls() } else { stream_filter_controls() }
}

/// Moves the focus to the next control of the filter bar on screen.
pub fn logs_next_filter_focus(app: &mut App)
    ensures
        final(app).log_groups_state == (LogGroupsState {
            input_focus: cycle_next(logs_controls(old(app).view_mode), old(app).log_groups_state.input_focus),
            ..old(app).log_groups_state
        }),
        final(app).unchanged_except(*old(app), Service::CloudWatchLogs),
        final(app).keeps_shell(*old(app)),
{
    if app.view_mode == ViewMode::List {
        let controls = list_filter_control_list();
        app.log_groups_state.input_focus = app.log_groups_state.input_focus.next(controls.as_slice());
    } else {
        let controls = stream_filter_control_list();
        app.log_groups_state.input_focus = app.log_groups_state.input_focus.next(controls.as_slice());
    }
}

/// Moves the focus to the previous control of the filter bar on screen.
pub fn logs_prev_filter_focus(app: &mut App)
    ensures
        final(app).log_groups_state == (LogGroupsState {
            input_focus: cycle_prev(logs_controls(old(app).view_mode), old(app).log_groups_state.input_focus),
            ..old(app).log_groups_state
        }),
        final(app).unchanged_except(*old(app), Service::CloudWatchLogs),
        final(app).keeps_shell(*old(app)),
{
    if app.view_mode == ViewMode::List {
        let controls = list_filter_control_list();
        app.log_groups_state.input_focus = app.log_groups_state.input_focus.prev(controls.as_slice());
    } else {
        let controls = stream_filter_control_list();
        app.log_groups_state.input_focus = app.log_groups_state.input_focus.prev(controls.as_slice());
    }
}

/// Moves the focus to the other control of the event filter.
pub fn logs_next_event_filter_focus(app: &mut App)
    ensures
        final(app).log_groups_state == (LogGroupsState {
            event_input_focus: old(app).log_groups_state.event_input_focus.following(),
            ..old(app).log_groups_state
        }),
        final(app).unchanged_except(*old(app), Service::CloudWatchLogs),
        final(app).keeps_shell(*old(app)),
{
    app.log_groups_state.event_input_focus = app.log_groups_state.event_input_focus.next();
}

/// Moves the focus to the other control of the event filter.
pub fn logs_prev_event_filter_focus(app: &mut App)
    ensures
        final(app).log_groups_state == (LogGroupsState {
            event_input_focus: old(app).log_groups_state.event_input_focus.following(),
            ..old(app).log_groups_state
        }),
        final(app).unchanged_except(*old(app), Service::CloudWatchLogs),
        final(app).keeps_shell(*old(app)),
{
    app.log_groups_state.event_input_focus = app.log_groups_state.event_input_focus.prev();
}

/// In the list: the next log group that passes the filter. On a group: the
/// next stream that passes the stream filter, closing any open stream row.
/// Events scroll elsewhere.
pub fn logs_next_item(app: &mut App)
    ensures
        ({
            let s = old(app).log_groups_state;
            let t = final(app).log_groups_state;
            let v = old(app).view_mode;
            if v == ViewMode::List {
                &&& t == with_groups(s, t.log_groups)
                &&& t.log_groups.moved_down(s.log_groups, filtered_group_rows(s).len() as int)
            } else if v == ViewMode::Detail && filtered_stream_rows(s).len() > 0
                && s.selected_stream < filtered_stream_rows(s).len() - 1 {
                t == (LogGroupsState { selected_stream: (s.selected_stream + 1) as usize, expanded_stream: None, ..s })
            } else {
                t == s
            }
        }),
        final(app).unchanged_except(*old(app), Service::CloudWatchLogs),
        final(app).keeps_shell(*old(app)),
{
    if app.view_mode == ViewMode::List {
        let filtered = filtered_log_groups(&app.log_groups_state);
        app.log_groups_state.log_groups.next_item(filtered.len());
    } else if app.view_mode == ViewMode::Detail {
        let filtered = filtered_log_streams(&app.log_groups_state);
        if filtered.len() > 0 {
            let max = filtered.len() - 1;
            if app.log_groups_state.selected_stream < max {
                app.log_groups_state.selected_stream = app.log_groups_state.selected_stream + 1;
                app.log_groups_state.expanded_stream = None;
            }
        }
    }
}

/// In the list: the previous log group. On a group: the previous stream,
/// closing any open stream row.
pub fn logs_prev_item(app: &mut App)
    ensures
        ({
            let s = old(app).log_groups_state;
            let t = final(app).log_groups_state;
            let v = old(app).view_mode;
            if v == ViewMode::List {
                &&& t == with_groups(s, t.log_groups)
                &&& t.log_groups.moved_up(s.log_groups)
            } else if v == ViewMode::Detail && s.selected_stream > 0 {
                t == (LogGroupsState { selected_stream: (s.selected_stream - 1) as usize, expanded_stream: None, ..s })
            } else {
                t == s
            }
        }),
        final(app).unchanged_except(*old(app), Service::CloudWatchLogs),
        final(app).keeps_shell(*old(app)),
{
    if app.view_mode == ViewMode::List {
        app.log_groups_state.log_groups.prev_item();
    } else if app.view_mode == ViewMode::Detail && app.log_groups_state.selected_stream > 0 {
        app.log_groups_state.selected_stream = app.log_groups_state.selected_stream - 1;
        app.log_groups_state.expanded_stream = None;
    }
}

/// The number of stream pages, at least one.
pub open spec fn stream_pages(count: int, ps: int) -> int {
    if (count + ps - 1) / ps > 1 { (count + ps - 1) / ps } else { 1 }
}

/// In the filter bar. In the list: one page down through the pagination
/// control when it has the focus. On a group: to the next page of streams when
/// the pagination control has the focus and there is one; any open stream row
/// closes.
pub fn logs_page_down_filter_input(app: &mut App)
    requires
        old(app).log_groups_state.log_groups.selected + 100 <= usize::MAX,
        old(app).log_groups_state.stream_page_size > 0,
    ensures
        ({
            let s = old(app).log_groups_state;
            let t = final(app).log_groups_state;
            if old(app).view_mode == ViewMode::List {
                let ps = s.log_groups.page_size.rows();
                let n = filtered_group_rows(s).len() as usize;
                if s.input_focus.same(InputFocus::Pagination) {
                    t == with_groups(s, TableState {
                        selected: min_usize((s.log_groups.selected + ps) as usize, sat_sub(n, ps)),
                        scroll_offset: min_usize((s.log_groups.selected + ps) as usize, sat_sub(n, ps)),
                        ..s.log_groups
                    })
                } else {
                    t == s
                }
            } else {
                let ps = s.stream_page_size as int;
                let n = filtered_stream_rows(s).len() as int;
                if s.input_focus.same(InputFocus::Pagination) && n > 0
                    && s.stream_current_page + 1 < stream_pages(n, ps) {
                    t == (LogGroupsState {
                        stream_current_page: (s.stream_current_page + 1) as usize,
                        selected_stream: ((s.stream_current_page + 1) * ps) as usize,
                        expanded_stream: None,
                        ..s
                    })
                } else {
                    t == (LogGroupsState { expanded_stream: None, ..s })
                }
            }
        }),
        final(app).unchanged_except(*old(app), Service::CloudWatchLogs),
        final(app).keeps_shell(*old(app)),
{
    if app.view_mode == ViewMode::List {
        let filtered = filtered_log_groups(&app.log_groups_state);
        let page_size = app.log_groups_state.log_groups.page_size.value();
        let filtered_count = filtered.len();
        let focus = app.log_groups_state.input_focus;
        focus.handle_page_down(
            &mut app.log_groups_state.log_groups.selected,
            &mut app.log_groups_state.log_groups.scroll_offset,
            page_size,
            filtered_count,
        );
    } else {
        let filtered = filtered_log_streams(&app.log_groups_state);
        let page_size = app.log_groups_state.stream_page_size;
        let filtered_count = filtered.len();
        if app.log_groups_state.input_focus.is(&InputFocus::Pagination) && filtered_count > 0 {
            let pages = div_ceil(filtered_count, page_size);
            let total_pages = if pages > 1 { pages } else { 1 };
            let current_page = app.log_groups_state.stream_current_page;
            if current_page < total_pages - 1 {
                assert((current_page + 1) * page_size < filtered_count) by (nonlinear_arith)
                    requires current_page + 1 <= total_pages - 1, page_size > 0, pages <= 1 ==> total_pages == 1,
                        pages > 1 ==> total_pages == pages, (pages - 1) * page_size < filtered_count;
                app.log_groups_state.stream_current_page = current_page + 1;
                app.log_groups_state.selected_stream = (current_page + 1) * page_size;
            }
        }
        app.log_groups_state.expanded_stream = None;
    }
}

/// One page down among the log groups that pass the filter.
pub fn logs_page_down_normal_list(app: &mut App)
    ensures
        final(app).log_groups_state == with_groups(old(app).log_groups_state, final(app).log_groups_state.log_groups),
        final(app).log_groups_state.log_groups.paged_down(
            old(app).log_groups_state.log_groups,
            filtered_group_rows(old(app).log_groups_state).len() as int,
        ),
        final(app).unchanged_except(*old(app), Service::CloudWatchLogs),
        final(app).keeps_shell(*old(app)),
{
    let filtered = filtered_log_groups(&app.log_groups_state);
    app.log_groups_state.log_groups.page_down(filtered.len());
}

/// Ten streams down, up to the last that passes the stream filter.
pub fn logs_page_down_normal_detail(app: &mut App)
    ensures
        ({
            let s = old(app).log_groups_state;
            let n = filtered_stream_rows(s).len();
            final(app).log_groups_state == (LogGroupsState {
                selected_stream: if n > 0 { min_int(s.selected_stream + 10, n - 1) as usize } else { s.selected_stream },
                ..s
            })
        }),
        final(app).unchanged_except(*old(app), Service::CloudWatchLogs),
        final(app).keeps_shell(*old(app)),
{
    let len = filtered_log_streams(&app.log_groups_state).len();
    nav_page_down(&mut app.log_groups_state.selected_stream, len, 10);
}

/// Ten events down, up to the last event.
pub fn logs_page_down_events(app: &mut App)
    ensures
        ({
            let s = old(app).log_groups_state;
            let n = s.log_events@.len();
            final(app).log_groups_state == (LogGroupsState {
                event_scroll_offset: if n > 0 { min_int(s.event_scroll_offset + 10, n - 1) as usize } else { s.event_scroll_offset },
                ..s
            })
        }),
        final(app).unchanged_except(*old(app), Service::CloudWatchLogs),
        final(app).keeps_shell(*old(app)),
{
    let max = app.log_groups_state.log_events.len();
    nav_page_down(&mut app.log_groups_state.event_scroll_offset, max, 10);
}

/// In the filter bar. In the list: one page up through the pagination control
/// when it has the focus. On a group: to the previous page of streams when the
/// pagination control has the focus and there is one; any open stream row
/// closes.
pub fn logs_page_up_filter_input(app: &mut App)
    requires
        old(app).log_groups_state.stream_current_page > 0 ==> (old(app).log_groups_state.stream_current_page - 1)
            * old(app).log_groups_state.stream_page_size <= usize::MAX,
    ensures
        ({
            let s = old(app).log_groups_state;
            let t = final(app).log_groups_state;
            if old(app).view_mode == ViewMode::List {
                let ps = s.log_groups.page_size.rows();
                if s.input_focus.same(InputFocus::Pagination) {
                    t == with_groups(s, TableState {
                        selected: sat_sub(s.log_groups.selected, ps),
                        scroll_offset: sat_sub(s.log_groups.selected, ps),
                        ..s.log_groups
                    })
                } else {
                    t == s
                }
            } else if s.input_focus.same(InputFocus::Pagination) && s.stream_current_page > 0 {
                t == (LogGroupsState {
                    stream_current_page: (s.stream_current_page - 1) as usize,
                    selected_stream: ((s.stream_current_page - 1) * s.stream_page_size) as usize,
                    expanded_stream: None,
                    ..s
                })
            } else {
                t == (LogGroupsState { expanded_stream: None, ..s })
            }
        }),
        final(app).unchanged_except(*old(app), Service::CloudWatchLogs),
        final(app).keeps_shell(*old(app)),
{
    if app.view_mode == ViewMode::List {
        let page_size = app.log_groups_state.log_groups.page_size.value();
        let focus = app.log_groups_state.input_focus;
        focus.handle_page_up(
            &mut app.log_groups_state.log_groups.selected,
            &mut app.log_groups_state.log_groups.scroll_offset,
            page_size,
        );
    } else {
        let page_size = app.log_groups_state.stream_page_size;
        if app.log_groups_state.input_focus.is(&InputFocus::Pagination) {
            let current_page = app.log_groups_state.stream_current_page;
            if current_page > 0 {
                let first = (current_page - 1) * page_size;
                app.log_groups_state.stream_current_page = current_page - 1;
                app.log_groups_state.selected_stream = first;
            }
        }
        app.log_groups_state.expanded_stream = None;
    }
}

/// One page up among the log groups.
pub fn logs_page_up_normal_list(app: &mut App)
    ensures
        final(app).log_groups_state == with_groups(old(app).log_groups_state, final(app).log_groups_state.log_groups),
        final(app).log_groups_state.log_groups.paged_up(old(app).log_groups_state.log_groups),
        final(app).unchanged_except(*old(app), Service::CloudWatchLogs),
        final(app).keeps_shell(*old(app)),
{
    app.log_groups_state.log_groups.page_up();
}

/// Ten streams up.
pub fn logs_page_up_normal_detail(app: &mut App)
    ensures
        final(app).log_groups_state == (LogGroupsState {
            selected_stream: sat_sub(old(app).log_groups_state.selected_stream, 10),
            ..old(app).log_groups_state
        }),
        final(app).unchanged_except(*old(app), Service::CloudWatchLogs),
        final(app).keeps_shell(*old(app)),
{
    let cur = app.log_groups_state.selected_stream;
    app.log_groups_state.selected_stream = if cur > 10 { cur - 10 } else { 0 };
}

/// Ten events up; near the top, with older events to fetch, asks for them.
pub fn logs_page_up_events(app: &mut App)
    ensures
        ({
            let s = old(app).log_groups_state;
            final(app).log_groups_state == (LogGroupsState {
                event_scroll_offset: sat_sub(s.event_scroll_offset, 10),
                loading: if s.event_scroll_offset < 10 && s.has_older_events { true } else { s.loading },
                ..s
            })
        }),
        final(app).unchanged_except(*old(app), Service::CloudWatchLogs),
        final(app).keeps_shell(*old(app)),
{
    if app.log_groups_state.event_scroll_offset < 10 && app.log_groups_state.has_older_events {
        app.log_groups_state.loading = true;
    }
    let cur = app.log_groups_state.event_scroll_offset;
    app.log_groups_state.event_scroll_offset = if cur > 10 { cur - 10 } else { 0 };
}

/// Opens the selected row of the list on screen: a log group, a stream or an
/// event.
pub fn logs_expand_row(app: &mut App)
    ensures
        ({
            let s = old(app).log_groups_state;
            let v = old(app).view_mode;
            if v == ViewMode::List {
                final(app).log_groups_state == with_groups(s, TableState {
                    expanded_item: Some(s.log_groups.selected),
                    ..s.log_groups
                })
            } else if v == ViewMode::Detail {
                final(app).log_groups_state == (LogGroupsState { expanded_stream: Some(s.selected_stream), ..s })
            } else if v == ViewMode::Events {
                final(app).log_groups_state == (LogGroupsState { expanded_event: Some(s.event_scroll_offset), ..s })
            } else {
                final(app).log_groups_state == s
            }
        }),
        final(app).unchanged_except(*old(app), Service::CloudWatchLogs),
        final(app).keeps_shell(*old(app)),
{
    if app.view_mode == ViewMode::List {
        if app.log_groups_state.log_groups.expanded_item != Some(app.log_groups_state.log_groups.selected) {
            app.log_groups_state.log_groups.expanded_item = Some(app.log_groups_state.log_groups.selected);
        }
    } else if app.view_mode == ViewMode::Detail {
        if app.log_groups_state.expanded_stream != Some(app.log_groups_state.selected_stream) {
            app.log_groups_state.expanded_stream = Some(app.log_groups_state.selected_stream);
        }
    } else if app.view_mode == ViewMode::Events {
        if app.log_groups_state.expanded_event != Some(app.log_groups_state.event_scroll_offset) {
            app.log_groups_state.expanded_event = Some(app.log_groups_state.event_scroll_offset);
        }
    }
}

/// Closes the open row of the list on screen.
pub fn logs_prev_pane(app: &mut App)
    ensures
        ({
            let s = old(app).log_groups_state;
            let v = old(app).view_mode;
            if v == ViewMode::List && s.log_groups.expanded_item is Some {
                &&& final(app).log_groups_state == with_groups(s, final(app).log_groups_state.log_groups)
                &&& final(app).log_groups_state.log_groups.collapsed(s.log_groups)
            } else if v == ViewMode::Detail && s.expanded_stream is Some {
                final(app).log_groups_state == (LogGroupsState { expanded_stream: None, ..s })
            } else if v == ViewMode::Events && s.expanded_event is Some {
                final(app).log_groups_state == (LogGroupsState { expanded_event: None, ..s })
            } else {
                final(app).log_groups_state == s
            }
        }),
        final(app).unchanged_except(*old(app), Service::CloudWatchLogs),
        final(app).keeps_shell(*old(app)),
{
    if app.view_mode == ViewMode::List && app.log_groups_state.log_groups.has_expanded_item() {
        app.log_groups_state.log_groups.collapse();
    } else if app.view_mode == ViewMode::Detail && app.log_groups_state.expanded_stream.is_some() {
        app.log_groups_state.expanded_stream = None;
    } else if app.view_mode == ViewMode::Events && app.log_groups_state.expanded_event.is_some() {
        app.log_groups_state.expanded_event = None;
    }
}

/// Closes the open row and selects it: an event, a stream, or in the list the
/// open log group row.
pub fn logs_collapse_row(app: &mut App)
    ensures
        ({
            let s = old(app).log_groups_state;
            let v = old(app).view_mode;
            if v == ViewMode::Events {
                match s.expanded_event {
                    Some(i) => final(app).log_groups_state == (LogGroupsState {
                        expanded_event: None,
                        selected_event: i,
                        ..s
                    }),
                    None => final(app).log_groups_state == s,
                }
            } else if v == ViewMode::Detail {
                match s.expanded_stream {
                    Some(i) => final(app).log_groups_state == (LogGroupsState {
                        expanded_stream: None,
                        selected_stream: i,
                        ..s
                    }),
                    None => final(app).log_groups_state == s,
                }
            } else {
                &&& final(app).log_groups_state == with_groups(s, final(app).log_groups_state.log_groups)
                &&& final(app).log_groups_state.log_groups.collapsed(s.log_groups)
            }
        }),
        final(app).unchanged_except(*old(app), Service::CloudWatchLogs),
        final(app).keeps_shell(*old(app)),
{
    if app.view_mode == ViewMode::Events {
        match app.log_groups_state.expanded_event {
            Some(idx) => {
                app.log_groups_state.expanded_event = None;
                app.log_groups_state.selected_event = idx;
            },
            None => {},
        }
    } else if app.view_mode == ViewMode::Detail {
        match app.log_groups_state.expanded_stream {
            Some(idx) => {
                app.log_groups_state.expanded_stream = None;
                app.log_groups_state.selected_stream = idx;
            },
            None => {},
        }
    } else {
        app.log_groups_state.log_groups.collapse();
    }
}

/// Shows page `page` (1-based) of the list on screen: events go 20 a page, up
/// to the last event; streams go a stream page at a time, up to the last page,
/// from their first row; the log group table jumps with `goto_page`.
pub fn logs_go_to_page(app: &mut App, page: usize)
    requires
        old(app).view_mode == ViewMode::Events ==> page >= 1 && (page - 1) * 20 <= usize::MAX,
        old(app).view_mode == ViewMode::Detail ==> page >= 1 && old(app).log_groups_state.stream_page_size > 0,
    ensures
        ({
            let s = old(app).log_groups_state;
            let v = old(app).view_mode;
            if v == ViewMode::Events {
                final(app).log_groups_state == (LogGroupsState {
                    event_scroll_offset: min_int((page - 1) * 20, sat_sub(s.log_events@.len() as usize, 1) as int) as usize,
                    ..s
                })
            } else if v == ViewMode::Detail {
                let pages = (s.log_streams@.len() + s.stream_page_size - 1) / s.stream_page_size as int;
                final(app).log_groups_state == (LogGroupsState {
                    stream_current_page: min_int(page - 1, if pages > 0 { pages - 1 } else { 0 }) as usize,
                    selected_stream: 0,
                    ..s
                })
            } else if v == ViewMode::List {
                &&& final(app).log_groups_state == with_groups(s, final(app).log_groups_state.log_groups)
                &&& final(app).log_groups_state.log_groups.jumped(s.log_groups, page as int, s.log_groups.items@.len() as int)
            } else {
                final(app).log_groups_state == s
            }
        }),
        final(app).unchanged_except(*old(app), Service::CloudWatchLogs),
        final(app).keeps_shell(*old(app)),
{
    match app.view_mode {
        ViewMode::Events => {
            let target = (page - 1) * 20;
            let n = app.log_groups_state.log_events.len();
            let max = if n > 0 { n - 1 } else { 0 };
            app.log_groups_state.event_scroll_offset = if target < max { target } else { max };
        },
        ViewMode::Detail => {
            let page_size = app.log_groups_state.stream_page_size;
            let n = app.log_groups_state.log_streams.len();
            let pages = div_ceil(n, page_size);
            let last = if pages > 0 { pages - 1 } else { 0 };
            app.log_groups_state.stream_current_page = if page - 1 < last { page - 1 } else { last };
            app.log_groups_state.selected_stream = 0;
        },
        ViewMode::List => {
            let total = app.log_groups_state.log_groups.items.len();
            app.log_groups_state.log_groups.goto_page(page, total);
        },
        _ => {},
    }
}

fn find_group(items: &Vec<LogGroup>, name: &str) -> (r: Option<usize>)
    ensures
        r matches Some(j) ==> Some(j as int) == first_index_of(group_names(items@), name@),
        r is None ==> first_index_of(group_names(items@), name@) is None,
{
    let ghost names = group_names(items@);
    let n = items.len();
    let mut i: usize = 0;
    assert(names.take(0) =~= Seq::<Seq<char>>::empty());
    while i < n
        invariant
            n == items@.len(),
            i <= n,
            names == group_names(items@),
            first_index_of(names.take(i as int), name@) is None,
        decreases n - i,
    {
        assert(names.take(i + 1).drop_last() =~= names.take(i as int));
        if str_eq(items[i].name.as_str(), name) {
            assert(first_index_of(names.take(i + 1), name@) == Some(i as int));
            proof {
                lemma_first_index_of_prefix(names, name@, i + 1);
            }
            return Some(i);
        }
        i = i + 1;
    }
    assert(names.take(n as int) =~= names);
    None
}

fn find_stream(items: &Vec<LogStream>, name: &str) -> (r: Option<usize>)
    ensures
        r matches Some(j) ==> Some(j as int) == first_index_of(stream_names(items@), name@),
        r is None ==> first_index_of(stream_names(items@), name@) is None,
{
    let ghost names = stream_names(items@);
    let n = items.len();
    let mut i: usize = 0;
    assert(names.take(0) =~= Seq::<Seq<char>>::empty());
    while i < n
        invariant
            n == items@.len(),
            i <= n,
            names == stream_names(items@),
            first_index_of(names.take(i as int), name@) is None,
        decreases n - i,
    {
        assert(names.take(i + 1).drop_last() =~= names.take(i as int));
        if str_eq(items[i].name.as_str(), name) {
            assert(first_index_of(names.take(i + 1), name@) == Some(i as int));
            proof {
                lemma_first_index_of_prefix(names, name@, i + 1);
            }
            return Some(i);
        }
        i = i + 1;
    }
    assert(names.take(n as int) =~= names);
    None
}

/// The row the cursor lands on when a filtered row is opened: the first row
/// with the same name as the selected filtered row, else where it was.
pub open spec fn landing_row(names: Seq<Seq<char>>, filtered: Seq<usize>, selected: usize) -> usize {
    if selected < filtered.len() && filtered[selected as int] < names.len() {
        match first_index_of(names, names[filtered[selected as int] as int]) {
            Some(j) => j as usize,
            None => selected,
        }
    } else {
        selected
    }
}

/// Enter. In the list: opens the selected log group (among those that pass the
/// filter), with its streams and tags cleared and marked for loading, the
/// preferences cursor at the top and the tab retitled. On a group: opens the
/// selected stream, with its events cleared and marked for loading. On a
/// stream: opens the event at the scroll position, or closes it when it is the
/// open one.
#[verifier::rlimit(40)]
pub fn logs_select_item(app: &mut App)
    ensures
        ({
            let s = old(app).log_groups_state;
            let t = final(app).log_groups_state;
            let v = old(app).view_mode;
            if v == ViewMode::List {
                &&& t.log_groups == (TableState {
                    selected: landing_row(group_names(s.log_groups.items@), filtered_group_rows(s), s.log_groups.selected),
                    ..s.log_groups
                })
                &&& t.log_streams@.len() == 0
                &&& t.tags.items@.len() == 0
                &&& t.tags.selected == 0 && t.tags.scroll_offset == 0 && t.tags.expanded_item is None
                &&& t == (LogGroupsState {
                    log_groups: t.log_groups,
                    log_streams: t.log_streams,
                    tags: t.tags,
                    selected_stream: 0,
                    loading: true,
                    ..s
                })
                &&& final(app).view_mode == ViewMode::Detail
                &&& final(app).column_selector_index == 0
                &&& string_names(final(app).tab_breadcrumb@) == final(app).current_breadcrumb()
            } else if v == ViewMode::Detail {
                &&& t.log_events@.len() == 0
                &&& t == (LogGroupsState {
                    selected_stream: landing_row(stream_names(s.log_streams@), filtered_stream_rows(s), s.selected_stream),
                    log_events: t.log_events,
                    event_scroll_offset: 0,
                    next_backward_token: None,
                    loading: true,
                    ..s
                })
                &&& final(app).view_mode == ViewMode::Events
                &&& final(app).column_selector_index == old(app).column_selector_index
                &&& string_names(final(app).tab_breadcrumb@) == final(app).current_breadcrumb()
            } else if v == ViewMode::Events {
                &&& t == (LogGroupsState {
                    expanded_event: if s.expanded_event == Some(s.event_scroll_offset) {
                        None
                    } else {
                        Some(s.event_scroll_offset)
                    },
                    ..s
                })
                &&& final(app).keeps_shell(*old(app))
            } else {
                &&& t == s
                &&& final(app).keeps_shell(*old(app))
            }
        }),
        final(app).unchanged_except(*old(app), Service::CloudWatchLogs),
        final(app).current_service == old(app).current_service,
{
    if app.view_mode == ViewMode::List {
        let filtered = filtered_log_groups(&app.log_groups_state);
        let sel = app.log_groups_state.log_groups.selected;
        proof {
            let ghost names = group_names(app.log_groups_state.log_groups.items@);
        }
        if sel < filtered.len() && filtered[sel] < app.log_groups_state.log_groups.items.len() {
            let k = filtered[sel];
            let found = find_group(&app.log_groups_state.log_groups.items, app.log_groups_state.log_groups.items[k].name.as_str());
            proof {
                let names = group_names(app.log_groups_state.log_groups.items@);
                assert(names[k as int] == app.log_groups_state.log_groups.items@[k as int].name@);
            }
            match found {
                Some(j) => {
                    app.log_groups_state.log_groups.selected = j;
                },
                None => {},
            }
        }
        app.view_mode = ViewMode::Detail;
        app.log_groups_state.log_streams.clear();
        app.log_groups_state.tags.items.clear();
        app.log_groups_state.tags.reset();
        app.log_groups_state.selected_stream = 0;
        app.log_groups_state.loading = true;
        app.column_selector_index = 0;
        app.update_current_tab_breadcrumb();
    } else if app.view_mode == ViewMode::Detail {
        let filtered = filtered_log_streams(&app.log_groups_state);
        let sel = app.log_groups_state.selected_stream;
        if sel < filtered.len() && filtered[sel] < app.log_groups_state.log_streams.len() {
            let k = filtered[sel];
            let found = find_stream(&app.log_groups_state.log_streams, app.log_groups_state.log_streams[k].name.as_str());
            proof {
                let names = stream_names(app.log_groups_state.log_streams@);
                assert(names[k as int] == app.log_groups_state.log_streams@[k as int].name@);
            }
            match found {
                Some(j) => {
                    app.log_groups_state.selected_stream = j;
                },
                None => {},
            }
        }
        app.view_mode = ViewMode::Events;
        app.update_current_tab_breadcrumb();
        app.log_groups_state.log_events.clear();
        app.log_groups_state.event_scroll_offset = 0;
        app.log_groups_state.next_backward_token = None;
        app.log_groups_state.loading = true;
    } else if app.view_mode == ViewMode::Events {
        if app.log_groups_state.expanded_event == Some(app.log_groups_state.event_scroll_offset) {
            app.log_groups_state.expanded_event = None;
        } else {
            app.log_groups_state.expanded_event = Some(app.log_groups_state.event_scroll_offset);
        }
    }
}

/// The breadcrumb of the log groups view: `CloudWatch`, `Log groups`, then the
/// selected group once one is open, then the selected stream on its events.
pub open spec fn logs_breadcrumb_of(s: LogGroupsState, v: ViewMode) -> Seq<Seq<char>> {
    let base = seq!["CloudWatch"@, "Log groups"@];
    if v == ViewMode::List || s.log_groups.selected >= s.log_groups.items@.len() {
        base
    } else if v == ViewMode::Events && s.selected_stream < s.log_streams@.len() {
        base.push(s.log_groups.items@[s.log_groups.selected as int].name@).push(
            s.log_streams@[s.selected_stream as int].name@,
        )
    } else {
        base.push(s.log_groups.items@[s.log_groups.selected as int].name@)
    }
}

/// The breadcrumb of the log groups view.
pub(crate) fn logs_breadcrumb(app: &App) -> (r: Vec<String>)
    ensures
        string_names(r@) == logs_breadcrumb_of(app.log_groups_state, app.view_mode),
{
    let s = &app.log_groups_state;
    let mut r = vec![String::from_str("CloudWatch"), String::from_str("Log groups")];
    if app.view_mode != ViewMode::List && s.log_groups.selected < s.log_groups.items.len() {
        r.push(s.log_groups.items[s.log_groups.selected].name.clone());
        if app.view_mode == ViewMode::Events && s.selected_stream < s.log_streams.len() {
            r.push(s.log_streams[s.selected_stream].name.clone());
        }
    }
    assert(string_names(r@) =~= logs_breadcrumb_of(app.log_groups_state, app.view_mode));
    r
}

// ── CloudWatch Insights ──────────────────────────────────────────────────────

/// `s` with its Insights state replaced by `t`.
pub open spec fn with_insights(t: InsightsState) -> crate::cw::insights::State {
    crate::cw::insights::State { insights: t }
}

/// Whether the log group dropdown is open with matches to pick from.
pub open spec fn dropdown_open(t: InsightsState) -> bool {
    t.insights_focus == InsightsFocus::LogGroupSearch && t.show_dropdown && t.log_group_matches@.len() > 0
}

/// In the open log group dropdown: the next match, up to the last.
pub fn insights_next_item_dropdown(app: &mut App)
    ensures
        ({
            let t = old(app).insights_state.insights;
            if dropdown_open(t) {
                final(app).insights_state == with_insights(InsightsState {
                    dropdown_selected: min_int(t.dropdown_selected + 1, t.log_group_matches@.len() - 1) as usize,
                    ..t
                })
            } else {
                final(app).insights_state == old(app).insights_state
            }
        }),
        final(app).unchanged_except(*old(app), Service::CloudWatchInsights),
        final(app).log_groups_state == old(app).log_groups_state,
        final(app).keeps_shell(*old(app)),
{
    let t = &mut app.insights_state.insights;
    if t.insights_focus == InsightsFocus::LogGroupSearch && t.show_dropdown && t.log_group_matches.len() > 0 {
        let max = t.log_group_matches.len() - 1;
        t.dropdown_selected = if t.dropdown_selected < max { t.dropdown_selected + 1 } else { max };
    }
}

/// The next query result row, up to the last.
pub fn insights_next_item_results(app: &mut App)
    ensures
        ({
            let t = old(app).insights_state.insights;
            let max = sat_sub(t.query_results@.len() as usize, 1);
            final(app).insights_state == with_insights(InsightsState {
                results_selected: if t.results_selected < max { (t.results_selected + 1) as usize } else { t.results_selected },
                ..t
            })
        }),
        final(app).unchanged_except(*old(app), Service::CloudWatchInsights),
        final(app).log_groups_state == old(app).log_groups_state,
        final(app).keeps_shell(*old(app)),
{
    let n = app.insights_state.insights.query_results.len();
    let max = if n > 0 { n - 1 } else { 0 };
    if app.insights_state.insights.results_selected < max {
        app.insights_state.insights.results_selected = app.insights_state.insights.results_selected + 1;
    }
}

/// In the open log group dropdown: the previous match.
pub fn insights_prev_item_dropdown(app: &mut App)
    ensures
        ({
            let t = old(app).insights_state.insights;
            if dropdown_open(t) {
                final(app).insights_state == with_insights(InsightsState {
                    dropdown_selected: sat_sub(t.dropdown_selected, 1),
                    ..t
                })
            } else {
                final(app).insights_state == old(app).insights_state
            }
        }),
        final(app).unchanged_except(*old(app), Service::CloudWatchInsights),
        final(app).log_groups_state == old(app).log_groups_state,
        final(app).keeps_shell(*old(app)),
{
    let t = &mut app.insights_state.insights;
    if t.insights_focus == InsightsFocus::LogGroupSearch && t.show_dropdown && t.log_group_matches.len() > 0 {
        t.dropdown_selected = if t.dropdown_selected > 0 { t.dropdown_selected - 1 } else { 0 };
    }
}

/// The previous query result row.
pub fn insights_prev_item_results(app: &mut App)
    ensures
        final(app).insights_state == with_insights(InsightsState {
            results_selected: sat_sub(old(app).insights_state.insights.results_selected, 1),
            ..old(app).insights_state.insights
        }),
        final(app).unchanged_except(*old(app), Service::CloudWatchInsights),
        final(app).log_groups_state == old(app).log_groups_state,
        final(app).keeps_shell(*old(app)),
{
    if app.insights_state.insights.results_selected > 0 {
        app.insights_state.insights.results_selected = app.insights_state.insights.results_selected - 1;
    }
}

/// Ten result rows down, up to the last.
pub fn insights_page_down(app: &mut App)
    ensures
        ({
            let t = old(app).insights_state.insights;
            let n = t.query_results@.len();
            final(app).insights_state == with_insights(InsightsState {
                results_selected: if n > 0 { min_int(t.results_selected + 10, n - 1) as usize } else { t.results_selected },
                ..t
            })
        }),
        final(app).unchanged_except(*old(app), Service::CloudWatchInsights),
        final(app).log_groups_state == old(app).log_groups_state,
        final(app).keeps_shell(*old(app)),
{
    let max = app.insights_state.insights.query_results.len();
    nav_page_down(&mut app.insights_state.insights.results_selected, max, 10);
}

/// Ten result rows up.
pub fn insights_page_up(app: &mut App)
    ensures
        final(app).insights_state == with_insights(InsightsState {
            results_selected: sat_sub(old(app).insights_state.insights.results_selected, 10),
            ..old(app).insights_state.insights
        }),
        final(app).unchanged_except(*old(app), Service::CloudWatchInsights),
        final(app).log_groups_state == old(app).log_groups_state,
        final(app).keeps_shell(*old(app)),
{
    let cur = app.insights_state.insights.results_selected;
    app.insights_state.insights.results_selected = if cur > 10 { cur - 10 } else { 0 };
}

/// Scrolls the results one column right (the caller bounds it).
pub fn insights_expand_row(app: &mut App)
    ensures
        final(app).insights_state == with_insights(InsightsState {
            results_horizontal_scroll: if old(app).insights_state.insights.results_horizontal_scroll < usize::MAX {
                (old(app).insights_state.insights.results_horizontal_scroll + 1) as usize
            } else {
                usize::MAX
            },
            ..old(app).insights_state.insights
        }),
        final(app).unchanged_except(*old(app), Service::CloudWatchInsights),
        final(app).log_groups_state == old(app).log_groups_state,
        final(app).keeps_shell(*old(app)),
{
    let cur = app.insights_state.insights.results_horizontal_scroll;
    app.insights_state.insights.results_horizontal_scroll = if cur < usize::MAX { cur + 1 } else { usize::MAX };
}

/// Scrolls the results one column left.
pub fn insights_prev_pane(app: &mut App)
    ensures
        final(app).insights_state == with_insights(InsightsState {
            results_horizontal_scroll: sat_sub(old(app).insights_state.insights.results_horizontal_scroll, 1),
            ..old(app).insights_state.insights
        }),
        final(app).unchanged_except(*old(app), Service::CloudWatchInsights),
        final(app).log_groups_state == old(app).log_groups_state,
        final(app).keeps_shell(*old(app)),
{
    let cur = app.insights_state.insights.results_horizontal_scroll;
    app.insights_state.insights.results_horizontal_scroll = if cur > 0 { cur - 1 } else { 0 };
}

/// Asks for the log groups again and marks the query as completed.
pub fn insights_refresh(app: &mut App)
    ensures
        final(app).log_groups_state == (LogGroupsState { loading: true, ..old(app).log_groups_state }),
        final(app).insights_state == with_insights(InsightsState {
            query_completed: true,
            ..old(app).insights_state.insights
        }),
        final(app).unchanged_except(*old(app), Service::CloudWatchInsights),
        final(app).keeps_shell(*old(app)),
{
    app.log_groups_state.loading = true;
    app.insights_state.insights.query_completed = true;
}

/// Closes the open result row, if any.
pub fn insights_go_back_results(app: &mut App)
    ensures
        final(app).insights_state == with_insights(InsightsState {
            expanded_result: None,
            ..old(app).insights_state.insights
        }),
        final(app).unchanged_except(*old(app), Service::CloudWatchInsights),
        final(app).log_groups_state == old(app).log_groups_state,
        final(app).keeps_shell(*old(app)),
{
    if app.insights_state.insights.expanded_result.is_some() {
        app.insights_state.insights.expanded_result = None;
    }
}

/// The breadcrumb of the Insights view.
pub open spec fn insights_breadcrumb_of() -> Seq<Seq<char>> {
    seq!["CloudWatch"@, "Logs Insights"@]
}

/// The breadcrumb of the Insights view.
pub fn insights_breadcrumb() -> (r: Vec<String>)
    ensures
        string_names(r@) == insights_breadcrumb_of(),
{
    let r = vec![String::from_str("CloudWatch"), String::from_str("Logs Insights")];
    assert(string_names(r@) =~= insights_breadcrumb_of());
    r
}

} // verus!

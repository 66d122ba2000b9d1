//! Key-handling actions of the CloudTrail view.
use vstd::prelude::*;
use vstd::string::*;
use crate::app::{App, Service};
use crate::cloudtrail::{filter_control_list, filter_controls, CloudTrailEvent, DetailFocus, State};
use crate::columns::string_names;
use crate::common::{cycle_next, cycle_prev, InputFocus};
use crate::table::min_int;
use crate::text::{line_count, line_count_of};

verus! {

/// Whether an event is open.
pub open spec fn in_detail(s: State) -> bool {
    s.current_event is Some
}

/// Whether the record of the open event has the focus.
pub open spec fn on_record(s: State) -> bool {
    s.current_event is Some && s.detail_focus == DetailFocus::EventRecord
}

/// The last line the record of the open event can be scrolled to.
pub open spec fn last_record_line(s: State) -> int {
    match s.current_event {
        Some(e) => if line_count_of(e.cloud_trail_event_json@) > 0 {
            line_count_of(e.cloud_trail_event_json@) - 1
        } else {
            0
        },
        None => 0,
    }
}

/// `s` with the record scrolled to line `n`.
pub open spec fn with_scroll(s: State, n: usize) -> State {
    State { event_json_scroll: n, ..s }
}

/// `s` with the selected event at row `n`.
pub open spec fn with_selected(s: State, n: usize) -> State {
    State { table: crate::table::TableState { selected: n, ..s.table }, ..s }
}

/// The row after `sel` within its page of `ps` rows, capped at the last of `count` rows.
pub open spec fn next_row_in_page(sel: int, ps: int, count: int) -> int {
    if sel < count - 1 {
        min_int(min_int(sel + 1, (sel / ps + 1) * ps - 1), count - 1)
    } else {
        sel
    }
}

fn last_line_of(s: &State) -> (r: usize)
    requires
        s.current_event is Some,
    ensures
        r == last_record_line(*s),
{
    match &s.current_event {
        Some(e) => {
            let n = line_count(e.cloud_trail_event_json.as_str());
            if n > 0 { n - 1 } else { 0 }
        },
        None => 0,
    }
}

// ── Filter bar ───────────────────────────────────────────────────────────────

/// Puts the event table back at its first row after the filter changed.
pub fn apply_filter_reset(app: &mut App)
    ensures
        final(app).cloudtrail_state == (State {
            table: final(app).cloudtrail_state.table,
            ..old(app).cloudtrail_state
        }),
        final(app).cloudtrail_state.table.was_reset(old(app).cloudtrail_state.table),
        final(app).unchanged_except(*old(app), Service::CloudTrail),
        final(app).keeps_shell(*old(app)),
{
    app.cloudtrail_state.table.reset();
}

/// Whether the pagination control has the focus.
pub fn is_pagination_focused(app: &App) -> (r: bool)
    ensures
        r == app.cloudtrail_state.input_focus.same(InputFocus::Pagination),
{
    app.cloudtrail_state.input_focus.is(&InputFocus::Pagination)
}

/// Moves the focus to the next control of the filter bar.
pub fn next_filter_focus(app: &mut App)
    ensures
        final(app).cloudtrail_state == (State {
            input_focus: cycle_next(filter_controls(), old(app).cloudtrail_state.input_focus),
            ..old(app).cloudtrail_state
        }),
        final(app).unchanged_except(*old(app), Service::CloudTrail),
        final(app).keeps_shell(*old(app)),
{
    let controls = filter_control_list();
    app.cloudtrail_state.input_focus = app.cloudtrail_state.input_focus.next(controls.as_slice());
}

/// Moves the focus to the previous control of the filter bar.
pub fn prev_filter_focus(app: &mut App)
    ensures
        final(app).cloudtrail_state == (State {
            input_focus: cycle_prev(filter_controls(), old(app).cloudtrail_state.input_focus),
            ..old(app).cloudtrail_state
        }),
        final(app).unchanged_except(*old(app), Service::CloudTrail),
        final(app).keeps_shell(*old(app)),
{
    let controls = filter_control_list();
    app.cloudtrail_state.input_focus = app.cloudtrail_state.input_focus.prev(controls.as_slice());
}

/// Moves the focus to the other pane of the open event.
pub fn next_detail_tab(app: &mut App)
    ensures
        final(app).cloudtrail_state == (State {
            detail_focus: old(app).cloudtrail_state.detail_focus.following(),
            ..old(app).cloudtrail_state
        }),
        final(app).unchanged_except(*old(app), Service::CloudTrail),
        final(app).keeps_shell(*old(app)),
{
    app.cloudtrail_state.detail_focus = app.cloudtrail_state.detail_focus.next();
}

/// Moves the focus to the other pane of the open event.
pub fn prev_detail_tab(app: &mut App)
    ensures
        final(app).cloudtrail_state == (State {
            detail_focus: old(app).cloudtrail_state.detail_focus.following(),
            ..old(app).cloudtrail_state
        }),
        final(app).unchanged_except(*old(app), Service::CloudTrail),
        final(app).keeps_shell(*old(app)),
{
    app.cloudtrail_state.detail_focus = app.cloudtrail_state.detail_focus.prev();
}

// ── Navigation ───────────────────────────────────────────────────────────────

/// On the record of the open event: one line down, up to its last line.
/// Elsewhere: the next event, without leaving the page on screen.
pub fn next_item(app: &mut App)
    ensures
        ({
            let s = old(app).cloudtrail_state;
            if on_record(s) {
                final(app).cloudtrail_state == with_scroll(
                    s,
                    min_int(s.event_json_scroll + 1, last_record_line(s)) as usize,
                )
            } else {
                final(app).cloudtrail_state == with_selected(
                    s,
                    next_row_in_page(
                        s.table.selected as int,
                        s.table.page_size.rows() as int,
                        s.table.items@.len() as int,
                    ) as usize,
                )
            }
        }),
        final(app).unchanged_except(*old(app), Service::CloudTrail),
        final(app).keeps_shell(*old(app)),
{
    if app.cloudtrail_state.current_event.is_some()
        && app.cloudtrail_state.detail_focus == DetailFocus::EventRecord {
        let max_scroll = last_line_of(&app.cloudtrail_state);
        app.cloudtrail_state.event_json_scroll = if app.cloudtrail_state.event_json_scroll < max_scroll {
            app.cloudtrail_state.event_json_scroll + 1
        } else {
            max_scroll
        };
    } else {
        let page_size = app.cloudtrail_state.table.page_size.value();
        let count = app.cloudtrail_state.table.items.len();
        let sel = app.cloudtrail_state.table.selected;
        if count > 0 && sel < count - 1 {
            let at_page_end = sel % page_size + 1 == page_size;
            proof {
                let q = sel as int / page_size as int;
                let m = sel as int % page_size as int;
                assert(sel as int == q * page_size + m) by (nonlinear_arith)
                    requires page_size > 0, q == sel as int / page_size as int, m == sel as int % page_size as int;
                assert((q + 1) * page_size == q * page_size + page_size) by (nonlinear_arith);
            }
            app.cloudtrail_state.table.selected = if at_page_end { sel } else { sel + 1 };
        }
    }
}

/// On the record of the open event: one line up. Elsewhere: the previous event,
/// without leaving the page on screen.
pub fn prev_item(app: &mut App)
    ensures
        ({
            let s = old(app).cloudtrail_state;
            if on_record(s) {
                final(app).cloudtrail_state == with_scroll(
                    s,
                    if s.event_json_scroll > 0 { (s.event_json_scroll - 1) as usize } else { 0 },
                )
            } else {
                let ps = s.table.page_size.rows() as int;
                let sel = s.table.selected as int;
                final(app).cloudtrail_state == with_selected(
                    s,
                    if sel > (sel / ps) * ps { (sel - 1) as usize } else { sel as usize },
                )
            }
        }),
        final(app).unchanged_except(*old(app), Service::CloudTrail),
        final(app).keeps_shell(*old(app)),
{
    if app.cloudtrail_state.current_event.is_some()
        && app.cloudtrail_state.detail_focus == DetailFocus::EventRecord {
        app.cloudtrail_state.event_json_scroll = if app.cloudtrail_state.event_json_scroll > 0 {
            app.cloudtrail_state.event_json_scroll - 1
        } else {
            0
        };
    } else {
        let page_size = app.cloudtrail_state.table.page_size.value();
        let sel = app.cloudtrail_state.table.selected;
        assert(sel % page_size <= sel) by (nonlinear_arith)
            requires page_size > 0;
        let page_start = sel - sel % page_size;
        proof {
            assert((sel as int / page_size as int) * page_size as int == sel as int - sel as int % page_size as int) by (nonlinear_arith)
                requires page_size > 0;
        }
        if sel > page_start {
            app.cloudtrail_state.table.selected = sel - 1;
        }
    }
}

/// In the filter bar: to the first event of the next page, when there is one.
pub fn page_down_filter_input(app: &mut App)
    ensures
        ({
            let s = old(app).cloudtrail_state;
            let ps = s.table.page_size.rows() as int;
            let page = s.table.selected as int / ps;
            let pages = (s.table.items@.len() + ps - 1) / ps;
            if page + 1 < pages {
                final(app).cloudtrail_state == (State {
                    table: crate::table::TableState {
                        selected: ((page + 1) * ps) as usize,
                        scroll_offset: ((page + 1) * ps) as usize,
                        ..s.table
                    },
                    ..s
                })
            } else {
                final(app).cloudtrail_state == s
            }
        }),
        final(app).unchanged_except(*old(app), Service::CloudTrail),
        final(app).keeps_shell(*old(app)),
{
    let page_size = app.cloudtrail_state.table.page_size.value();
    let count = app.cloudtrail_state.table.items.len();
    let page = app.cloudtrail_state.table.selected / page_size;
    let ghost pages = (count + page_size - 1) / page_size as int;
    if count > 0 && page < (count - 1) / page_size {
        proof {
            assert((page as int + 1) * page_size as int <= count as int - 1) by (nonlinear_arith)
                requires page_size > 0, page < (count as int - 1) / page_size as int, count > 0;
            assert(page as int + 1 < pages) by (nonlinear_arith)
                requires page_size > 0, page < (count as int - 1) / page_size as int, count > 0,
                    pages == (count + page_size - 1) / page_size as int;
        }
        let first = (page + 1) * page_size;
        app.cloudtrail_state.table.selected = first;
        app.cloudtrail_state.table.scroll_offset = first;
    } else {
        proof {
            assert(!(page as int + 1 < pages)) by (nonlinear_arith)
                requires page_size > 0, !(count > 0 && page < (count as int - 1) / page_size as int),
                    pages == (count + page_size - 1) / page_size as int;
        }
    }
}

/// On an open event: ten lines down its record, up to its last line.
pub fn page_down_fast(app: &mut App)
    ensures
        ({
            let s = old(app).cloudtrail_state;
            if in_detail(s) {
                final(app).cloudtrail_state == with_scroll(
                    s,
                    min_int(s.event_json_scroll + 10, last_record_line(s)) as usize,
                )
            } else {
                final(app).cloudtrail_state == s
            }
        }),
        final(app).unchanged_except(*old(app), Service::CloudTrail),
        final(app).keeps_shell(*old(app)),
{
    if app.cloudtrail_state.current_event.is_some() {
        let max_scroll = last_line_of(&app.cloudtrail_state);
        let cur = app.cloudtrail_state.event_json_scroll;
        app.cloudtrail_state.event_json_scroll = if cur < max_scroll && max_scroll - cur > 10 {
            cur + 10
        } else {
            max_scroll
        };
    }
}

/// One page down among the events.
pub fn page_down_normal(app: &mut App)
    ensures
        old(app).cloudtrail_state.table.items@.len() > 0 ==> final(app).cloudtrail_state == (State {
            table: final(app).cloudtrail_state.table,
            ..old(app).cloudtrail_state
        }) && final(app).cloudtrail_state.table.paged_down(
            old(app).cloudtrail_state.table,
            old(app).cloudtrail_state.table.items@.len() as int,
        ),
        old(app).cloudtrail_state.table.items@.len() == 0 ==> final(app).cloudtrail_state
            == old(app).cloudtrail_state,
        final(app).unchanged_except(*old(app), Service::CloudTrail),
        final(app).keeps_shell(*old(app)),
{
    let count = app.cloudtrail_state.table.items.len();
    if count > 0 {
        app.cloudtrail_state.table.page_down(count);
    }
}

/// In the filter bar: to the first event of the previous page, when there is one.
pub fn page_up_filter_input(app: &mut App)
    ensures
        ({
            let s = old(app).cloudtrail_state;
            let ps = s.table.page_size.rows() as int;
            let page = s.table.selected as int / ps;
            if page > 0 {
                final(app).cloudtrail_state == (State {
                    table: crate::table::TableState {
                        selected: ((page - 1) * ps) as usize,
                        scroll_offset: ((page - 1) * ps) as usize,
                        ..s.table
                    },
                    ..s
                })
            } else {
                final(app).cloudtrail_state == s
            }
        }),
        final(app).unchanged_except(*old(app), Service::CloudTrail),
        final(app).keeps_shell(*old(app)),
{
    let page_size = app.cloudtrail_state.table.page_size.value();
    let page = app.cloudtrail_state.table.selected / page_size;
    if page > 0 {
        proof {
            assert((page as int - 1) * page_size as int <= app.cloudtrail_state.table.selected as int)
                by (nonlinear_arith)
                requires page_size > 0, page == app.cloudtrail_state.table.selected as int / page_size as int;
        }
        let first = (page - 1) * page_size;
        app.cloudtrail_state.table.selected = first;
        app.cloudtrail_state.table.scroll_offset = first;
    }
}

/// On an open event: ten lines up its record.
pub fn page_up_fast(app: &mut App)
    ensures
        ({
            let s = old(app).cloudtrail_state;
            if in_detail(s) {
                final(app).cloudtrail_state == with_scroll(
                    s,
                    if s.event_json_scroll > 10 { (s.event_json_scroll - 10) as usize } else { 0 },
                )
            } else {
                final(app).cloudtrail_state == s
            }
        }),
        final(app).unchanged_except(*old(app), Service::CloudTrail),
        final(app).keeps_shell(*old(app)),
{
    if app.cloudtrail_state.current_event.is_some() {
        let cur = app.cloudtrail_state.event_json_scroll;
        app.cloudtrail_state.event_json_scroll = if cur > 10 { cur - 10 } else { 0 };
    }
}

/// One page up among the events.
pub fn page_up_normal(app: &mut App)
    ensures
        final(app).cloudtrail_state == (State {
            table: final(app).cloudtrail_state.table,
            ..old(app).cloudtrail_state
        }),
        final(app).cloudtrail_state.table.paged_up(old(app).cloudtrail_state.table),
        final(app).unchanged_except(*old(app), Service::CloudTrail),
        final(app).keeps_shell(*old(app)),
{
    app.cloudtrail_state.table.page_up();
}

// ── Open / leave an event ────────────────────────────────────────────────────

/// The events of the table, all of which are shown.
fn all_rows(s: &State) -> (r: Vec<usize>)
    ensures
        r@.len() == s.table.items@.len(),
        forall|i: int| 0 <= i < r@.len() ==> r@[i] == i,
{
    let n = s.table.items.len();
    let mut r: Vec<usize> = Vec::new();
    let mut i: usize = 0;
    while i < n
        invariant
            n == s.table.items@.len(),
            i <= n,
            r@.len() == i,
            forall|j: int| 0 <= j < i ==> r@[j] == j,
        decreases n - i,
    {
        r.push(i);
        i = i + 1;
    }
    r
}

fn copy_of(e: &CloudTrailEvent) -> (r: CloudTrailEvent)
    ensures
        r == *e,
{
    CloudTrailEvent {
        event_time: e.event_time.clone(),
        event_name: e.event_name.clone(),
        username: e.username.clone(),
        event_source: e.event_source.clone(),
        resource_type: e.resource_type.clone(),
        resource_name: e.resource_name.clone(),
        read_only: e.read_only.clone(),
        aws_region: e.aws_region.clone(),
        event_id: e.event_id.clone(),
        access_key_id: e.access_key_id.clone(),
        source_ip_address: e.source_ip_address.clone(),
        error_code: e.error_code.clone(),
        request_id: e.request_id.clone(),
        event_type: e.event_type.clone(),
        cloud_trail_event_json: e.cloud_trail_event_json.clone(),
    }
}

/// Opens the selected event with its record scrolled to the top, and retitles
/// the tab.
pub fn select_item(app: &mut App)
    ensures
        ({
            let s = old(app).cloudtrail_state;
            if s.current_event is None && s.table.selected < s.table.items@.len() {
                &&& final(app).cloudtrail_state.current_event == Some(s.table.items@[s.table.selected as int])
                &&& final(app).cloudtrail_state == (State {
                    current_event: final(app).cloudtrail_state.current_event,
                    event_json_scroll: 0,
                    ..s
                })
                &&& string_names(final(app).tab_breadcrumb@) == final(app).current_breadcrumb()
            } else {
                final(app).cloudtrail_state == s && final(app).tab_breadcrumb@ == old(app).tab_breadcrumb@
            }
        }),
        final(app).unchanged_except(*old(app), Service::CloudTrail),
        final(app).view_mode == old(app).view_mode,
        final(app).column_selector_index == old(app).column_selector_index,
        final(app).current_service == old(app).current_service,
{
    if app.cloudtrail_state.current_event.is_none() {
        let rows = all_rows(&app.cloudtrail_state);
        match app.cloudtrail_state.table.get_selected(&rows) {
            Some(idx) => {
                let e = copy_of(&app.cloudtrail_state.table.items[idx]);
                app.cloudtrail_state.current_event = Some(e);
                app.cloudtrail_state.event_json_scroll = 0;
                app.update_current_tab_breadcrumb();
            },
            None => {},
        }
    }
}

/// Leaves the open event and retitles the tab.
pub fn go_back(app: &mut App)
    ensures
        final(app).cloudtrail_state == (State { current_event: None, ..old(app).cloudtrail_state }),
        string_names(final(app).tab_breadcrumb@) == final(app).current_breadcrumb(),
        final(app).unchanged_except(*old(app), Service::CloudTrail),
        final(app).view_mode == old(app).view_mode,
        final(app).column_selector_index == old(app).column_selector_index,
        final(app).current_service == old(app).current_service,
{
    app.cloudtrail_state.current_event = None;
    app.update_current_tab_breadcrumb();
}

// ── Column preferences ───────────────────────────────────────────────────────

/// Whether the resources pane of an open event has the focus.
pub open spec fn on_resources(s: State) -> bool {
    s.current_event is Some && s.detail_focus == DetailFocus::Resources
}

/// The last row of the preferences panel: the resource columns on the resources
/// pane, else the event columns followed by the six page-size rows.
pub fn column_selector_max(app: &App) -> (r: usize)
    requires
        app.cloudtrail_event_column_ids@.len() + 6 <= usize::MAX,
    ensures
        r == (if on_resources(app.cloudtrail_state) {
            app.cloudtrail_resource_column_ids@.len() as int
        } else {
            app.cloudtrail_event_column_ids@.len() + 6 as int
        }),
{
    if app.cloudtrail_state.current_event.is_some()
        && app.cloudtrail_state.detail_focus == DetailFocus::Resources {
        app.cloudtrail_resource_column_ids.len()
    } else {
        app.cloudtrail_event_column_ids.len() + 6
    }
}

/// The number of columns of the table on screen.
pub fn column_count(app: &App) -> (r: usize)
    ensures
        r == (if on_resources(app.cloudtrail_state) {
            app.cloudtrail_resource_column_ids@.len()
        } else {
            app.cloudtrail_event_column_ids@.len()
        }),
{
    if app.cloudtrail_state.current_event.is_some()
        && app.cloudtrail_state.detail_focus == DetailFocus::Resources {
        app.cloudtrail_resource_column_ids.len()
    } else {
        app.cloudtrail_event_column_ids.len()
    }
}

// ── Yank / breadcrumb / console URL ──────────────────────────────────────────

/// The text that yanking copies: the record of the open event, if any.
pub fn yank(app: &App) -> (r: Option<String>)
    ensures
        r matches Some(t) ==> app.cloudtrail_state.current_event matches Some(e)
            && t@ == e.cloud_trail_event_json@,
        r is None <==> app.cloudtrail_state.current_event is None,
{
    match &app.cloudtrail_state.current_event {
        Some(e) => Some(e.cloud_trail_event_json.clone()),
        None => None,
    }
}

/// The breadcrumb of the view: `CloudTrail`, `Event History`, then the name of
/// the open event.
pub open spec fn breadcrumb_of(s: State) -> Seq<Seq<char>> {
    match s.current_event {
        Some(e) => seq!["CloudTrail"@, "Event History"@, e.event_name@],
        None => seq!["CloudTrail"@, "Event History"@],
    }
}

/// The breadcrumb of the view.
pub fn breadcrumb(app: &App) -> (r: Vec<String>)
    ensures
        string_names(r@) == breadcrumb_of(app.cloudtrail_state),
{
    let mut parts: Vec<String> = Vec::new();
    parts.push(String::from_str("CloudTrail"));
    parts.push(String::from_str("Event History"));
    match &app.cloudtrail_state.current_event {
        Some(e) => parts.push(e.event_name.clone()),
        None => {},
    }
    assert(string_names(parts@) =~= breadcrumb_of(app.cloudtrail_state));
    parts
}

/// The console page of the open event, else of the event history.
pub fn console_url(app: &App) -> (r: String)
    ensures
        r@ == (match app.cloudtrail_state.current_event {
            Some(e) => "https://"@ + app.config.region@ + ".console.aws.amazon.com/cloudtrailv2/home?region="@
                + app.config.region@ + "#/events/"@ + e.event_id@,
            None => "https://"@ + app.config.region@ + ".console.aws.amazon.com/cloudtrail/home?region="@
                + app.config.region@ + "#/events"@,
        }),
{
    let region = app.config.region.as_str();
    let mut s = String::from_str("https://");
    s.append(region);
    match &app.cloudtrail_state.current_event {
        Some(e) => {
            s.append(".console.aws.amazon.com/cloudtrailv2/home?region=");
            s.append(region);
            s.append("#/events/");
            s.append(e.event_id.as_str());
        },
        None => {
            s.append(".console.aws.amazon.com/cloudtrail/home?region=");
            s.append(region);
            s.append("#/events");
        },
    }
    s
}

} // verus!

//! Key-handling actions of the EFS view.
use vstd::prelude::*;
use vstd::string::*;
use crate::app::{App, Service};
use crate::columns::{id_names, string_names, toggle_visible, toggled_at};
use crate::common::{cycle_next, cycle_prev, min_usize, page_size_at, page_size_choice, sat_sub, InputFocus, PageSize};
use crate::efs::{
    console_url_file_system, console_url_file_system_with_tab, console_url_file_systems,
    file_system_address, file_system_with_id, file_systems_address, filter_control_list,
    filter_controls, filtered_access_point_rows, filtered_access_points, filtered_efs_file_systems,
    filtered_file_system_rows, find_file_system, DetailTab, State,
};
use crate::table::{min_int, page_size_picked, set_page_size_by_idx, TableState};
use crate::text::{line_count, line_count_of};

verus! {

/// Whether a file system is open.
pub open spec fn in_detail(s: State) -> bool {
    s.current_file_system is Some
}

/// Whether the open file system shows tab `t`.
pub open spec fn on_tab(s: State, t: DetailTab) -> bool {
    s.current_file_system is Some && s.detail_tab == t
}

/// The number of tags of the open file system (0 when it is not in the list).
pub open spec fn tag_count(s: State) -> int {
    match s.current_file_system {
        Some(id) => match file_system_with_id(s.file_systems.items@, id@) {
            Some(i) => s.file_systems.items@[i].tags@.len() as int,
            None => 0,
        },
        None => 0,
    }
}

fn current_fs_tag_count(s: &State) -> (r: usize)
    ensures
        r == tag_count(*s),
{
    match &s.current_file_system {
        Some(id) => match find_file_system(&s.file_systems.items, id.as_str()) {
            Some(i) => s.file_systems.items[i].tags.len(),
            None => 0,
        },
        None => 0,
    }
}

/// Only the file-systems table differs between `new` and `old`.
pub open spec fn only_file_systems(new: State, old: State) -> bool {
    new == State { file_systems: new.file_systems, ..old }
}

/// Only the access-points table differs between `new` and `old`.
pub open spec fn only_access_points(new: State, old: State) -> bool {
    new == State { access_points: new.access_points, ..old }
}

/// Only the mount-targets table differs between `new` and `old`.
pub open spec fn only_mount_targets(new: State, old: State) -> bool {
    new == State { mount_targets: new.mount_targets, ..old }
}

/// `s` with focus `f`.
pub open spec fn with_focus(s: State, f: InputFocus) -> State {
    State { input_focus: f, ..s }
}

/// `s` with no file system open, back on the first tab.
pub open spec fn closed(s: State) -> State {
    State { current_file_system: None, detail_tab: DetailTab::MeteredSize, ..s }
}

/// `s` with file system `id` open on its first tab.
pub open spec fn opened(s: State, id: String) -> State {
    State { current_file_system: Some(id), detail_tab: DetailTab::MeteredSize, ..s }
}

/// `s` with the chart scroll at `v`.
pub open spec fn with_monitoring_scroll(s: State, v: usize) -> State {
    State { monitoring_scroll: v, ..s }
}

/// `s` with the policy scroll at `v`.
pub open spec fn with_policy_scroll(s: State, v: usize) -> State {
    State { policy_scroll: v, ..s }
}

// ── Navigation ───────────────────────────────────────────────────────────────

/// What selecting the next row does: on the Tags, Access points and Network tabs
/// of an open file system the next tag, access point (among the filtered ones)
/// or mount target; nothing on the other tabs; in the list the next filtered
/// file system.
pub open spec fn next_item_done(new: State, old: State) -> bool {
    if in_detail(old) {
        match old.detail_tab {
            DetailTab::Tags => new == State { tags_table: new.tags_table, ..old }
                && new.tags_table.moved_down(old.tags_table, tag_count(old)),
            DetailTab::AccessPoints => new == State { access_points: new.access_points, ..old }
                && new.access_points.moved_down(
                old.access_points,
                filtered_access_point_rows(old).len() as int,
            ),
            DetailTab::Network => new == State { mount_targets: new.mount_targets, ..old }
                && new.mount_targets.moved_down(
                old.mount_targets,
                old.mount_targets.items@.len() as int,
            ),
            _ => new == old,
        }
    } else {
        new == State { file_systems: new.file_systems, ..old } && new.file_systems.moved_down(
            old.file_systems,
            filtered_file_system_rows(old).len() as int,
        )
    }
}

/// Selects the next row of the table on screen.
pub fn next_item(app: &mut App)
    ensures
        next_item_done(final(app).efs_state, old(app).efs_state),
        final(app).unchanged_except(*old(app), Service::Efs),
        final(app).keeps_shell(*old(app)),
{
    if app.efs_state.current_file_system.is_some() {
        match app.efs_state.detail_tab {
            DetailTab::Tags => {
                let n = current_fs_tag_count(&app.efs_state);
                if n > 0 {
                    app.efs_state.tags_table.next_item(n);
                }
            },
            DetailTab::AccessPoints => {
                let n = filtered_access_points(&app.efs_state).len();
                if n > 0 {
                    app.efs_state.access_points.next_item(n);
                }
            },
            DetailTab::Network => {
                let n = app.efs_state.mount_targets.items.len();
                if n > 0 {
                    app.efs_state.mount_targets.next_item(n);
                }
            },
            _ => {},
        }
    } else {
        let n = filtered_efs_file_systems(&app.efs_state).len();
        if n > 0 {
            app.efs_state.file_systems.next_item(n);
        }
    }
}

/// What selecting the previous row does (same tables as `next_item_done`).
pub open spec fn prev_item_done(new: State, old: State) -> bool {
    if in_detail(old) {
        match old.detail_tab {
            DetailTab::Tags => new == State { tags_table: new.tags_table, ..old }
                && new.tags_table.moved_up(old.tags_table),
            DetailTab::AccessPoints => new == State { access_points: new.access_points, ..old }
                && new.access_points.moved_up(old.access_points),
            DetailTab::Network => new == State { mount_targets: new.mount_targets, ..old }
                && new.mount_targets.moved_up(old.mount_targets),
            _ => new == old,
        }
    } else {
        new == State { file_systems: new.file_systems, ..old } && new.file_systems.moved_up(
            old.file_systems,
        )
    }
}

/// Selects the previous row of the table on screen.
pub fn prev_item(app: &mut App)
    ensures
        prev_item_done(final(app).efs_state, old(app).efs_state),
        final(app).unchanged_except(*old(app), Service::Efs),
        final(app).keeps_shell(*old(app)),
{
    if app.efs_state.current_file_system.is_some() {
        match app.efs_state.detail_tab {
            DetailTab::Tags => app.efs_state.tags_table.prev_item(),
            DetailTab::AccessPoints => app.efs_state.access_points.prev_item(),
            DetailTab::Network => app.efs_state.mount_targets.prev_item(),
            _ => {},
        }
    } else {
        app.efs_state.file_systems.prev_item();
    }
}

/// In the filter bar: one page down among the filtered access points on the
/// Access points tab; else among the file systems when the filter input has the
/// focus, or through the pagination control.
pub fn page_down_filter_input(app: &mut App)
    requires
        old(app).efs_state.file_systems.selected + 100 <= usize::MAX,
    ensures
        on_tab(old(app).efs_state, DetailTab::AccessPoints) ==> only_access_points(final(app).efs_state, old(app).efs_state) && final(app).efs_state.access_points.paged_down(
            old(app).efs_state.access_points,
            filtered_access_point_rows(old(app).efs_state).len() as int,
        ),
        !on_tab(old(app).efs_state, DetailTab::AccessPoints) ==> {
            &&& only_file_systems(final(app).efs_state, old(app).efs_state)
            &&& old(app).efs_state.input_focus.same(InputFocus::Filter) ==> final(app).efs_state.file_systems.paged_down(
                old(app).efs_state.file_systems,
                filtered_file_system_rows(old(app).efs_state).len() as int,
            )
            &&& !old(app).efs_state.input_focus.same(InputFocus::Filter) && old(app).efs_state.input_focus.same(
                InputFocus::Pagination,
            ) ==> {
                let ps = old(app).efs_state.file_systems.page_size.rows();
                let n = filtered_file_system_rows(old(app).efs_state).len() as usize;
                &&& final(app).efs_state.file_systems.selected == min_usize(
                    (old(app).efs_state.file_systems.selected + ps) as usize,
                    sat_sub(n, ps),
                )
                &&& final(app).efs_state.file_systems.scroll_offset == final(app).efs_state.file_systems.selected
                &&& final(app).efs_state.file_systems.same_content(old(app).efs_state.file_systems)
                &&& final(app).efs_state.file_systems.expanded_item == old(app).efs_state.file_systems.expanded_item
            }
            &&& !old(app).efs_state.input_focus.same(InputFocus::Filter) && !old(app).efs_state.input_focus.same(
                InputFocus::Pagination,
            ) ==> final(app).efs_state == old(app).efs_state
        },
        final(app).unchanged_except(*old(app), Service::Efs),
        final(app).keeps_shell(*old(app)),
{
    if app.efs_state.current_file_system.is_some() && app.efs_state.detail_tab
        == DetailTab::AccessPoints {
        let n = filtered_access_points(&app.efs_state).len();
        app.efs_state.access_points.page_down(n);
        return;
    }
    if app.efs_state.input_focus.is(&InputFocus::Filter) {
        let n = filtered_efs_file_systems(&app.efs_state).len();
        app.efs_state.file_systems.page_down(n);
    } else {
        let page_size = app.efs_state.file_systems.page_size.value();
        let filtered_count = filtered_efs_file_systems(&app.efs_state).len();
        let focus = app.efs_state.input_focus;
        focus.handle_page_down(
            &mut app.efs_state.file_systems.selected,
            &mut app.efs_state.file_systems.scroll_offset,
            page_size,
            filtered_count,
        );
    }
}

/// One page down in the table on screen: access points (filtered) or mount
/// targets on their tabs of an open file system, nothing on its other tabs,
/// the filtered file systems in the list.
pub fn page_down_normal(app: &mut App)
    ensures
        on_tab(old(app).efs_state, DetailTab::AccessPoints) ==> only_access_points(final(app).efs_state, old(app).efs_state) && final(app).efs_state.access_points.paged_down(
            old(app).efs_state.access_points,
            filtered_access_point_rows(old(app).efs_state).len() as int,
        ),
        on_tab(old(app).efs_state, DetailTab::Network) ==> only_mount_targets(final(app).efs_state, old(app).efs_state) && final(app).efs_state.mount_targets.paged_down(
            old(app).efs_state.mount_targets,
            old(app).efs_state.mount_targets.items@.len() as int,
        ),
        in_detail(old(app).efs_state) && !on_tab(old(app).efs_state, DetailTab::AccessPoints)
            && !on_tab(old(app).efs_state, DetailTab::Network) ==> final(app).efs_state == old(
            app,
        ).efs_state,
        !in_detail(old(app).efs_state) ==> only_file_systems(final(app).efs_state, old(app).efs_state) && final(app).efs_state.file_systems.paged_down(
            old(app).efs_state.file_systems,
            filtered_file_system_rows(old(app).efs_state).len() as int,
        ),
        final(app).unchanged_except(*old(app), Service::Efs),
        final(app).keeps_shell(*old(app)),
{
    if app.efs_state.current_file_system.is_some() {
        match app.efs_state.detail_tab {
            DetailTab::AccessPoints => {
                let n = filtered_access_points(&app.efs_state).len();
                app.efs_state.access_points.page_down(n);
            },
            DetailTab::Network => {
                let n = app.efs_state.mount_targets.items.len();
                app.efs_state.mount_targets.page_down(n);
            },
            _ => {},
        }
        return;
    }
    let n = filtered_efs_file_systems(&app.efs_state).len();
    app.efs_state.file_systems.page_down(n);
}

/// In the filter bar: one page up among the access points on the Access points
/// tab; else among the file systems when the filter input has the focus, or
/// through the pagination control.
pub fn page_up_filter_input(app: &mut App)
    ensures
        on_tab(old(app).efs_state, DetailTab::AccessPoints) ==> only_access_points(final(app).efs_state, old(app).efs_state) && final(app).efs_state.access_points.paged_up(old(app).efs_state.access_points),
        !on_tab(old(app).efs_state, DetailTab::AccessPoints) ==> {
            &&& only_file_systems(final(app).efs_state, old(app).efs_state)
            &&& old(app).efs_state.input_focus.same(InputFocus::Filter) ==> final(app).efs_state.file_systems.paged_up(
                old(app).efs_state.file_systems,
            )
            &&& !old(app).efs_state.input_focus.same(InputFocus::Filter) && old(app).efs_state.input_focus.same(
                InputFocus::Pagination,
            ) ==> {
                &&& final(app).efs_state.file_systems.selected == sat_sub(
                    old(app).efs_state.file_systems.selected,
                    old(app).efs_state.file_systems.page_size.rows(),
                )
                &&& final(app).efs_state.file_systems.scroll_offset == final(app).efs_state.file_systems.selected
                &&& final(app).efs_state.file_systems.same_content(old(app).efs_state.file_systems)
                &&& final(app).efs_state.file_systems.expanded_item == old(app).efs_state.file_systems.expanded_item
            }
            &&& !old(app).efs_state.input_focus.same(InputFocus::Filter) && !old(app).efs_state.input_focus.same(
                InputFocus::Pagination,
            ) ==> final(app).efs_state == old(app).efs_state
        },
        final(app).unchanged_except(*old(app), Service::Efs),
        final(app).keeps_shell(*old(app)),
{
    if app.efs_state.current_file_system.is_some() && app.efs_state.detail_tab
        == DetailTab::AccessPoints {
        app.efs_state.access_points.page_up();
        return;
    }
    if app.efs_state.input_focus.is(&InputFocus::Filter) {
        app.efs_state.file_systems.page_up();
    } else {
        let page_size = app.efs_state.file_systems.page_size.value();
        let focus = app.efs_state.input_focus;
        focus.handle_page_up(
            &mut app.efs_state.file_systems.selected,
            &mut app.efs_state.file_systems.scroll_offset,
            page_size,
        );
    }
}

/// One page up in the table on screen (see `page_down_normal`).
pub fn page_up_normal(app: &mut App)
    ensures
        on_tab(old(app).efs_state, DetailTab::AccessPoints) ==> only_access_points(final(app).efs_state, old(app).efs_state) && final(app).efs_state.access_points.paged_up(old(app).efs_state.access_points),
        on_tab(old(app).efs_state, DetailTab::Network) ==> only_mount_targets(final(app).efs_state, old(app).efs_state) && final(app).efs_state.mount_targets.paged_up(old(app).efs_state.mount_targets),
        in_detail(old(app).efs_state) && !on_tab(old(app).efs_state, DetailTab::AccessPoints)
            && !on_tab(old(app).efs_state, DetailTab::Network) ==> final(app).efs_state == old(
            app,
        ).efs_state,
        !in_detail(old(app).efs_state) ==> only_file_systems(final(app).efs_state, old(app).efs_state) && final(app).efs_state.file_systems.paged_up(old(app).efs_state.file_systems),
        final(app).unchanged_except(*old(app), Service::Efs),
        final(app).keeps_shell(*old(app)),
{
    if app.efs_state.current_file_system.is_some() {
        match app.efs_state.detail_tab {
            DetailTab::AccessPoints => app.efs_state.access_points.page_up(),
            DetailTab::Network => app.efs_state.mount_targets.page_up(),
            _ => {},
        }
        return;
    }
    app.efs_state.file_systems.page_up();
}

/// What opening or closing the selected row does, per table on screen.
pub open spec fn expand_done(new: State, old: State) -> bool {
    if in_detail(old) {
        match old.detail_tab {
            DetailTab::Tags => new == State { tags_table: new.tags_table, ..old }
                && new.tags_table.expand_toggled(old.tags_table),
            DetailTab::AccessPoints => new == State { access_points: new.access_points, ..old }
                && new.access_points.expand_toggled(old.access_points),
            DetailTab::Network => new == State { mount_targets: new.mount_targets, ..old }
                && new.mount_targets.expand_toggled(old.mount_targets),
            _ => new == old,
        }
    } else {
        new == State { file_systems: new.file_systems, ..old } && new.file_systems.expand_toggled(
            old.file_systems,
        )
    }
}

/// Opens (or closes) the selected row of the table on screen.
pub fn expand_row(app: &mut App)
    ensures
        expand_done(final(app).efs_state, old(app).efs_state),
        final(app).unchanged_except(*old(app), Service::Efs),
        final(app).keeps_shell(*old(app)),
{
    if app.efs_state.current_file_system.is_some() {
        match app.efs_state.detail_tab {
            DetailTab::Tags => app.efs_state.tags_table.toggle_expand(),
            DetailTab::AccessPoints => app.efs_state.access_points.toggle_expand(),
            DetailTab::Network => app.efs_state.mount_targets.toggle_expand(),
            _ => {},
        }
    } else {
        app.efs_state.file_systems.toggle_expand();
    }
}

/// What closing the open row does, per table on screen.
pub open spec fn collapse_done(new: State, old: State) -> bool {
    if in_detail(old) {
        match old.detail_tab {
            DetailTab::Tags => new == State { tags_table: new.tags_table, ..old }
                && new.tags_table.collapsed(old.tags_table),
            DetailTab::AccessPoints => new == State { access_points: new.access_points, ..old }
                && new.access_points.collapsed(old.access_points),
            DetailTab::Network => new == State { mount_targets: new.mount_targets, ..old }
                && new.mount_targets.collapsed(old.mount_targets),
            _ => new == old,
        }
    } else {
        new == State { file_systems: new.file_systems, ..old } && new.file_systems.collapsed(
            old.file_systems,
        )
    }
}

/// Same as `collapse_row`.
pub fn prev_pane(app: &mut App)
    ensures
        collapse_done(final(app).efs_state, old(app).efs_state),
        final(app).unchanged_except(*old(app), Service::Efs),
        final(app).keeps_shell(*old(app)),
{
    collapse_row(app);
}

/// Closes the open row of the table on screen.
pub fn collapse_row(app: &mut App)
    ensures
        collapse_done(final(app).efs_state, old(app).efs_state),
        final(app).unchanged_except(*old(app), Service::Efs),
        final(app).keeps_shell(*old(app)),
{
    if app.efs_state.current_file_system.is_some() {
        match app.efs_state.detail_tab {
            DetailTab::Tags => app.efs_state.tags_table.collapse(),
            DetailTab::AccessPoints => app.efs_state.access_points.collapse(),
            DetailTab::Network => app.efs_state.mount_targets.collapse(),
            _ => {},
        }
    } else {
        app.efs_state.file_systems.collapse();
    }
}

/// Jumps to page `page` (0-based) of the filtered access points on their tab,
/// else of the filtered file systems.
pub fn go_to_page(app: &mut App, page: usize)
    ensures
        on_tab(old(app).efs_state, DetailTab::AccessPoints) ==> only_access_points(final(app).efs_state, old(app).efs_state) && final(app).efs_state.access_points.jumped(
            old(app).efs_state.access_points,
            page as int,
            filtered_access_point_rows(old(app).efs_state).len() as int,
        ),
        !on_tab(old(app).efs_state, DetailTab::AccessPoints) ==> only_file_systems(final(app).efs_state, old(app).efs_state) && final(app).efs_state.file_systems.jumped(
            old(app).efs_state.file_systems,
            page as int,
            filtered_file_system_rows(old(app).efs_state).len() as int,
        ),
        final(app).unchanged_except(*old(app), Service::Efs),
        final(app).keeps_shell(*old(app)),
{
    if app.efs_state.current_file_system.is_some() && app.efs_state.detail_tab
        == DetailTab::AccessPoints {
        let n = filtered_access_points(&app.efs_state).len();
        app.efs_state.access_points.goto_page(page, n);
        return;
    }
    let n = filtered_efs_file_systems(&app.efs_state).len();
    app.efs_state.file_systems.goto_page(page, n);
}

// ── Filter ───────────────────────────────────────────────────────────────────

/// Back to the first access point on their tab, else the first file system.
pub fn apply_filter_reset(app: &mut App)
    ensures
        on_tab(old(app).efs_state, DetailTab::AccessPoints) ==> only_access_points(final(app).efs_state, old(app).efs_state) && final(app).efs_state.access_points.was_reset(old(app).efs_state.access_points),
        !on_tab(old(app).efs_state, DetailTab::AccessPoints) ==> only_file_systems(final(app).efs_state, old(app).efs_state) && final(app).efs_state.file_systems.was_reset(old(app).efs_state.file_systems),
        final(app).unchanged_except(*old(app), Service::Efs),
        final(app).keeps_shell(*old(app)),
{
    if app.efs_state.current_file_system.is_some() && app.efs_state.detail_tab
        == DetailTab::AccessPoints {
        app.efs_state.access_points.reset();
        return;
    }
    app.efs_state.file_systems.reset();
}

/// Gives the filter input the focus.
pub fn start_filter(app: &mut App)
    ensures
        final(app).efs_state == with_focus(old(app).efs_state, InputFocus::Filter),
        final(app).unchanged_except(*old(app), Service::Efs),
        final(app).keeps_shell(*old(app)),
{
    app.efs_state.input_focus = InputFocus::Filter;
}

/// Moves the focus to the next control of the filter bar.
pub fn next_filter_focus(app: &mut App)
    ensures
        final(app).efs_state == with_focus(old(app).efs_state, cycle_next(filter_controls(), old(app).efs_state.input_focus)),
        final(app).unchanged_except(*old(app), Service::Efs),
        final(app).keeps_shell(*old(app)),
{
    let controls = filter_control_list();
    app.efs_state.input_focus = app.efs_state.input_focus.next(controls.as_slice());
}

/// Moves the focus to the previous control of the filter bar.
pub fn prev_filter_focus(app: &mut App)
    ensures
        final(app).efs_state == with_focus(old(app).efs_state, cycle_prev(filter_controls(), old(app).efs_state.input_focus)),
        final(app).unchanged_except(*old(app), Service::Efs),
        final(app).keeps_shell(*old(app)),
{
    let controls = filter_control_list();
    app.efs_state.input_focus = app.efs_state.input_focus.prev(controls.as_slice());
}

/// Whether the pagination control has the focus.
pub fn is_pagination_focused(app: &App) -> (r: bool)
    ensures
        r == app.efs_state.input_focus.same(InputFocus::Pagination),
{
    app.efs_state.input_focus.is(&InputFocus::Pagination)
}

// ── Yank / select / go back ──────────────────────────────────────────────────

/// The text that yanking copies: the policy document on the policy tab (when
/// there is one), else the ARN of the open file system; in the list the id of
/// the selected file system. Nothing when there is no such row.
pub fn yank(app: &App) -> (r: Option<String>)
    ensures
        ({
            let s = app.efs_state;
            match s.current_file_system {
                Some(id) => if s.detail_tab == DetailTab::FileSystemPolicy && s.policy_document@.len() > 0 {
                    r == Some(s.policy_document)
                } else {
                    match file_system_with_id(s.file_systems.items@, id@) {
                        Some(i) => r is Some && r->0@ == s.file_systems.items@[i].file_system_arn@,
                        None => r is None,
                    }
                },
                None => {
                    let f = filtered_file_system_rows(s);
                    match r {
                        Some(t) => s.file_systems.selected < f.len() && t@ == s.file_systems.items@[f[s.file_systems.selected as int] as int].file_system_id@,
                        None => s.file_systems.selected >= f.len(),
                    }
                },
            }
        }),
{
    match &app.efs_state.current_file_system {
        Some(fs_id) => {
            if app.efs_state.detail_tab == DetailTab::FileSystemPolicy
                && app.efs_state.policy_document.as_str().unicode_len() > 0 {
                return Some(app.efs_state.policy_document.clone());
            }
            match find_file_system(&app.efs_state.file_systems.items, fs_id.as_str()) {
                Some(i) => Some(app.efs_state.file_systems.items[i].file_system_arn.clone()),
                None => None,
            }
        },
        None => {
            let filtered = filtered_efs_file_systems(&app.efs_state);
            match app.efs_state.file_systems.get_selected(&filtered) {
                Some(idx) => {
                    proof {
                        crate::table::lemma_kept_indices_bounded(
                            app.efs_state.file_systems.items@.len(),
                            |k: int| crate::efs::file_system_kept(app.efs_state.file_systems.items@[k], app.efs_state.file_systems.filter@),
                        );
                    }
                    Some(app.efs_state.file_systems.items[idx].file_system_id.clone())
                },
                None => None,
            }
        },
    }
}

/// Opens the selected file system (among the filtered ones) on its first tab.
pub fn select_item(app: &mut App)
    ensures
        ({
            let s = old(app).efs_state;
            let f = filtered_file_system_rows(s);
            if s.current_file_system is None && s.file_systems.selected < f.len() {
                final(app).efs_state == opened(s, s.file_systems.items@[f[s.file_systems.selected as int] as int].file_system_id)
            } else {
                final(app).efs_state == s
            }
        }),
        final(app).unchanged_except(*old(app), Service::Efs),
        final(app).keeps_shell(*old(app)),
{
    if app.efs_state.current_file_system.is_none() {
        let filtered = filtered_efs_file_systems(&app.efs_state);
        match app.efs_state.file_systems.get_selected(&filtered) {
            Some(idx) => {
                proof {
                    crate::table::lemma_kept_indices_bounded(
                        app.efs_state.file_systems.items@.len(),
                        |k: int| crate::efs::file_system_kept(app.efs_state.file_systems.items@[k], app.efs_state.file_systems.filter@),
                    );
                }
                let id = app.efs_state.file_systems.items[idx].file_system_id.clone();
                app.efs_state.current_file_system = Some(id);
                app.efs_state.detail_tab = DetailTab::MeteredSize;
            },
            None => {},
        }
    }
}

/// Leaves the file system, back on the first tab.
pub fn go_back(app: &mut App)
    ensures
        final(app).efs_state == closed(old(app).efs_state),
        final(app).unchanged_except(*old(app), Service::Efs),
        final(app).keeps_shell(*old(app)),
{
    app.efs_state.current_file_system = None;
    app.efs_state.detail_tab = DetailTab::MeteredSize;
}

/// What opening tab `new.detail_tab` asks for: Monitoring reloads its charts
/// from the top; the policy tab reloads the policy from its first line; Access
/// points and Network reload their tables from the first row; Replication
/// reloads its data.
pub open spec fn tab_loaded(new: State, old: State) -> bool {
    match new.detail_tab {
        DetailTab::Monitoring => new == State {
            metrics_loading: true,
            monitoring_scroll: 0,
            has_metrics: false,
            detail_tab: new.detail_tab,
            ..old
        },
        DetailTab::FileSystemPolicy => new == State {
            policy_loading: true,
            policy_scroll: 0,
            detail_tab: new.detail_tab,
            ..old
        },
        DetailTab::AccessPoints => new == State {
            ap_loading: true,
            access_points: new.access_points,
            detail_tab: new.detail_tab,
            ..old
        } && new.access_points.was_reset(old.access_points),
        DetailTab::Network => new == State {
            mt_loading: true,
            mount_targets: new.mount_targets,
            detail_tab: new.detail_tab,
            ..old
        } && new.mount_targets.was_reset(old.mount_targets),
        DetailTab::Replication => new == State {
            replication_loading: true,
            detail_tab: new.detail_tab,
            ..old
        },
        _ => new == State { detail_tab: new.detail_tab, ..old },
    }
}

#[verifier::rlimit(40)]
fn trigger_tab_load(app: &mut App)
    ensures
        tab_loaded(final(app).efs_state, old(app).efs_state),
        final(app).efs_state.detail_tab == old(app).efs_state.detail_tab,
        final(app).unchanged_except(*old(app), Service::Efs),
        final(app).keeps_shell(*old(app)),
{
    match app.efs_state.detail_tab {
        DetailTab::Monitoring => {
            app.efs_state.metrics_loading = true;
            app.efs_state.monitoring_scroll = 0;
            app.efs_state.has_metrics = false;
        },
        DetailTab::FileSystemPolicy => {
            app.efs_state.policy_loading = true;
            app.efs_state.policy_scroll = 0;
        },
        DetailTab::AccessPoints => {
            app.efs_state.ap_loading = true;
            app.efs_state.access_points.reset();
        },
        DetailTab::Network => {
            app.efs_state.mt_loading = true;
            app.efs_state.mount_targets.reset();
        },
        DetailTab::Replication => {
            app.efs_state.replication_loading = true;
        },
        _ => {},
    }
}

/// Opens the next detail tab and asks for its data.
pub fn next_detail_tab(app: &mut App)
    ensures
        final(app).efs_state.detail_tab == old(app).efs_state.detail_tab.following(),
        tab_loaded(final(app).efs_state, old(app).efs_state),
        final(app).unchanged_except(*old(app), Service::Efs),
        final(app).keeps_shell(*old(app)),
{
    app.efs_state.detail_tab = app.efs_state.detail_tab.next();
    trigger_tab_load(app);
}

/// Opens the previous detail tab and asks for its data.
pub fn prev_detail_tab(app: &mut App)
    ensures
        final(app).efs_state.detail_tab == old(app).efs_state.detail_tab.preceding(),
        tab_loaded(final(app).efs_state, old(app).efs_state),
        final(app).unchanged_except(*old(app), Service::Efs),
        final(app).keeps_shell(*old(app)),
{
    app.efs_state.detail_tab = app.efs_state.detail_tab.prev();
    trigger_tab_load(app);
}

/// Scrolls the active detail tab down: the charts up to the sixth one, the
/// policy up to its last line.
pub fn scroll_down_detail(app: &mut App)
    ensures
        ({
            let s = old(app).efs_state;
            match s.detail_tab {
                DetailTab::Monitoring => final(app).efs_state == with_monitoring_scroll(s, min_int(s.monitoring_scroll + 1, 5) as usize),
                DetailTab::FileSystemPolicy => final(app).efs_state == with_policy_scroll(s, min_int(
                        s.policy_scroll + 1,
                        if line_count_of(s.policy_document@) > 0 {
                            line_count_of(s.policy_document@) - 1
                        } else {
                            0
                        },
                    ) as usize),
                _ => final(app).efs_state == s,
            }
        }),
        final(app).unchanged_except(*old(app), Service::Efs),
        final(app).keeps_shell(*old(app)),
{
    match app.efs_state.detail_tab {
        DetailTab::Monitoring => {
            let max: usize = 5;
            app.efs_state.monitoring_scroll = if app.efs_state.monitoring_scroll < max {
                app.efs_state.monitoring_scroll + 1
            } else {
                max
            };
        },
        DetailTab::FileSystemPolicy => {
            let lines = line_count(app.efs_state.policy_document.as_str());
            let max = if lines > 0 { lines - 1 } else { 0 };
            app.efs_state.policy_scroll = if app.efs_state.policy_scroll < max {
                app.efs_state.policy_scroll + 1
            } else {
                max
            };
        },
        _ => {},
    }
}

/// Scrolls the active detail tab up.
pub fn scroll_up_detail(app: &mut App)
    ensures
        ({
            let s = old(app).efs_state;
            match s.detail_tab {
                DetailTab::Monitoring => final(app).efs_state == with_monitoring_scroll(s, (if s.monitoring_scroll > 0 { s.monitoring_scroll - 1 } else { 0 }) as usize),
                DetailTab::FileSystemPolicy => final(app).efs_state == with_policy_scroll(s, (if s.policy_scroll > 0 { s.policy_scroll - 1 } else { 0 }) as usize),
                _ => final(app).efs_state == s,
            }
        }),
        final(app).unchanged_except(*old(app), Service::Efs),
        final(app).keeps_shell(*old(app)),
{
    match app.efs_state.detail_tab {
        DetailTab::Monitoring => {
            app.efs_state.monitoring_scroll = if app.efs_state.monitoring_scroll > 0 {
                app.efs_state.monitoring_scroll - 1
            } else {
                0
            };
        },
        DetailTab::FileSystemPolicy => {
            app.efs_state.policy_scroll = if app.efs_state.policy_scroll > 0 {
                app.efs_state.policy_scroll - 1
            } else {
                0
            };
        },
        _ => {},
    }
}

// ── Breadcrumb / console URL ─────────────────────────────────────────────────

/// The breadcrumb of the view: `EFS`, then the open file system or `File Systems`.
pub open spec fn breadcrumb_of(s: State) -> Seq<Seq<char>> {
    seq![
        "EFS"@,
        match s.current_file_system {
            Some(id) => id@,
            None => "File Systems"@,
        },
    ]
}

/// The breadcrumb of the view.
pub fn breadcrumb(app: &App) -> (r: Vec<String>)
    ensures
        string_names(r@) == breadcrumb_of(app.efs_state),
{
    let second = match &app.efs_state.current_file_system {
        Some(id) => id.clone(),
        None => String::from_str("File Systems"),
    };
    let r = vec![String::from_str("EFS"), second];
    assert(string_names(r@) =~= breadcrumb_of(app.efs_state));
    r
}

/// The address of the view in the AWS console: the open file system on its
/// active tab, else the selected file system, else the list.
pub fn console_url(app: &App) -> (r: String)
    ensures
        ({
            let s = app.efs_state;
            let region = app.config.region@;
            let f = filtered_file_system_rows(s);
            r@ == match s.current_file_system {
                Some(id) => file_system_address(region, id@) + "?tabId="@ + s.detail_tab.console_id(),
                None => if s.file_systems.selected < f.len() {
                    file_system_address(
                        region,
                        s.file_systems.items@[f[s.file_systems.selected as int] as int].file_system_id@,
                    )
                } else {
                    file_systems_address(region)
                },
            }
        }),
{
    let region = app.config.region.as_str();
    match &app.efs_state.current_file_system {
        Some(id) => console_url_file_system_with_tab(region, id.as_str(), app.efs_state.detail_tab),
        None => {
            let filtered = filtered_efs_file_systems(&app.efs_state);
            match app.efs_state.file_systems.get_selected(&filtered) {
                Some(idx) => {
                    proof {
                        crate::table::lemma_kept_indices_bounded(
                            app.efs_state.file_systems.items@.len(),
                            |k: int| crate::efs::file_system_kept(app.efs_state.file_systems.items@[k], app.efs_state.file_systems.filter@),
                        );
                    }
                    console_url_file_system(region, app.efs_state.file_systems.items[idx].file_system_id.as_str())
                },
                None => console_url_file_systems(region),
            }
        },
    }
}

// ── Column preferences ───────────────────────────────────────────────────────

/// The number of columns offered by the preferences panel for the table on screen.
pub open spec fn prefs_col_count(s: State, fs_columns: int) -> int {
    if in_detail(s) {
        match s.detail_tab {
            DetailTab::Tags => 2,
            DetailTab::AccessPoints => s.ap_column_ids@.len() as int,
            DetailTab::Network => s.mt_column_ids@.len() as int,
            _ => fs_columns,
        }
    } else {
        fs_columns
    }
}

fn active_prefs_col_count(app: &App) -> (r: usize)
    ensures
        r == prefs_col_count(app.efs_state, app.efs_column_ids@.len() as int),
{
    if app.efs_state.current_file_system.is_some() {
        match app.efs_state.detail_tab {
            DetailTab::Tags => 2,
            DetailTab::AccessPoints => app.efs_state.ap_column_ids.len(),
            DetailTab::Network => app.efs_state.mt_column_ids.len(),
            _ => app.efs_column_ids.len(),
        }
    } else {
        app.efs_column_ids.len()
    }
}

/// What applying the preferences row does (see `toggle_column`).
pub open spec fn toggle_column_done(new_app: App, old_app: App) -> bool {
            let s = old_app.efs_state;
            let t = new_app.efs_state;
            let idx = old_app.column_selector_index as int;
            if in_detail(s) {
                &&& new_app.efs_visible_column_ids@ == old_app.efs_visible_column_ids@
                &&& match s.detail_tab {
                    DetailTab::Tags => t == State { tags_table: t.tags_table, ..s }
                        && page_size_picked(t.tags_table, s.tags_table, idx, 2),
                    DetailTab::AccessPoints => t == State {
                        access_points: t.access_points,
                        ap_visible_column_ids: t.ap_visible_column_ids,
                        ..s
                    } && page_size_picked(t.access_points, s.access_points, idx, s.ap_column_ids@.len() as int)
                        && id_names(t.ap_visible_column_ids@) == toggled_at(
                        id_names(s.ap_visible_column_ids@),
                        id_names(s.ap_column_ids@),
                        idx,
                        true,
                    ),
                    DetailTab::Network => t == State {
                        mount_targets: t.mount_targets,
                        mt_visible_column_ids: t.mt_visible_column_ids,
                        ..s
                    } && page_size_picked(t.mount_targets, s.mount_targets, idx, s.mt_column_ids@.len() as int)
                        && id_names(t.mt_visible_column_ids@) == toggled_at(
                        id_names(s.mt_visible_column_ids@),
                        id_names(s.mt_column_ids@),
                        idx,
                        true,
                    ),
                    _ => t == s,
                }
            } else {
                let n = old_app.efs_column_ids@.len() as int;
                &&& id_names(new_app.efs_visible_column_ids@) == toggled_at(
                    id_names(old_app.efs_visible_column_ids@),
                    id_names(old_app.efs_column_ids@),
                    idx,
                    true,
                )
                &&& t == State { file_systems: t.file_systems, ..s }
                &&& (if 0 < idx <= n {
                    t.file_systems == s.file_systems
                } else {
                    page_size_picked(t.file_systems, s.file_systems, idx, n)
                })
            }
}

/// Applies the preferences row under the cursor to the table on screen: on the
/// Tags tab only the page size; on Access points and Network a column toggle and
/// the page size; nothing on the other tabs; in the list a file-system column or
/// the page size. Picking a page size returns to the first row.
pub fn toggle_column(app: &mut App)
    ensures
        toggle_column_done(*final(app), *old(app)),
        final(app).efs_column_ids@ == old(app).efs_column_ids@,
        final(app).config == old(app).config,
        final(app).keeps_shell(*old(app)),
{
    let idx = app.column_selector_index;
    if app.efs_state.current_file_system.is_some() {
        match app.efs_state.detail_tab {
            DetailTab::Tags => {
                set_page_size_by_idx(&mut app.efs_state.tags_table, idx, 2);
                return;
            },
            DetailTab::AccessPoints => {
                let n = app.efs_state.ap_column_ids.len();
                toggle_visible(&mut app.efs_state.ap_visible_column_ids, &app.efs_state.ap_column_ids, idx, true);
                set_page_size_by_idx(&mut app.efs_state.access_points, idx, n);
                return;
            },
            DetailTab::Network => {
                let n = app.efs_state.mt_column_ids.len();
                toggle_visible(&mut app.efs_state.mt_visible_column_ids, &app.efs_state.mt_column_ids, idx, true);
                set_page_size_by_idx(&mut app.efs_state.mount_targets, idx, n);
                return;
            },
            _ => {
                return;
            },
        }
    }
    let n = app.efs_column_ids.len();
    if idx > 0 && idx <= n {
        toggle_visible(&mut app.efs_visible_column_ids, &app.efs_column_ids, idx, true);
    } else {
        set_page_size_by_idx(&mut app.efs_state.file_systems, idx, n);
    }
}

/// Moves the preferences cursor between the columns section and the page-size
/// section (row `columns + 2`) of the table on screen.
pub fn next_preferences(app: &mut App)
    requires
        prefs_col_count(old(app).efs_state, old(app).efs_column_ids@.len() as int) + 2 <= usize::MAX,
    ensures
        ({
            let p = prefs_col_count(old(app).efs_state, old(app).efs_column_ids@.len() as int) + 2;
            final(app).column_selector_index == (if old(app).column_selector_index < p { p } else { 0 })
        }),
        final(app).efs_state == old(app).efs_state,
        final(app).unchanged_except(*old(app), Service::Other),
        final(app).view_mode == old(app).view_mode,
        final(app).current_service == old(app).current_service,
        final(app).tab_breadcrumb@ == old(app).tab_breadcrumb@,
{
    let page_size_idx = active_prefs_col_count(app) + 2;
    if app.column_selector_index < page_size_idx {
        app.column_selector_index = page_size_idx;
    } else {
        app.column_selector_index = 0;
    }
}

/// Moves the preferences cursor the other way.
pub fn prev_preferences(app: &mut App)
    requires
        prefs_col_count(old(app).efs_state, old(app).efs_column_ids@.len() as int) + 2 <= usize::MAX,
    ensures
        ({
            let p = prefs_col_count(old(app).efs_state, old(app).efs_column_ids@.len() as int) + 2;
            final(app).column_selector_index == (if old(app).column_selector_index >= p { 0 } else { p })
        }),
        final(app).efs_state == old(app).efs_state,
        final(app).unchanged_except(*old(app), Service::Other),
        final(app).view_mode == old(app).view_mode,
        final(app).current_service == old(app).current_service,
        final(app).tab_breadcrumb@ == old(app).tab_breadcrumb@,
{
    let page_size_idx = active_prefs_col_count(app) + 2;
    if app.column_selector_index >= page_size_idx {
        app.column_selector_index = 0;
    } else {
        app.column_selector_index = page_size_idx;
    }
}

/// The last row of the preferences panel.
pub fn column_selector_max(app: &App) -> (r: usize)
    requires
        prefs_col_count(app.efs_state, app.efs_column_ids@.len() as int) + 6 <= usize::MAX,
    ensures
        r == prefs_col_count(app.efs_state, app.efs_column_ids@.len() as int) + 6,
{
    active_prefs_col_count(app) + 6
}

/// The number of columns of the table on screen.
pub fn column_count(app: &App) -> (r: usize)
    ensures
        r == prefs_col_count(app.efs_state, app.efs_column_ids@.len() as int),
{
    active_prefs_col_count(app)
}

/// The filter that typed characters edit: the access points filter on the
/// access points tab of an open file system, else the list's filter.
pub fn get_active_filter_mut(app: &mut App) -> (r: Option<&mut String>)
    ensures
        r is Some,
        ({
            let s = old(app).efs_state;
            if s.current_file_system is Some && s.detail_tab == crate::efs::DetailTab::AccessPoints {
                &&& *r.unwrap() == s.access_points.filter
                &&& *final(app) == (App {
                    efs_state: crate::efs::State {
                        access_points: TableState { filter: *final(r.unwrap()), ..s.access_points },
                        ..s
                    },
                    ..*old(app)
                })
            } else {
                &&& *r.unwrap() == s.file_systems.filter
                &&& *final(app) == (App {
                    efs_state: crate::efs::State {
                        file_systems: TableState { filter: *final(r.unwrap()), ..s.file_systems },
                        ..s
                    },
                    ..*old(app)
                })
            }
        }),
{
    if app.efs_state.current_file_system.is_some() && app.efs_state.detail_tab == crate::efs::DetailTab::AccessPoints {
        return Some(&mut app.efs_state.access_points.filter);
    }
    Some(&mut app.efs_state.file_systems.filter)
}

} // verus!

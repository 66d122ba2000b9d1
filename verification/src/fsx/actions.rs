//! Key-handling actions of the FSx view.
use vstd::prelude::*;
use vstd::string::*;
use crate::app::{App, Service};
use crate::columns::{id_names, string_names, toggle_visible, toggled_at};
use crate::common::{cycle_next, cycle_prev, min_usize, sat_sub, InputFocus};
use crate::fsx::{
    console_url_file_system, console_url_file_systems, file_system_address,
    file_system_with_id, file_systems_address, filter_control_list, filter_controls,
    filtered_file_system_rows, filtered_fsx_file_systems, find_file_system, DetailTab, State,
};
use crate::table::{page_size_picked, set_page_size_by_idx};

verus! {

/// Whether a file system is open.
pub open spec fn in_detail(s: State) -> bool {
    s.current_file_system is Some
}

/// The open file system's position in the list, if it is there.
pub open spec fn current_index(s: State) -> Option<int> {
    match s.current_file_system {
        Some(id) => file_system_with_id(s.file_systems.items@, id@),
        None => None,
    }
}

/// The number of tags of the open file system (0 when it is not in the list).
pub open spec fn tag_count(s: State) -> int {
    match current_index(s) {
        Some(i) => s.file_systems.items@[i].tags@.len() as int,
        None => 0,
    }
}

/// The number of updates of the open file system (0 when it is not in the list).
pub open spec fn update_count(s: State) -> int {
    match current_index(s) {
        Some(i) => s.file_systems.items@[i].updates@.len() as int,
        None => 0,
    }
}

fn current_fs(s: &State) -> (r: Option<usize>)
    ensures
        match r {
            Some(i) => current_index(*s) == Some(i as int) && i < s.file_systems.items@.len(),
            None => current_index(*s) is None,
        },
{
    match &s.current_file_system {
        Some(id) => find_file_system(&s.file_systems.items, id.as_str()),
        None => None,
    }
}

fn current_fs_tag_count(s: &State) -> (r: usize)
    ensures
        r == tag_count(*s),
{
    match current_fs(s) {
        Some(i) => s.file_systems.items[i].tags.len(),
        None => 0,
    }
}

fn current_fs_update_count(s: &State) -> (r: usize)
    ensures
        r == update_count(*s),
{
    match current_fs(s) {
        Some(i) => s.file_systems.items[i].updates.len(),
        None => 0,
    }
}

/// Only the file-systems table differs between `new` and `old`.
pub open spec fn only_file_systems(new: State, old: State) -> bool {
    new == State { file_systems: new.file_systems, ..old }
}

/// Only the tags table differs between `new` and `old`.
pub open spec fn only_tags(new: State, old: State) -> bool {
    new == State { tags_table: new.tags_table, ..old }
}

/// Only the updates table differs between `new` and `old`.
pub open spec fn only_updates(new: State, old: State) -> bool {
    new == State { updates_table: new.updates_table, ..old }
}

/// Only the backups table differs between `new` and `old`.
pub open spec fn only_backups(new: State, old: State) -> bool {
    new == State { backups: new.backups, ..old }
}

/// `s` with focus `f`.
pub open spec fn with_focus(s: State, f: InputFocus) -> State {
    State { input_focus: f, ..s }
}

// ── Navigation ───────────────────────────────────────────────────────────────

/// What selecting the next row does: on the Tags, Updates and Backups tabs of
/// an open file system the next tag, update or backup; nothing on its other
/// tabs; in the list the next filtered file system.
pub open spec fn next_item_done(new: State, old: State) -> bool {
    if in_detail(old) {
        match old.detail_tab {
            DetailTab::Tags => only_tags(new, old) && new.tags_table.moved_down(old.tags_table, tag_count(old)),
            DetailTab::Updates => only_updates(new, old) && new.updates_table.moved_down(
                old.updates_table,
                update_count(old),
            ),
            DetailTab::Backups => only_backups(new, old) && new.backups.moved_down(
                old.backups,
                old.backups.items@.len() as int,
            ),
            _ => new == old,
        }
    } else {
        only_file_systems(new, old) && new.file_systems.moved_down(
            old.file_systems,
            filtered_file_system_rows(old).len() as int,
        )
    }
}

/// Selects the next row of the table on screen.
pub fn next_item(app: &mut App)
    ensures
        next_item_done(final(app).fsx_state, old(app).fsx_state),
        final(app).unchanged_except(*old(app), Service::Fsx),
        final(app).keeps_shell(*old(app)),
{
    if app.fsx_state.current_file_system.is_some() {
        match app.fsx_state.detail_tab {
            DetailTab::Tags => {
                let n = current_fs_tag_count(&app.fsx_state);
                if n > 0 {
                    app.fsx_state.tags_table.next_item(n);
                }
            },
            DetailTab::Updates => {
                let n = current_fs_update_count(&app.fsx_state);
                if n > 0 {
                    app.fsx_state.updates_table.next_item(n);
                }
            },
            DetailTab::Backups => {
                let n = app.fsx_state.backups.items.len();
                if n > 0 {
                    app.fsx_state.backups.next_item(n);
                }
            },
            _ => {},
        }
        return;
    }
    let n = filtered_fsx_file_systems(&app.fsx_state).len();
    if n > 0 {
        app.fsx_state.file_systems.next_item(n);
    }
}

/// What selecting the previous row does (same tables as `next_item_done`).
pub open spec fn prev_item_done(new: State, old: State) -> bool {
    if in_detail(old) {
        match old.detail_tab {
            DetailTab::Tags => only_tags(new, old) && new.tags_table.moved_up(old.tags_table),
            DetailTab::Updates => only_updates(new, old) && new.updates_table.moved_up(old.updates_table),
            DetailTab::Backups => only_backups(new, old) && new.backups.moved_up(old.backups),
            _ => new == old,
        }
    } else {
        only_file_systems(new, old) && new.file_systems.moved_up(old.file_systems)
    }
}

/// Selects the previous row of the table on screen.
pub fn prev_item(app: &mut App)
    ensures
        prev_item_done(final(app).fsx_state, old(app).fsx_state),
        final(app).unchanged_except(*old(app), Service::Fsx),
        final(app).keeps_shell(*old(app)),
{
    if app.fsx_state.current_file_system.is_some() {
        match app.fsx_state.detail_tab {
            DetailTab::Tags => app.fsx_state.tags_table.prev_item(),
            DetailTab::Updates => app.fsx_state.updates_table.prev_item(),
            DetailTab::Backups => app.fsx_state.backups.prev_item(),
            _ => {},
        }
        return;
    }
    app.fsx_state.file_systems.prev_item();
}

/// In the filter bar: one page down among the filtered file systems when the
/// filter input has the focus, else through the pagination control.
pub fn page_down_filter_input(app: &mut App)
    requires
        old(app).fsx_state.file_systems.selected + 100 <= usize::MAX,
    ensures
        only_file_systems(final(app).fsx_state, old(app).fsx_state),
        old(app).fsx_state.input_focus.same(InputFocus::Filter) ==> final(app).fsx_state.file_systems.paged_down(
            old(app).fsx_state.file_systems,
            filtered_file_system_rows(old(app).fsx_state).len() as int,
        ),
        !old(app).fsx_state.input_focus.same(InputFocus::Filter) && old(app).fsx_state.input_focus.same(
            InputFocus::Pagination,
        ) ==> {
            let ps = old(app).fsx_state.file_systems.page_size.rows();
            let n = filtered_file_system_rows(old(app).fsx_state).len() as usize;
            &&& final(app).fsx_state.file_systems.selected == min_usize(
                (old(app).fsx_state.file_systems.selected + ps) as usize,
                sat_sub(n, ps),
            )
            &&& final(app).fsx_state.file_systems.scroll_offset == final(app).fsx_state.file_systems.selected
            &&& final(app).fsx_state.file_systems.same_content(old(app).fsx_state.file_systems)
            &&& final(app).fsx_state.file_systems.expanded_item == old(app).fsx_state.file_systems.expanded_item
        },
        !old(app).fsx_state.input_focus.same(InputFocus::Filter) && !old(app).fsx_state.input_focus.same(
            InputFocus::Pagination,
        ) ==> final(app).fsx_state == old(app).fsx_state,
        final(app).unchanged_except(*old(app), Service::Fsx),
        final(app).keeps_shell(*old(app)),
{
    if app.fsx_state.input_focus.is(&InputFocus::Filter) {
        let n = filtered_fsx_file_systems(&app.fsx_state).len();
        app.fsx_state.file_systems.page_down(n);
    } else {
        let page_size = app.fsx_state.file_systems.page_size.value();
        let filtered_count = filtered_fsx_file_systems(&app.fsx_state).len();
        let focus = app.fsx_state.input_focus;
        focus.handle_page_down(
            &mut app.fsx_state.file_systems.selected,
            &mut app.fsx_state.file_systems.scroll_offset,
            page_size,
            filtered_count,
        );
    }
}

/// One page down among the filtered file systems.
pub fn page_down_normal(app: &mut App)
    ensures
        only_file_systems(final(app).fsx_state, old(app).fsx_state),
        final(app).fsx_state.file_systems.paged_down(
            old(app).fsx_state.file_systems,
            filtered_file_system_rows(old(app).fsx_state).len() as int,
        ),
        final(app).unchanged_except(*old(app), Service::Fsx),
        final(app).keeps_shell(*old(app)),
{
    let n = filtered_fsx_file_systems(&app.fsx_state).len();
    app.fsx_state.file_systems.page_down(n);
}

/// In the filter bar: one page up among the file systems when the filter input
/// has the focus, else through the pagination control.
pub fn page_up_filter_input(app: &mut App)
    ensures
        only_file_systems(final(app).fsx_state, old(app).fsx_state),
        old(app).fsx_state.input_focus.same(InputFocus::Filter) ==> final(app).fsx_state.file_systems.paged_up(
            old(app).fsx_state.file_systems,
        ),
        !old(app).fsx_state.input_focus.same(InputFocus::Filter) && old(app).fsx_state.input_focus.same(
            InputFocus::Pagination,
        ) ==> {
            &&& final(app).fsx_state.file_systems.selected == sat_sub(
                old(app).fsx_state.file_systems.selected,
                old(app).fsx_state.file_systems.page_size.rows(),
            )
            &&& final(app).fsx_state.file_systems.scroll_offset == final(app).fsx_state.file_systems.selected
            &&& final(app).fsx_state.file_systems.same_content(old(app).fsx_state.file_systems)
            &&& final(app).fsx_state.file_systems.expanded_item == old(app).fsx_state.file_systems.expanded_item
        },
        !old(app).fsx_state.input_focus.same(InputFocus::Filter) && !old(app).fsx_state.input_focus.same(
            InputFocus::Pagination,
        ) ==> final(app).fsx_state == old(app).fsx_state,
        final(app).unchanged_except(*old(app), Service::Fsx),
        final(app).keeps_shell(*old(app)),
{
    if app.fsx_state.input_focus.is(&InputFocus::Filter) {
        app.fsx_state.file_systems.page_up();
    } else {
        let page_size = app.fsx_state.file_systems.page_size.value();
        let focus = app.fsx_state.input_focus;
        focus.handle_page_up(
            &mut app.fsx_state.file_systems.selected,
            &mut app.fsx_state.file_systems.scroll_offset,
            page_size,
        );
    }
}

/// One page up among the file systems.
pub fn page_up_normal(app: &mut App)
    ensures
        only_file_systems(final(app).fsx_state, old(app).fsx_state),
        final(app).fsx_state.file_systems.paged_up(old(app).fsx_state.file_systems),
        final(app).unchanged_except(*old(app), Service::Fsx),
        final(app).keeps_shell(*old(app)),
{
    app.fsx_state.file_systems.page_up();
}

/// What opening or closing the selected row does, per table on screen.
pub open spec fn expand_done(new: State, old: State) -> bool {
    if in_detail(old) {
        match old.detail_tab {
            DetailTab::Tags => only_tags(new, old) && new.tags_table.expand_toggled(old.tags_table),
            DetailTab::Updates => only_updates(new, old) && new.updates_table.expand_toggled(
                old.updates_table,
            ),
            DetailTab::Backups => only_backups(new, old) && new.backups.expand_toggled(old.backups),
            _ => new == old,
        }
    } else {
        only_file_systems(new, old) && new.file_systems.expand_toggled(old.file_systems)
    }
}

/// Opens (or closes) the selected row of the table on screen.
pub fn expand_row(app: &mut App)
    ensures
        expand_done(final(app).fsx_state, old(app).fsx_state),
        final(app).unchanged_except(*old(app), Service::Fsx),
        final(app).keeps_shell(*old(app)),
{
    if app.fsx_state.current_file_system.is_some() {
        match app.fsx_state.detail_tab {
            DetailTab::Tags => app.fsx_state.tags_table.toggle_expand(),
            DetailTab::Updates => app.fsx_state.updates_table.toggle_expand(),
            DetailTab::Backups => app.fsx_state.backups.toggle_expand(),
            _ => {},
        }
    } else {
        app.fsx_state.file_systems.toggle_expand();
    }
}

/// What closing the open row does, per table on screen.
pub open spec fn collapse_done(new: State, old: State) -> bool {
    if in_detail(old) {
        match old.detail_tab {
            DetailTab::Tags => only_tags(new, old) && new.tags_table.collapsed(old.tags_table),
            DetailTab::Updates => only_updates(new, old) && new.updates_table.collapsed(old.updates_table),
            DetailTab::Backups => only_backups(new, old) && new.backups.collapsed(old.backups),
            _ => new == old,
        }
    } else {
        only_file_systems(new, old) && new.file_systems.collapsed(old.file_systems)
    }
}

/// Same as `collapse_row`.
pub fn prev_pane(app: &mut App)
    ensures
        collapse_done(final(app).fsx_state, old(app).fsx_state),
        final(app).unchanged_except(*old(app), Service::Fsx),
        final(app).keeps_shell(*old(app)),
{
    collapse_row(app);
}

/// Closes the open row of the table on screen.
pub fn collapse_row(app: &mut App)
    ensures
        collapse_done(final(app).fsx_state, old(app).fsx_state),
        final(app).unchanged_except(*old(app), Service::Fsx),
        final(app).keeps_shell(*old(app)),
{
    if app.fsx_state.current_file_system.is_some() {
        match app.fsx_state.detail_tab {
            DetailTab::Tags => app.fsx_state.tags_table.collapse(),
            DetailTab::Updates => app.fsx_state.updates_table.collapse(),
            DetailTab::Backups => app.fsx_state.backups.collapse(),
            _ => {},
        }
    } else {
        app.fsx_state.file_systems.collapse();
    }
}

/// Jumps to page `page` (0-based) of the filtered file systems.
pub fn go_to_page(app: &mut App, page: usize)
    ensures
        only_file_systems(final(app).fsx_state, old(app).fsx_state),
        final(app).fsx_state.file_systems.jumped(
            old(app).fsx_state.file_systems,
            page as int,
            filtered_file_system_rows(old(app).fsx_state).len() as int,
        ),
        final(app).unchanged_except(*old(app), Service::Fsx),
        final(app).keeps_shell(*old(app)),
{
    let n = filtered_fsx_file_systems(&app.fsx_state).len();
    app.fsx_state.file_systems.goto_page(page, n);
}

// ── Filter ───────────────────────────────────────────────────────────────────

/// Back to the first file system with no row open.
pub fn apply_filter_reset(app: &mut App)
    ensures
        only_file_systems(final(app).fsx_state, old(app).fsx_state),
        final(app).fsx_state.file_systems.was_reset(old(app).fsx_state.file_systems),
        final(app).unchanged_except(*old(app), Service::Fsx),
        final(app).keeps_shell(*old(app)),
{
    app.fsx_state.file_systems.reset();
}

/// Gives the filter input the focus.
pub fn start_filter(app: &mut App)
    ensures
        final(app).fsx_state == with_focus(old(app).fsx_state, InputFocus::Filter),
        final(app).unchanged_except(*old(app), Service::Fsx),
        final(app).keeps_shell(*old(app)),
{
    app.fsx_state.input_focus = InputFocus::Filter;
}

/// Moves the focus to the next control of the filter bar.
pub fn next_filter_focus(app: &mut App)
    ensures
        final(app).fsx_state == with_focus(
            old(app).fsx_state,
            cycle_next(filter_controls(), old(app).fsx_state.input_focus),
        ),
        final(app).unchanged_except(*old(app), Service::Fsx),
        final(app).keeps_shell(*old(app)),
{
    let controls = filter_control_list();
    app.fsx_state.input_focus = app.fsx_state.input_focus.next(controls.as_slice());
}

/// Moves the focus to the previous control of the filter bar.
pub fn prev_filter_focus(app: &mut App)
    ensures
        final(app).fsx_state == with_focus(
            old(app).fsx_state,
            cycle_prev(filter_controls(), old(app).fsx_state.input_focus),
        ),
        final(app).unchanged_except(*old(app), Service::Fsx),
        final(app).keeps_shell(*old(app)),
{
    let controls = filter_control_list();
    app.fsx_state.input_focus = app.fsx_state.input_focus.prev(controls.as_slice());
}

/// Whether the pagination control has the focus.
pub fn is_pagination_focused(app: &App) -> (r: bool)
    ensures
        r == app.fsx_state.input_focus.same(InputFocus::Pagination),
{
    app.fsx_state.input_focus.is(&InputFocus::Pagination)
}

// ── Yank / console URL / breadcrumb ──────────────────────────────────────────

/// The text that yanking copies: the ARN of the open file system (its id when
/// the ARN is empty); in the list the id of the selected file system. Nothing
/// when there is no such row.
pub fn yank(app: &App) -> (r: Option<String>)
    ensures
        ({
            let s = app.fsx_state;
            match s.current_file_system {
                Some(id) => match current_index(s) {
                    Some(i) => r is Some && r->0@ == (if s.file_systems.items@[i].file_system_arn@.len() == 0 {
                        s.file_systems.items@[i].file_system_id@
                    } else {
                        s.file_systems.items@[i].file_system_arn@
                    }),
                    None => r is None,
                },
                None => {
                    let f = filtered_file_system_rows(s);
                    match r {
                        Some(t) => s.file_systems.selected < f.len() && t@ == s.file_systems.items@[f[s.file_systems.selected as int] as int].file_system_id@,
                        None => s.file_systems.selected >= f.len(),
                    }
                },
            }
        }),
{
    if app.fsx_state.current_file_system.is_some() {
        match current_fs(&app.fsx_state) {
            Some(i) => {
                let fs = &app.fsx_state.file_systems.items[i];
                if fs.file_system_arn.as_str().unicode_len() == 0 {
                    Some(fs.file_system_id.clone())
                } else {
                    Some(fs.file_system_arn.clone())
                }
            },
            None => None,
        }
    } else {
        let filtered = filtered_fsx_file_systems(&app.fsx_state);
        match app.fsx_state.file_systems.get_selected(&filtered) {
            Some(idx) => {
                proof {
                    crate::table::lemma_kept_indices_bounded(
                        app.fsx_state.file_systems.items@.len(),
                        |k: int| crate::fsx::file_system_kept(app.fsx_state.file_systems.items@[k], app.fsx_state.file_systems.filter@),
                    );
                }
                Some(app.fsx_state.file_systems.items[idx].file_system_id.clone())
            },
            None => None,
        }
    }
}

/// The breadcrumb of the view: `FSx`, then the open file system or `File Systems`.
pub open spec fn breadcrumb_of(s: State) -> Seq<Seq<char>> {
    seq![
        "FSx"@,
        match s.current_file_system {
            Some(id) => id@,
            None => "File Systems"@,
        },
    ]
}

/// The breadcrumb of the view.
pub fn breadcrumb(app: &App) -> (r: Vec<String>)
    ensures
        string_names(r@) == breadcrumb_of(app.fsx_state),
{
    let second = match &app.fsx_state.current_file_system {
        Some(id) => id.clone(),
        None => String::from_str("File Systems"),
    };
    let r = vec![String::from_str("FSx"), second];
    assert(string_names(r@) =~= breadcrumb_of(app.fsx_state));
    r
}

/// The address of the view in the AWS console: the open file system, else the
/// selected one, else the list.
pub fn console_url(app: &App) -> (r: String)
    ensures
        ({
            let s = app.fsx_state;
            let region = app.config.region@;
            let f = filtered_file_system_rows(s);
            r@ == match s.current_file_system {
                Some(id) => file_system_address(region, id@),
                None => if s.file_systems.selected < f.len() {
                    file_system_address(
                        region,
                        s.file_systems.items@[f[s.file_systems.selected as int] as int].file_system_id@,
                    )
                } else {
                    file_systems_address(region)
                },
            }
        }),
{
    let region = app.config.region.as_str();
    match &app.fsx_state.current_file_system {
        Some(id) => console_url_file_system(region, id.as_str()),
        None => {
            let filtered = filtered_fsx_file_systems(&app.fsx_state);
            match app.fsx_state.file_systems.get_selected(&filtered) {
                Some(idx) => {
                    proof {
                        crate::table::lemma_kept_indices_bounded(
                            app.fsx_state.file_systems.items@.len(),
                            |k: int| crate::fsx::file_system_kept(app.fsx_state.file_systems.items@[k], app.fsx_state.file_systems.filter@),
                        );
                    }
                    console_url_file_system(region, app.fsx_state.file_systems.items[idx].file_system_id.as_str())
                },
                None => console_url_file_systems(region),
            }
        },
    }
}

// ── Select / go back / detail tabs ───────────────────────────────────────────

/// `s` with its three detail tables back at their first row.
pub open spec fn detail_tables_reset(new: State, old: State) -> bool {
    &&& new.tags_table.was_reset(old.tags_table)
    &&& new.updates_table.was_reset(old.updates_table)
    &&& new.backups.was_reset(old.backups)
}

fn reset_detail_tables(app: &mut App)
    ensures
        detail_tables_reset(final(app).fsx_state, old(app).fsx_state),
        final(app).fsx_state == (State {
            tags_table: final(app).fsx_state.tags_table,
            updates_table: final(app).fsx_state.updates_table,
            backups: final(app).fsx_state.backups,
            ..old(app).fsx_state
        }),
        final(app).unchanged_except(*old(app), Service::Fsx),
        final(app).keeps_shell(*old(app)),
{
    app.fsx_state.tags_table.reset();
    app.fsx_state.updates_table.reset();
    app.fsx_state.backups.reset();
}

/// Opens the selected file system (among the filtered ones) on the network and
/// security tab, with its detail tables at their first row.
pub fn select_item(app: &mut App)
    ensures
        ({
            let s = old(app).fsx_state;
            let t = final(app).fsx_state;
            let f = filtered_file_system_rows(s);
            if s.current_file_system is None && s.file_systems.selected < f.len() {
                &&& t.current_file_system == Some(s.file_systems.items@[f[s.file_systems.selected as int] as int].file_system_id)
                &&& t.detail_tab == DetailTab::NetworkSecurity
                &&& detail_tables_reset(t, s)
                &&& t.file_systems == s.file_systems
                &&& t.input_focus == s.input_focus
                &&& t.backups_loading == s.backups_loading
            } else {
                t == s
            }
        }),
        final(app).unchanged_except(*old(app), Service::Fsx),
        final(app).keeps_shell(*old(app)),
{
    if app.fsx_state.current_file_system.is_none() {
        let filtered = filtered_fsx_file_systems(&app.fsx_state);
        match app.fsx_state.file_systems.get_selected(&filtered) {
            Some(idx) => {
                proof {
                    crate::table::lemma_kept_indices_bounded(
                        app.fsx_state.file_systems.items@.len(),
                        |k: int| crate::fsx::file_system_kept(app.fsx_state.file_systems.items@[k], app.fsx_state.file_systems.filter@),
                    );
                }
                let id = app.fsx_state.file_systems.items[idx].file_system_id.clone();
                app.fsx_state.current_file_system = Some(id);
                app.fsx_state.detail_tab = DetailTab::NetworkSecurity;
                reset_detail_tables(app);
            },
            None => {},
        }
    }
}

/// Leaves the file system, back on the network and security tab.
pub fn go_back(app: &mut App)
    ensures
        final(app).fsx_state.current_file_system is None,
        final(app).fsx_state.detail_tab == DetailTab::NetworkSecurity,
        final(app).fsx_state == (State {
            current_file_system: None,
            detail_tab: DetailTab::NetworkSecurity,
            ..old(app).fsx_state
        }),
        final(app).unchanged_except(*old(app), Service::Fsx),
        final(app).keeps_shell(*old(app)),
{
    app.fsx_state.current_file_system = None;
    app.fsx_state.detail_tab = DetailTab::NetworkSecurity;
}

/// What switching to tab `new.detail_tab` does: the detail tables go back to
/// their first row, and the Backups tab drops its rows and asks for them again.
pub open spec fn tab_switched(new: State, old: State) -> bool {
    &&& new.tags_table.was_reset(old.tags_table)
    &&& new.updates_table.was_reset(old.updates_table)
    &&& new.backups.selected == 0
    &&& new.backups.scroll_offset == 0
    &&& new.backups.expanded_item is None
    &&& new.backups.loading == old.backups.loading
    &&& new.backups.filter@ == old.backups.filter@
    &&& new.backups.page_size == old.backups.page_size
    &&& new.file_systems == old.file_systems
    &&& new.current_file_system == old.current_file_system
    &&& new.input_focus == old.input_focus
    &&& new.detail_tab == DetailTab::Backups ==> new.backups.items@.len() == 0 && new.backups_loading
    &&& new.detail_tab != DetailTab::Backups ==> new.backups.items@ == old.backups.items@
        && new.backups_loading == old.backups_loading
}

fn maybe_load_backups(app: &mut App)
    ensures
        old(app).fsx_state.detail_tab == DetailTab::Backups ==> final(app).fsx_state.backups.items@.len()
            == 0 && final(app).fsx_state.backups_loading,
        old(app).fsx_state.detail_tab != DetailTab::Backups ==> final(app).fsx_state == old(app).fsx_state,
        final(app).fsx_state.backups.selected == old(app).fsx_state.backups.selected,
        final(app).fsx_state.backups.scroll_offset == old(app).fsx_state.backups.scroll_offset,
        final(app).fsx_state.backups.expanded_item == old(app).fsx_state.backups.expanded_item,
        final(app).fsx_state.backups.loading == old(app).fsx_state.backups.loading,
        final(app).fsx_state.backups.filter == old(app).fsx_state.backups.filter,
        final(app).fsx_state.backups.page_size == old(app).fsx_state.backups.page_size,
        final(app).fsx_state == (State {
            backups: final(app).fsx_state.backups,
            backups_loading: final(app).fsx_state.backups_loading,
            ..old(app).fsx_state
        }),
        final(app).unchanged_except(*old(app), Service::Fsx),
        final(app).keeps_shell(*old(app)),
{
    if app.fsx_state.detail_tab == DetailTab::Backups {
        app.fsx_state.backups.items.clear();
        app.fsx_state.backups_loading = true;
    }
}

/// Opens the next detail tab (see `tab_switched`).
pub fn next_detail_tab(app: &mut App)
    ensures
        final(app).fsx_state.detail_tab == old(app).fsx_state.detail_tab.following(),
        tab_switched(final(app).fsx_state, old(app).fsx_state),
        final(app).unchanged_except(*old(app), Service::Fsx),
        final(app).keeps_shell(*old(app)),
{
    app.fsx_state.detail_tab = app.fsx_state.detail_tab.next();
    reset_detail_tables(app);
    maybe_load_backups(app);
}

/// Opens the previous detail tab (see `tab_switched`).
pub fn prev_detail_tab(app: &mut App)
    ensures
        final(app).fsx_state.detail_tab == old(app).fsx_state.detail_tab.preceding(),
        tab_switched(final(app).fsx_state, old(app).fsx_state),
        final(app).unchanged_except(*old(app), Service::Fsx),
        final(app).keeps_shell(*old(app)),
{
    app.fsx_state.detail_tab = app.fsx_state.detail_tab.prev();
    reset_detail_tables(app);
    maybe_load_backups(app);
}

// ── Column preferences ───────────────────────────────────────────────────────

/// The number of columns offered by the preferences panel for the table on
/// screen: the fixed Tags (2), Updates (5) and Backups (15) tables, else the
/// file-system columns.
pub open spec fn prefs_col_count(s: State, fs_columns: int) -> int {
    if in_detail(s) {
        match s.detail_tab {
            DetailTab::Tags => 2,
            DetailTab::Updates => 5,
            DetailTab::Backups => 15,
            _ => fs_columns,
        }
    } else {
        fs_columns
    }
}

fn active_prefs_col_count(app: &App) -> (r: usize)
    ensures
        r == prefs_col_count(app.fsx_state, app.fsx_column_ids@.len() as int),
{
    if app.fsx_state.current_file_system.is_some() {
        match app.fsx_state.detail_tab {
            DetailTab::Tags => 2,
            DetailTab::Updates => 5,
            DetailTab::Backups => 15,
            _ => app.fsx_column_ids.len(),
        }
    } else {
        app.fsx_column_ids.len()
    }
}

/// What applying the preferences row does (see `toggle_column`).
pub open spec fn toggle_column_done(new_app: App, old_app: App) -> bool {
    let s = old_app.fsx_state;
    let t = new_app.fsx_state;
    let idx = old_app.column_selector_index as int;
    if in_detail(s) {
        &&& new_app.fsx_visible_column_ids@ == old_app.fsx_visible_column_ids@
        &&& match s.detail_tab {
            DetailTab::Tags => only_tags(t, s) && page_size_picked(t.tags_table, s.tags_table, idx, 2),
            DetailTab::Updates => only_updates(t, s) && page_size_picked(
                t.updates_table,
                s.updates_table,
                idx,
                5,
            ),
            DetailTab::Backups => only_backups(t, s) && page_size_picked(t.backups, s.backups, idx, 15),
            _ => t == s,
        }
    } else {
        let n = old_app.fsx_column_ids@.len() as int;
        &&& id_names(new_app.fsx_visible_column_ids@) == toggled_at(
            id_names(old_app.fsx_visible_column_ids@),
            id_names(old_app.fsx_column_ids@),
            idx,
            true,
        )
        &&& only_file_systems(t, s)
        &&& (if 0 < idx <= n {
            t.file_systems == s.file_systems
        } else {
            page_size_picked(t.file_systems, s.file_systems, idx, n)
        })
    }
}

/// Applies the preferences row under the cursor: only the page size on the
/// fixed-column Tags, Updates and Backups tabs; nothing on the other tabs; in
/// the list a file-system column or the page size (which returns to the first
/// row). The last visible column is never hidden.
pub fn toggle_column(app: &mut App)
    ensures
        toggle_column_done(*final(app), *old(app)),
        final(app).fsx_column_ids@ == old(app).fsx_column_ids@,
        final(app).unchanged_except(*old(app), Service::Fsx),
        final(app).keeps_shell(*old(app)),
{
    let idx = app.column_selector_index;
    if app.fsx_state.current_file_system.is_some() {
        match app.fsx_state.detail_tab {
            DetailTab::Tags => {
                set_page_size_by_idx(&mut app.fsx_state.tags_table, idx, 2);
            },
            DetailTab::Updates => {
                set_page_size_by_idx(&mut app.fsx_state.updates_table, idx, 5);
            },
            DetailTab::Backups => {
                set_page_size_by_idx(&mut app.fsx_state.backups, idx, 15);
            },
            _ => {},
        }
        return;
    }
    let n = app.fsx_column_ids.len();
    if idx > 0 && idx <= n {
        toggle_visible(&mut app.fsx_visible_column_ids, &app.fsx_column_ids, idx, true);
    } else {
        set_page_size_by_idx(&mut app.fsx_state.file_systems, idx, n);
    }
}

/// Moves the preferences cursor between the columns section and the page-size
/// section (row `columns + 2`) of the table on screen.
pub fn next_preferences(app: &mut App)
    requires
        prefs_col_count(old(app).fsx_state, old(app).fsx_column_ids@.len() as int) + 2 <= usize::MAX,
    ensures
        ({
            let p = prefs_col_count(old(app).fsx_state, old(app).fsx_column_ids@.len() as int) + 2;
            final(app).column_selector_index == (if old(app).column_selector_index < p { p } else { 0 })
        }),
        final(app).fsx_state == old(app).fsx_state,
        final(app).unchanged_except(*old(app), Service::Other),
        final(app).view_mode == old(app).view_mode,
        final(app).current_service == old(app).current_service,
        final(app).tab_breadcrumb@ == old(app).tab_breadcrumb@,
{
    let page_size_idx = active_prefs_col_count(app) + 2;
    if app.column_selector_index < page_size_idx {
        app.column_selector_index = page_size_idx;
    } else {
        app.column_selector_index = 0;
    }
}

/// Moves the preferences cursor the other way.
pub fn prev_preferences(app: &mut App)
    requires
        prefs_col_count(old(app).fsx_state, old(app).fsx_column_ids@.len() as int) + 2 <= usize::MAX,
    ensures
        ({
            let p = prefs_col_count(old(app).fsx_state, old(app).fsx_column_ids@.len() as int) + 2;
            final(app).column_selector_index == (if old(app).column_selector_index >= p { 0 } else { p })
        }),
        final(app).fsx_state == old(app).fsx_state,
        final(app).unchanged_except(*old(app), Service::Other),
        final(app).view_mode == old(app).view_mode,
        final(app).current_service == old(app).current_service,
        final(app).tab_breadcrumb@ == old(app).tab_breadcrumb@,
{
    let page_size_idx = active_prefs_col_count(app) + 2;
    if app.column_selector_index >= page_size_idx {
        app.column_selector_index = 0;
    } else {
        app.column_selector_index = page_size_idx;
    }
}

/// The last row of the preferences panel.
pub fn column_selector_max(app: &App) -> (r: usize)
    requires
        prefs_col_count(app.fsx_state, app.fsx_column_ids@.len() as int) + 6 <= usize::MAX,
    ensures
        r == prefs_col_count(app.fsx_state, app.fsx_column_ids@.len() as int) + 6,
{
    active_prefs_col_count(app) + 6
}

/// The number of columns of the table on screen.
pub fn column_count(app: &App) -> (r: usize)
    ensures
        r == prefs_col_count(app.fsx_state, app.fsx_column_ids@.len() as int),
{
    active_prefs_col_count(app)
}

/// The filter that typed characters edit: the file system list's filter.
pub fn get_active_filter_mut(app: &mut App) -> (r: Option<&mut String>)
    ensures
        r is Some,
        *r.unwrap() == old(app).fsx_state.file_systems.filter,
        *final(app) == (App {
            fsx_state: State {
                file_systems: crate::table::TableState { filter: *final(r.unwrap()), ..old(app).fsx_state.file_systems },
                ..old(app).fsx_state
            },
            ..*old(app)
        }),
{
    Some(&mut app.fsx_state.file_systems.filter)
}

} // verus!

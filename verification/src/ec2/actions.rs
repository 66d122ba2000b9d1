//! Key-handling actions of the EC2 view.
use vstd::prelude::*;
use vstd::string::*;
use crate::app::{App, Service, ViewMode};
use crate::columns::{id_names, string_names, toggle_visible, toggle_visible_strings, toggled_at};
use crate::common::{cycle_next, cycle_prev, page_size_at, page_size_choice, InputFocus};
use crate::ec2::{
    console_address, filter_control_list, filter_controls, filtered_ec2_instances,
    filtered_instances, filtered_tag_rows, filtered_tags, DetailTab,
    State, state_filter, state_filter_focus,
};
use crate::table::min_int;
use crate::text::{pop_char, push_char};

verus! {

// ── Filter ───────────────────────────────────────────────────────────────────

/// Back to the first instance, with no row expanded.
pub fn apply_filter_reset(app: &mut App)
    ensures
        final(app).ec2_state.table.selected == 0,
        final(app).ec2_state.table.scroll_offset == 0,
        final(app).ec2_state.table.expanded_item is None,
        final(app).ec2_state.table.same_content(old(app).ec2_state.table),
        final(app).ec2_state.tags == old(app).ec2_state.tags,
        final(app).ec2_state.current_instance == old(app).ec2_state.current_instance,
        final(app).ec2_state.input_focus == old(app).ec2_state.input_focus,
        final(app).unchanged_except(*old(app), Service::Ec2),
        final(app).keeps_shell(*old(app)),
{
    app.ec2_state.table.reset();
}

/// Whether the pagination control has the focus.
pub fn is_pagination_focused(app: &App) -> (r: bool)
    ensures
        r == app.ec2_state.input_focus.same(InputFocus::Pagination),
{
    app.ec2_state.input_focus.is(&InputFocus::Pagination)
}

/// Moves the focus to the next control of the filter bar.
pub fn next_filter_focus(app: &mut App)
    ensures
        final(app).ec2_state.input_focus == cycle_next(filter_controls(), old(app).ec2_state.input_focus),
        final(app).ec2_state.table == old(app).ec2_state.table,
        final(app).ec2_state.tags == old(app).ec2_state.tags,
        final(app).ec2_state.current_instance == old(app).ec2_state.current_instance,
        final(app).unchanged_except(*old(app), Service::Ec2),
        final(app).keeps_shell(*old(app)),
{
    let controls = filter_control_list();
    app.ec2_state.input_focus = app.ec2_state.input_focus.next(controls.as_slice());
}

/// Moves the focus to the previous control of the filter bar.
pub fn prev_filter_focus(app: &mut App)
    ensures
        final(app).ec2_state.input_focus == cycle_prev(filter_controls(), old(app).ec2_state.input_focus),
        final(app).ec2_state.table == old(app).ec2_state.table,
        final(app).ec2_state.tags == old(app).ec2_state.tags,
        final(app).ec2_state.current_instance == old(app).ec2_state.current_instance,
        final(app).unchanged_except(*old(app), Service::Ec2),
        final(app).keeps_shell(*old(app)),
{
    let controls = filter_control_list();
    app.ec2_state.input_focus = app.ec2_state.input_focus.prev(controls.as_slice());
}

/// Types `c` into the tag filter when the filter input has the focus, and goes
/// back to the first tag.
pub fn filter_char_push(app: &mut App, c: char)
    ensures
        old(app).ec2_state.input_focus.same(InputFocus::Filter) ==> {
            &&& final(app).ec2_state.tags.filter@ == old(app).ec2_state.tags.filter@.push(c)
            &&& final(app).ec2_state.tags.selected == 0
        },
        !old(app).ec2_state.input_focus.same(InputFocus::Filter) ==> final(app).ec2_state
            == old(app).ec2_state,
        final(app).ec2_state.tags.items@ == old(app).ec2_state.tags.items@,
        final(app).ec2_state.table == old(app).ec2_state.table,
        final(app).unchanged_except(*old(app), Service::Ec2),
        final(app).keeps_shell(*old(app)),
{
    if app.ec2_state.input_focus.is(&InputFocus::Filter) {
        push_char(&mut app.ec2_state.tags.filter, c);
        app.ec2_state.tags.selected = 0;
    }
}

/// Deletes the last character of the tag filter when the filter input has the
/// focus, and goes back to the first tag.
pub fn filter_char_pop(app: &mut App)
    ensures
        old(app).ec2_state.input_focus.same(InputFocus::Filter) ==> {
            &&& final(app).ec2_state.tags.filter@ == (if old(app).ec2_state.tags.filter@.len() > 0 {
                old(app).ec2_state.tags.filter@.drop_last()
            } else {
                old(app).ec2_state.tags.filter@
            })
            &&& final(app).ec2_state.tags.selected == 0
        },
        !old(app).ec2_state.input_focus.same(InputFocus::Filter) ==> final(app).ec2_state
            == old(app).ec2_state,
        final(app).ec2_state.tags.items@ == old(app).ec2_state.tags.items@,
        final(app).ec2_state.table == old(app).ec2_state.table,
        final(app).unchanged_except(*old(app), Service::Ec2),
        final(app).keeps_shell(*old(app)),
{
    if app.ec2_state.input_focus.is(&InputFocus::Filter) {
        pop_char(&mut app.ec2_state.tags.filter);
        app.ec2_state.tags.selected = 0;
    }
}

/// Selects the next instance state when the state drop-down has the focus.
pub fn toggle_state_filter_next(app: &mut App)
    ensures
        old(app).ec2_state.input_focus.same(state_filter()) ==> {
            &&& final(app).ec2_state.state_filter == old(app).ec2_state.state_filter.following()
            &&& final(app).ec2_state.table.selected == 0
            &&& final(app).ec2_state.table.scroll_offset == 0
            &&& final(app).ec2_state.table.expanded_item is None
        },
        !old(app).ec2_state.input_focus.same(state_filter()) ==> final(app).ec2_state == old(
            app,
        ).ec2_state,
        final(app).ec2_state.table.same_content(old(app).ec2_state.table),
        final(app).unchanged_except(*old(app), Service::Ec2),
        final(app).keeps_shell(*old(app)),
{
    if app.ec2_state.input_focus.is(&state_filter_focus()) {
        app.ec2_state.state_filter = app.ec2_state.state_filter.next();
        app.ec2_state.table.reset();
    }
}

/// Selects the previous instance state when the state drop-down has the focus.
pub fn toggle_state_filter_prev(app: &mut App)
    ensures
        old(app).ec2_state.input_focus.same(state_filter()) ==> {
            &&& final(app).ec2_state.state_filter == old(app).ec2_state.state_filter.preceding()
            &&& final(app).ec2_state.table.selected == 0
            &&& final(app).ec2_state.table.scroll_offset == 0
            &&& final(app).ec2_state.table.expanded_item is None
        },
        !old(app).ec2_state.input_focus.same(state_filter()) ==> final(app).ec2_state == old(
            app,
        ).ec2_state,
        final(app).ec2_state.table.same_content(old(app).ec2_state.table),
        final(app).unchanged_except(*old(app), Service::Ec2),
        final(app).keeps_shell(*old(app)),
{
    if app.ec2_state.input_focus.is(&state_filter_focus()) {
        app.ec2_state.state_filter = app.ec2_state.state_filter.prev();
        app.ec2_state.table.reset();
    }
}

/// Same as `toggle_state_filter_next`.
pub fn toggle_filter_checkbox(app: &mut App)
    ensures
        old(app).ec2_state.input_focus.same(state_filter()) ==> {
            &&& final(app).ec2_state.state_filter == old(app).ec2_state.state_filter.following()
            &&& final(app).ec2_state.table.selected == 0
            &&& final(app).ec2_state.table.scroll_offset == 0
            &&& final(app).ec2_state.table.expanded_item is None
        },
        !old(app).ec2_state.input_focus.same(state_filter()) ==> final(app).ec2_state == old(
            app,
        ).ec2_state,
        final(app).ec2_state.table.same_content(old(app).ec2_state.table),
        final(app).unchanged_except(*old(app), Service::Ec2),
        final(app).keeps_shell(*old(app)),
{
    toggle_state_filter_next(app);
}

// ── Navigation ───────────────────────────────────────────────────────────────

/// Selects the next row: the next tag on the Tags tab, else the next instance
/// among those that pass the filters (nothing happens when none do).
pub fn next_item(app: &mut App)
    ensures
        old(app).ec2_state.on_tags() ==> {
            let n = filtered_tag_rows(old(app).ec2_state).len();
            &&& n > 0 ==> final(app).ec2_state.tags.selected == min_int(
                old(app).ec2_state.tags.selected + 1,
                n - 1,
            ) && final(app).ec2_state.tags.cursor_moved(old(app).ec2_state.tags)
            &&& n == 0 ==> final(app).ec2_state.tags == old(app).ec2_state.tags
            &&& final(app).ec2_state.table == old(app).ec2_state.table
        },
        !old(app).ec2_state.on_tags() ==> {
            let n = filtered_instances(old(app).ec2_state).len();
            &&& n > 0 ==> final(app).ec2_state.table.selected == min_int(
                old(app).ec2_state.table.selected + 1,
                n - 1,
            ) && final(app).ec2_state.table.cursor_moved(old(app).ec2_state.table)
            &&& n == 0 ==> final(app).ec2_state.table == old(app).ec2_state.table
            &&& final(app).ec2_state.tags == old(app).ec2_state.tags
        },
        final(app).ec2_state.current_instance == old(app).ec2_state.current_instance,
        final(app).ec2_state.detail_tab == old(app).ec2_state.detail_tab,
        final(app).unchanged_except(*old(app), Service::Ec2),
        final(app).keeps_shell(*old(app)),
{
    if app.ec2_state.showing_tags() {
        let filtered = filtered_tags(&app.ec2_state);
        if filtered.len() > 0 {
            app.ec2_state.tags.next_item(filtered.len());
        }
    } else {
        let filtered = filtered_ec2_instances(&app.ec2_state);
        if filtered.len() > 0 {
            app.ec2_state.table.next_item(filtered.len());
        }
    }
}

/// Selects the previous tag on the Tags tab, else the previous instance.
pub fn prev_item(app: &mut App)
    ensures
        old(app).ec2_state.on_tags() ==> {
            &&& final(app).ec2_state.tags.selected == (if old(app).ec2_state.tags.selected > 0 {
                old(app).ec2_state.tags.selected - 1
            } else {
                0
            })
            &&& final(app).ec2_state.tags.cursor_moved(old(app).ec2_state.tags)
            &&& final(app).ec2_state.table == old(app).ec2_state.table
        },
        !old(app).ec2_state.on_tags() ==> {
            &&& final(app).ec2_state.table.selected == (if old(app).ec2_state.table.selected > 0 {
                old(app).ec2_state.table.selected - 1
            } else {
                0
            })
            &&& final(app).ec2_state.table.cursor_moved(old(app).ec2_state.table)
            &&& final(app).ec2_state.tags == old(app).ec2_state.tags
        },
        final(app).ec2_state.current_instance == old(app).ec2_state.current_instance,
        final(app).ec2_state.detail_tab == old(app).ec2_state.detail_tab,
        final(app).unchanged_except(*old(app), Service::Ec2),
        final(app).keeps_shell(*old(app)),
{
    if app.ec2_state.showing_tags() {
        app.ec2_state.tags.prev_item();
    } else {
        app.ec2_state.table.prev_item();
    }
}

/// Moves one page down among the instances that pass the filters.
pub fn page_down_normal(app: &mut App)
    ensures
        ({
            let n = filtered_instances(old(app).ec2_state).len();
            &&& n > 0 ==> final(app).ec2_state.table.selected == min_int(
                old(app).ec2_state.table.selected + old(app).ec2_state.table.page_size.rows(),
                n - 1,
            ) && final(app).ec2_state.table.cursor_moved(old(app).ec2_state.table)
            &&& n == 0 ==> final(app).ec2_state.table == old(app).ec2_state.table
        }),
        final(app).ec2_state.tags == old(app).ec2_state.tags,
        final(app).ec2_state.current_instance == old(app).ec2_state.current_instance,
        final(app).unchanged_except(*old(app), Service::Ec2),
        final(app).keeps_shell(*old(app)),
{
    let filtered = filtered_ec2_instances(&app.ec2_state);
    if filtered.len() > 0 {
        app.ec2_state.table.page_down(filtered.len());
    }
}

/// Scrolls the charts up on a loaded Monitoring tab, else moves one page up
/// among the instances.
pub fn page_up_normal(app: &mut App)
    ensures
        old(app).ec2_state.on_loaded_monitoring() ==> {
            &&& final(app).ec2_state.monitoring_scroll == (if old(app).ec2_state.monitoring_scroll
                > 0 {
                old(app).ec2_state.monitoring_scroll - 1
            } else {
                0
            })
            &&& final(app).ec2_state.table == old(app).ec2_state.table
        },
        !old(app).ec2_state.on_loaded_monitoring() ==> {
            &&& final(app).ec2_state.table.selected == (if old(app).ec2_state.table.selected
                > old(app).ec2_state.table.page_size.rows() {
                old(app).ec2_state.table.selected - old(app).ec2_state.table.page_size.rows()
            } else {
                0
            })
            &&& final(app).ec2_state.table.cursor_moved(old(app).ec2_state.table)
            &&& final(app).ec2_state.monitoring_scroll == old(app).ec2_state.monitoring_scroll
        },
        final(app).ec2_state.tags == old(app).ec2_state.tags,
        final(app).ec2_state.current_instance == old(app).ec2_state.current_instance,
        final(app).unchanged_except(*old(app), Service::Ec2),
        final(app).keeps_shell(*old(app)),
{
    if app.ec2_state.showing_loaded_monitoring() {
        app.ec2_state.monitoring_scroll = if app.ec2_state.monitoring_scroll > 0 {
            app.ec2_state.monitoring_scroll - 1
        } else {
            0
        };
    } else {
        app.ec2_state.table.page_up();
    }
}

/// Scrolls the charts up on a loaded Monitoring tab.
pub fn scroll_up(app: &mut App)
    ensures
        old(app).ec2_state.on_loaded_monitoring() ==> final(app).ec2_state.monitoring_scroll == (
        if old(app).ec2_state.monitoring_scroll > 0 {
            old(app).ec2_state.monitoring_scroll - 1
        } else {
            0
        }),
        !old(app).ec2_state.on_loaded_monitoring() ==> final(app).ec2_state.monitoring_scroll
            == old(app).ec2_state.monitoring_scroll,
        final(app).ec2_state.table == old(app).ec2_state.table,
        final(app).ec2_state.tags == old(app).ec2_state.tags,
        final(app).ec2_state.current_instance == old(app).ec2_state.current_instance,
        final(app).ec2_state.detail_tab == old(app).ec2_state.detail_tab,
        final(app).unchanged_except(*old(app), Service::Ec2),
        final(app).keeps_shell(*old(app)),
{
    if app.ec2_state.showing_loaded_monitoring() {
        app.ec2_state.monitoring_scroll = if app.ec2_state.monitoring_scroll > 0 {
            app.ec2_state.monitoring_scroll - 1
        } else {
            0
        };
    }
}

/// Scrolls the charts down on a loaded Monitoring tab, up to the sixth chart.
pub fn scroll_down(app: &mut App)
    ensures
        old(app).ec2_state.on_loaded_monitoring() ==> final(app).ec2_state.monitoring_scroll
            == min_int(old(app).ec2_state.monitoring_scroll + 1, 5),
        !old(app).ec2_state.on_loaded_monitoring() ==> final(app).ec2_state.monitoring_scroll
            == old(app).ec2_state.monitoring_scroll,
        final(app).ec2_state.table == old(app).ec2_state.table,
        final(app).ec2_state.tags == old(app).ec2_state.tags,
        final(app).ec2_state.current_instance == old(app).ec2_state.current_instance,
        final(app).ec2_state.detail_tab == old(app).ec2_state.detail_tab,
        final(app).unchanged_except(*old(app), Service::Ec2),
        final(app).keeps_shell(*old(app)),
{
    if app.ec2_state.showing_loaded_monitoring() {
        app.ec2_state.monitoring_scroll = if app.ec2_state.monitoring_scroll < 5 {
            app.ec2_state.monitoring_scroll + 1
        } else {
            5
        };
    }
}

/// Toggles the selected tag open on the Tags tab; else opens the selected
/// instance row when no instance row is open.
pub fn expand_row(app: &mut App)
    ensures
        old(app).ec2_state.on_tags() ==> {
            &&& final(app).ec2_state.tags.expanded_item == (if old(app).ec2_state.tags.expanded_item
                == Some(old(app).ec2_state.tags.selected) {
                None
            } else {
                Some(old(app).ec2_state.tags.selected)
            })
            &&& final(app).ec2_state.table == old(app).ec2_state.table
        },
        !old(app).ec2_state.on_tags() ==> {
            &&& old(app).ec2_state.table.expanded_item is None ==> final(app).ec2_state.table.expanded_item
                == Some(old(app).ec2_state.table.selected)
            &&& old(app).ec2_state.table.expanded_item is Some ==> final(app).ec2_state.table
                == old(app).ec2_state.table
            &&& final(app).ec2_state.tags == old(app).ec2_state.tags
        },
        final(app).ec2_state.table.selected == old(app).ec2_state.table.selected,
        final(app).ec2_state.table.same_content(old(app).ec2_state.table),
        final(app).ec2_state.tags.selected == old(app).ec2_state.tags.selected,
        final(app).ec2_state.tags.same_content(old(app).ec2_state.tags),
        final(app).ec2_state.current_instance == old(app).ec2_state.current_instance,
        final(app).unchanged_except(*old(app), Service::Ec2),
        final(app).keeps_shell(*old(app)),
{
    if app.ec2_state.showing_tags() {
        app.ec2_state.tags.toggle_expand();
    } else if !app.ec2_state.table.is_expanded() {
        app.ec2_state.table.toggle_expand();
    }
}

/// Collapses the open instance row.
pub fn prev_pane(app: &mut App)
    ensures
        final(app).ec2_state.table.expanded_item is None,
        final(app).ec2_state.table.selected == old(app).ec2_state.table.selected,
        final(app).ec2_state.table.scroll_offset == old(app).ec2_state.table.scroll_offset,
        final(app).ec2_state.table.same_content(old(app).ec2_state.table),
        final(app).ec2_state.tags == old(app).ec2_state.tags,
        final(app).ec2_state.current_instance == old(app).ec2_state.current_instance,
        final(app).unchanged_except(*old(app), Service::Ec2),
        final(app).keeps_shell(*old(app)),
{
    app.ec2_state.table.collapse();
}

/// Collapses the open tag on the Tags tab, else the open instance row.
pub fn collapse_row(app: &mut App)
    ensures
        old(app).ec2_state.on_tags() ==> final(app).ec2_state.tags.expanded_item is None
            && final(app).ec2_state.table == old(app).ec2_state.table,
        !old(app).ec2_state.on_tags() ==> final(app).ec2_state.table.expanded_item is None
            && final(app).ec2_state.tags == old(app).ec2_state.tags,
        final(app).ec2_state.table.selected == old(app).ec2_state.table.selected,
        final(app).ec2_state.table.same_content(old(app).ec2_state.table),
        final(app).ec2_state.tags.selected == old(app).ec2_state.tags.selected,
        final(app).ec2_state.tags.same_content(old(app).ec2_state.tags),
        final(app).ec2_state.current_instance == old(app).ec2_state.current_instance,
        final(app).unchanged_except(*old(app), Service::Ec2),
        final(app).keeps_shell(*old(app)),
{
    if app.ec2_state.showing_tags() {
        app.ec2_state.tags.collapse();
    } else {
        app.ec2_state.table.collapse();
    }
}

// ── Actions ──────────────────────────────────────────────────────────────────

/// Opens the selected instance (among those that pass the filters) in the
/// detail view, when no instance is open and the cursor is on a row.
pub fn select_item(app: &mut App)
    ensures
        ({
            let f = filtered_instances(old(app).ec2_state);
            let sel = old(app).ec2_state.table.selected;
            if old(app).ec2_state.current_instance is None && sel < f.len() {
                &&& final(app).ec2_state.current_instance == Some(
                    old(app).ec2_state.table.items@[f[sel as int] as int].instance_id,
                )
                &&& final(app).view_mode == ViewMode::Detail
                &&& crate::columns::string_names(final(app).tab_breadcrumb@)
                    == breadcrumb_of(final(app).ec2_state) || final(app).current_service != Service::Ec2
            } else {
                &&& final(app).ec2_state == old(app).ec2_state
                &&& final(app).view_mode == old(app).view_mode
                &&& final(app).tab_breadcrumb@ == old(app).tab_breadcrumb@
            }
        }),
        final(app).ec2_state.table == old(app).ec2_state.table,
        final(app).ec2_state.tags == old(app).ec2_state.tags,
        final(app).unchanged_except(*old(app), Service::Ec2),
        final(app).column_selector_index == old(app).column_selector_index,
        final(app).current_service == old(app).current_service,
{
    if app.ec2_state.current_instance.is_none() {
        let filtered = filtered_ec2_instances(&app.ec2_state);
        match app.ec2_state.table.get_selected(&filtered) {
            Some(idx) => {
                proof {
                    crate::table::lemma_kept_indices_bounded(
                        app.ec2_state.table.items@.len(),
                        |k: int| crate::ec2::instance_kept(app.ec2_state.table.items@[k], app.ec2_state.table.filter@, app.ec2_state.state_filter),
                    );
                }
                let id = app.ec2_state.table.items[idx].instance_id.clone();
                app.ec2_state.current_instance = Some(id);
                app.view_mode = ViewMode::Detail;
                app.update_current_tab_breadcrumb();
            },
            None => {},
        }
    }
}

/// Leaves the instance detail view.
pub fn go_back(app: &mut App)
    ensures
        final(app).ec2_state.current_instance is None,
        final(app).view_mode == ViewMode::List,
        final(app).current_service == Service::Ec2 ==> crate::columns::string_names(
            final(app).tab_breadcrumb@,
        ) == breadcrumb_of(final(app).ec2_state),
        final(app).ec2_state.table == old(app).ec2_state.table,
        final(app).ec2_state.tags == old(app).ec2_state.tags,
        final(app).ec2_state.detail_tab == old(app).ec2_state.detail_tab,
        final(app).unchanged_except(*old(app), Service::Ec2),
        final(app).column_selector_index == old(app).column_selector_index,
        final(app).current_service == old(app).current_service,
{
    app.ec2_state.current_instance = None;
    app.view_mode = ViewMode::List;
    app.update_current_tab_breadcrumb();
}

/// What opening a detail tab asks for: the Tags tab marks its tags as loading;
/// the Monitoring tab marks its charts as loading, scrolls them to the top and
/// drops the previous data.
pub open spec fn tab_opened(new: State, old: State) -> bool {
    &&& new.detail_tab == DetailTab::Tags ==> new.tags.loading && new.metrics_loading
        == old.metrics_loading && new.monitoring_scroll == old.monitoring_scroll && new.has_metrics
        == old.has_metrics
    &&& new.detail_tab == DetailTab::Monitoring ==> new.metrics_loading && new.monitoring_scroll
        == 0 && !new.has_metrics && new.tags.loading == old.tags.loading
    &&& new.detail_tab != DetailTab::Tags && new.detail_tab != DetailTab::Monitoring ==> new.tags.loading
        == old.tags.loading && new.metrics_loading == old.metrics_loading && new.monitoring_scroll
        == old.monitoring_scroll && new.has_metrics == old.has_metrics
    &&& new.tags.items@ == old.tags.items@
    &&& new.tags.selected == old.tags.selected
    &&& new.tags.filter@ == old.tags.filter@
    &&& new.table == old.table
    &&& new.current_instance == old.current_instance
}

fn open_tab(app: &mut App)
    ensures
        tab_opened(final(app).ec2_state, old(app).ec2_state),
        final(app).ec2_state.detail_tab == old(app).ec2_state.detail_tab,
        final(app).unchanged_except(*old(app), Service::Ec2),
        final(app).keeps_shell(*old(app)),
{
    if app.ec2_state.detail_tab == DetailTab::Tags {
        app.ec2_state.tags.loading = true;
    } else if app.ec2_state.detail_tab == DetailTab::Monitoring {
        app.ec2_state.metrics_loading = true;
        app.ec2_state.monitoring_scroll = 0;
        app.ec2_state.has_metrics = false;
    }
}

/// Opens the next detail tab.
pub fn next_detail_tab(app: &mut App)
    ensures
        final(app).ec2_state.detail_tab == old(app).ec2_state.detail_tab.following(),
        tab_opened(final(app).ec2_state, old(app).ec2_state),
        final(app).unchanged_except(*old(app), Service::Ec2),
        final(app).keeps_shell(*old(app)),
{
    app.ec2_state.detail_tab = app.ec2_state.detail_tab.next();
    open_tab(app);
}

/// Opens the previous detail tab.
pub fn prev_detail_tab(app: &mut App)
    ensures
        final(app).ec2_state.detail_tab == old(app).ec2_state.detail_tab.preceding(),
        tab_opened(final(app).ec2_state, old(app).ec2_state),
        final(app).unchanged_except(*old(app), Service::Ec2),
        final(app).keeps_shell(*old(app)),
{
    app.ec2_state.detail_tab = app.ec2_state.detail_tab.prev();
    open_tab(app);
}

/// Whether the column selector is unavailable: an instance row is open and the
/// Tags tab is not showing.
pub fn block_column_selector(app: &App) -> (r: bool)
    ensures
        r == (app.ec2_state.table.expanded_item is Some && app.ec2_state.detail_tab
            != DetailTab::Tags),
{
    app.ec2_state.table.expanded_item.is_some() && app.ec2_state.detail_tab != DetailTab::Tags
}

// ── Column preferences ───────────────────────────────────────────────────────

/// Applies the preferences row under the cursor: on the Tags tab it toggles a
/// tag column or picks the tag page size; elsewhere an instance column or the
/// instance page size. The last visible column is never hidden.
pub fn toggle_column(app: &mut App)
    ensures
        ({
            let idx = old(app).column_selector_index as int;
            if old(app).ec2_state.on_tags() {
                let n = old(app).ec2_state.tag_column_ids@.len() as int;
                &&& string_names(final(app).ec2_state.tag_visible_column_ids@) == toggled_at(
                    string_names(old(app).ec2_state.tag_visible_column_ids@),
                    string_names(old(app).ec2_state.tag_column_ids@),
                    idx,
                    true,
                )
                &&& final(app).ec2_state.tags.page_size == (if 0 < idx <= n {
                    old(app).ec2_state.tags.page_size
                } else {
                    match page_size_choice(idx, n) {
                        Some(p) => p,
                        None => old(app).ec2_state.tags.page_size,
                    }
                })
                &&& final(app).ec2_visible_column_ids@ == old(app).ec2_visible_column_ids@
                &&& final(app).ec2_state.table == old(app).ec2_state.table
            } else {
                let n = old(app).ec2_column_ids@.len() as int;
                &&& id_names(final(app).ec2_visible_column_ids@) == toggled_at(
                    id_names(old(app).ec2_visible_column_ids@),
                    id_names(old(app).ec2_column_ids@),
                    idx,
                    true,
                )
                &&& final(app).ec2_state.table.page_size == (if 0 < idx <= n {
                    old(app).ec2_state.table.page_size
                } else {
                    match page_size_choice(idx, n) {
                        Some(p) => p,
                        None => old(app).ec2_state.table.page_size,
                    }
                })
                &&& final(app).ec2_state.tag_visible_column_ids@ == old(app).ec2_state.tag_visible_column_ids@
                &&& final(app).ec2_state.tags == old(app).ec2_state.tags
            }
        }),
        final(app).ec2_state.table.items@ == old(app).ec2_state.table.items@,
        final(app).ec2_state.table.selected == old(app).ec2_state.table.selected,
        final(app).ec2_state.tags.items@ == old(app).ec2_state.tags.items@,
        final(app).ec2_state.current_instance == old(app).ec2_state.current_instance,
        final(app).ec2_column_ids@ == old(app).ec2_column_ids@,
        final(app).ec2_state.tag_column_ids@ == old(app).ec2_state.tag_column_ids@,
        final(app).config == old(app).config,
        final(app).keeps_shell(*old(app)),
{
    let idx = app.column_selector_index;
    if app.ec2_state.showing_tags() {
        let n = app.ec2_state.tag_column_ids.len();
        if idx > 0 && idx <= n {
            toggle_visible_strings(
                &mut app.ec2_state.tag_visible_column_ids,
                &app.ec2_state.tag_column_ids,
                idx,
                true,
            );
        } else {
            match page_size_at(idx, n) {
                Some(p) => {
                    app.ec2_state.tags.page_size = p;
                },
                None => {},
            }
        }
    } else {
        let n = app.ec2_column_ids.len();
        if idx > 0 && idx <= n {
            toggle_visible(&mut app.ec2_visible_column_ids, &app.ec2_column_ids, idx, true);
        } else {
            match page_size_at(idx, n) {
                Some(p) => {
                    app.ec2_state.table.page_size = p;
                },
                None => {},
            }
        }
    }
}

/// Moves the preferences cursor between the columns section and the page-size
/// section (which starts at row `columns + 2`).
pub fn next_preferences(app: &mut App)
    requires
        old(app).ec2_column_ids@.len() + 2 <= usize::MAX,
    ensures
        final(app).column_selector_index == (if old(app).column_selector_index < old(
            app,
        ).ec2_column_ids@.len() + 2 {
            old(app).ec2_column_ids@.len() + 2
        } else {
            0
        }),
        final(app).ec2_state == old(app).ec2_state,
        final(app).unchanged_except(*old(app), Service::Other),
        final(app).view_mode == old(app).view_mode,
        final(app).current_service == old(app).current_service,
        final(app).tab_breadcrumb@ == old(app).tab_breadcrumb@,
{
    let page_size_idx = app.ec2_column_ids.len() + 2;
    if app.column_selector_index < page_size_idx {
        app.column_selector_index = page_size_idx;
    } else {
        app.column_selector_index = 0;
    }
}

/// The last row of the preferences panel.
pub fn column_selector_max(app: &App) -> (r: usize)
    requires
        app.ec2_state.tag_column_ids@.len() + 6 <= usize::MAX,
        app.ec2_column_ids@.len() + 6 <= usize::MAX,
    ensures
        r == (if app.ec2_state.on_tags() {
            app.ec2_state.tag_column_ids@.len()
        } else {
            app.ec2_column_ids@.len()
        }) + 6,
{
    if app.ec2_state.showing_tags() {
        app.ec2_state.tag_column_ids.len() + 6
    } else {
        app.ec2_column_ids.len() + 6
    }
}

/// The number of columns of the table on screen.
pub fn column_count(app: &App) -> (r: usize)
    ensures
        r == (if app.ec2_state.on_tags() {
            app.ec2_state.tag_column_ids@.len()
        } else {
            app.ec2_column_ids@.len()
        }),
{
    if app.ec2_state.showing_tags() {
        app.ec2_state.tag_column_ids.len()
    } else {
        app.ec2_column_ids.len()
    }
}

// ── Breadcrumb / console URL ─────────────────────────────────────────────────

/// The breadcrumb of the view: `EC2`, then the open instance or `Instances`.
pub open spec fn breadcrumb_of(s: State) -> Seq<Seq<char>> {
    seq![
        "EC2"@,
        match s.current_instance {
            Some(id) => id@,
            None => "Instances"@,
        },
    ]
}

/// The breadcrumb of the view.
pub fn breadcrumb(app: &App) -> (r: Vec<String>)
    ensures
        string_names(r@) == breadcrumb_of(app.ec2_state),
{
    let second = match &app.ec2_state.current_instance {
        Some(id) => id.clone(),
        None => String::from_str("Instances"),
    };
    let r = vec![String::from_str("EC2"), second];
    assert(string_names(r@) =~= breadcrumb_of(app.ec2_state));
    r
}

/// The address of the view in the AWS console.
pub fn console_url(app: &App) -> (r: String)
    ensures
        r@ == console_address(
            app.config.region@,
            match app.ec2_state.current_instance {
                Some(id) => Some(id@),
                None => None,
            },
        ),
{
    let region = app.config.region.as_str();
    let mut s = String::from_str("https://");
    s.append(region);
    s.append(".console.aws.amazon.com/ec2/home?region=");
    s.append(region);
    match &app.ec2_state.current_instance {
        Some(id) => {
            s.append("#InstanceDetails:instanceId=");
            s.append(id.as_str());
        },
        None => {
            s.append("#Instances:");
        },
    }
    s
}

/// The filter that typed characters edit: the tags filter on the tags tab of
/// an open instance, else the instance list's filter.
pub fn get_active_filter_mut(app: &mut App) -> (r: Option<&mut String>)
    ensures
        r is Some,
        old(app).ec2_state.on_tags() ==> {
            &&& *r.unwrap() == old(app).ec2_state.tags.filter
            &&& *final(app) == (App {
                ec2_state: crate::ec2::State {
                    tags: crate::table::TableState { filter: *final(r.unwrap()), ..old(app).ec2_state.tags },
                    ..old(app).ec2_state
                },
                ..*old(app)
            })
        },
        !old(app).ec2_state.on_tags() ==> {
            &&& *r.unwrap() == old(app).ec2_state.table.filter
            &&& *final(app) == (App {
                ec2_state: crate::ec2::State {
                    table: crate::table::TableState { filter: *final(r.unwrap()), ..old(app).ec2_state.table },
                    ..old(app).ec2_state
                },
                ..*old(app)
            })
        },
{
    if app.ec2_state.current_instance.is_some() && app.ec2_state.detail_tab == crate::ec2::DetailTab::Tags {
        Some(&mut app.ec2_state.tags.filter)
    } else {
        Some(&mut app.ec2_state.table.filter)
    }
}

} // verus!

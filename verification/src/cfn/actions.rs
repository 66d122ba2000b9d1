//! Key-handling actions of the CloudFormation view.
use vstd::prelude::*;
use vstd::string::*;
use crate::app::{App, Service};
use crate::cfn::{
    detail_filter_control_list, detail_filter_controls, filter_control_list, filter_controls,
    filtered_change_set_rows, filtered_change_sets, filtered_cloudformation_stacks, filtered_event_rows,
    filtered_events, filtered_output_rows, filtered_outputs, filtered_parameter_rows, filtered_parameters,
    filtered_resource_rows, filtered_resources, filtered_stack_rows, console_url_stack_detail_with_tab,
    console_url_stacks, stack_tab_address, stacks_address, status_filter_focus, view_nested_focus, DetailTab,
    EventsView, Stack, State,
};
use crate::cloud::cfn::{StackChangeSet, StackEvent, StackOutput, StackParameter, StackResource};
use crate::columns::{id_names, string_names, toggle_visible, toggled_at};
use crate::common::{
    cycle_next, cycle_prev, first_index_of, lemma_first_index_of_prefix, min_usize, page_size_at,
    page_size_choice, sat_sub, InputFocus, PageSize,
};
use crate::sort::{sort_by_key, sorted_by_key};
use crate::table::{min_int, TableState};
use crate::text::{line_count, line_count_of, pop_char, push_char, str_eq};

verus! {

/// A table of the view.
#[derive(Clone, Copy, Debug, PartialEq, Eq, Structural)]
pub enum Pane {
    Stacks,
    Parameters,
    Outputs,
    Resources,
    Events,
    ChangeSets,
}

/// The detail table of the open stack's tab, if the tab has one.
pub open spec fn detail_pane(s: State) -> Option<Pane> {
    if s.current_stack is Some {
        match s.detail_tab {
            DetailTab::Parameters => Some(Pane::Parameters),
            DetailTab::Outputs => Some(Pane::Outputs),
            DetailTab::Resources => Some(Pane::Resources),
            DetailTab::Events => Some(Pane::Events),
            DetailTab::ChangeSets => Some(Pane::ChangeSets),
            _ => None,
        }
    } else {
        None
    }
}

/// The table that list keys act on: the open stack's detail table, else the stacks.
pub open spec fn list_pane(s: State) -> Pane {
    match detail_pane(s) {
        Some(p) => p,
        None => Pane::Stacks,
    }
}

/// The table that Enter, Right and Left act on: the stacks when none is open,
/// else the detail table of the open stack's tab, if any.
pub open spec fn row_pane(s: State) -> Option<Pane> {
    if s.current_stack is None { Some(Pane::Stacks) } else { detail_pane(s) }
}

/// Whether the template of the open stack is on screen.
pub open spec fn on_template(s: State) -> bool {
    s.current_stack is Some && s.detail_tab == DetailTab::Template
}

/// `new` equals `old` except for the table of pane `p`.
pub open spec fn same_but(new: State, old: State, p: Pane) -> bool {
    match p {
        Pane::Stacks => new == (State { table: new.table, ..old }),
        Pane::Parameters => new == (State { parameters: new.parameters, ..old }),
        Pane::Outputs => new == (State { outputs: new.outputs, ..old }),
        Pane::Resources => new == (State { resources: new.resources, ..old }),
        Pane::Events => new == (State { events: new.events, ..old }),
        Pane::ChangeSets => new == (State { change_sets: new.change_sets, ..old }),
    }
}

/// The focus of the filter bar of pane `p`.
pub open spec fn pane_focus(s: State, p: Pane) -> InputFocus {
    match p {
        Pane::Stacks => s.input_focus,
        Pane::Parameters => s.parameters_input_focus,
        Pane::Outputs => s.outputs_input_focus,
        Pane::Resources => s.resources_input_focus,
        Pane::Events => s.events_input_focus,
        Pane::ChangeSets => s.change_sets_input_focus,
    }
}

/// The number of rows of pane `p` that pass its filter.
pub open spec fn pane_count(s: State, p: Pane) -> int {
    match p {
        Pane::Stacks => filtered_stack_rows(s).len() as int,
        Pane::Parameters => filtered_parameter_rows(s).len() as int,
        Pane::Outputs => filtered_output_rows(s).len() as int,
        Pane::Resources => filtered_resource_rows(s).len() as int,
        Pane::Events => filtered_event_rows(s).len() as int,
        Pane::ChangeSets => filtered_change_set_rows(s).len() as int,
    }
}

/// The selected row of pane `p`.
pub open spec fn pane_selected(s: State, p: Pane) -> usize {
    match p {
        Pane::Stacks => s.table.selected,
        Pane::Parameters => s.parameters.selected,
        Pane::Outputs => s.outputs.selected,
        Pane::Resources => s.resources.selected,
        Pane::Events => s.events.selected,
        Pane::ChangeSets => s.change_sets.selected,
    }
}

/// The table of pane `p` back at its first row with no row open.
pub open spec fn pane_was_reset(new: State, old: State, p: Pane) -> bool {
    match p {
        Pane::Stacks => new.table.was_reset(old.table),
        Pane::Parameters => new.parameters.was_reset(old.parameters),
        Pane::Outputs => new.outputs.was_reset(old.outputs),
        Pane::Resources => new.resources.was_reset(old.resources),
        Pane::Events => new.events.was_reset(old.events),
        Pane::ChangeSets => new.change_sets.was_reset(old.change_sets),
    }
}

/// The table of pane `p` moved one row up.
pub open spec fn pane_moved_up(new: State, old: State, p: Pane) -> bool {
    match p {
        Pane::Stacks => new.table.moved_up(old.table),
        Pane::Parameters => new.parameters.moved_up(old.parameters),
        Pane::Outputs => new.outputs.moved_up(old.outputs),
        Pane::Resources => new.resources.moved_up(old.resources),
        Pane::Events => new.events.moved_up(old.events),
        Pane::ChangeSets => new.change_sets.moved_up(old.change_sets),
    }
}

/// The table of pane `p` moved one page up.
pub open spec fn pane_paged_up(new: State, old: State, p: Pane) -> bool {
    match p {
        Pane::Stacks => new.table.paged_up(old.table),
        Pane::Parameters => new.parameters.paged_up(old.parameters),
        Pane::Outputs => new.outputs.paged_up(old.outputs),
        Pane::Resources => new.resources.paged_up(old.resources),
        Pane::Events => new.events.paged_up(old.events),
        Pane::ChangeSets => new.change_sets.paged_up(old.change_sets),
    }
}

/// The table of pane `p` closed its open row.
pub open spec fn pane_collapsed(new: State, old: State, p: Pane) -> bool {
    match p {
        Pane::Stacks => new.table.collapsed(old.table),
        Pane::Parameters => new.parameters.collapsed(old.parameters),
        Pane::Outputs => new.outputs.collapsed(old.outputs),
        Pane::Resources => new.resources.collapsed(old.resources),
        Pane::Events => new.events.collapsed(old.events),
        Pane::ChangeSets => new.change_sets.collapsed(old.change_sets),
    }
}

/// The table of pane `p` opened its selected row, or closed it when open.
pub open spec fn pane_expand_toggled(new: State, old: State, p: Pane) -> bool {
    match p {
        Pane::Stacks => new.table.expand_toggled(old.table),
        Pane::Parameters => new.parameters.expand_toggled(old.parameters),
        Pane::Outputs => new.outputs.expand_toggled(old.outputs),
        Pane::Resources => new.resources.expand_toggled(old.resources),
        Pane::Events => new.events.expand_toggled(old.events),
        Pane::ChangeSets => new.change_sets.expand_toggled(old.change_sets),
    }
}

/// The table of pane `p` moved one row down among `n` rows.
pub open spec fn pane_moved_down(new: State, old: State, p: Pane, n: int) -> bool {
    match p {
        Pane::Stacks => new.table.moved_down(old.table, n),
        Pane::Parameters => new.parameters.moved_down(old.parameters, n),
        Pane::Outputs => new.outputs.moved_down(old.outputs, n),
        Pane::Resources => new.resources.moved_down(old.resources, n),
        Pane::Events => new.events.moved_down(old.events, n),
        Pane::ChangeSets => new.change_sets.moved_down(old.change_sets, n),
    }
}

/// The table of pane `p` moved one page down among `n` rows.
pub open spec fn pane_paged_down(new: State, old: State, p: Pane, n: int) -> bool {
    match p {
        Pane::Stacks => new.table.paged_down(old.table, n),
        Pane::Parameters => new.parameters.paged_down(old.parameters, n),
        Pane::Outputs => new.outputs.paged_down(old.outputs, n),
        Pane::Resources => new.resources.paged_down(old.resources, n),
        Pane::Events => new.events.paged_down(old.events, n),
        Pane::ChangeSets => new.change_sets.paged_down(old.change_sets, n),
    }
}

/// The filter text of pane `p`.
pub open spec fn pane_filter(s: State, p: Pane) -> Seq<char> {
    match p {
        Pane::Stacks => s.table.filter@,
        Pane::Parameters => s.parameters.filter@,
        Pane::Outputs => s.outputs.filter@,
        Pane::Resources => s.resources.filter@,
        Pane::Events => s.events.filter@,
        Pane::ChangeSets => s.change_sets.filter@,
    }
}

/// The table of pane `p` has only its filter text changed and its cursor on the first row.
pub open spec fn pane_filter_edited(new: State, old: State, p: Pane) -> bool {
    match p {
        Pane::Stacks => new.table == (TableState { filter: new.table.filter, selected: 0, ..old.table }),
        Pane::Parameters => new.parameters == (TableState { filter: new.parameters.filter, selected: 0, ..old.parameters }),
        Pane::Outputs => new.outputs == (TableState { filter: new.outputs.filter, selected: 0, ..old.outputs }),
        Pane::Resources => new.resources == (TableState { filter: new.resources.filter, selected: 0, ..old.resources }),
        Pane::Events => new.events == (TableState { filter: new.events.filter, selected: 0, ..old.events }),
        Pane::ChangeSets => new.change_sets == (TableState { filter: new.change_sets.filter, selected: 0, ..old.change_sets }),
    }
}

fn detail_pane_of(s: &State) -> (r: Option<Pane>)
    ensures
        r == detail_pane(*s),
{
    if s.current_stack.is_some() {
        match s.detail_tab {
            DetailTab::Parameters => Some(Pane::Parameters),
            DetailTab::Outputs => Some(Pane::Outputs),
            DetailTab::Resources => Some(Pane::Resources),
            DetailTab::Events => Some(Pane::Events),
            DetailTab::ChangeSets => Some(Pane::ChangeSets),
            _ => None,
        }
    } else {
        None
    }
}

fn list_pane_of(s: &State) -> (r: Pane)
    ensures
        r == list_pane(*s),
{
    match detail_pane_of(s) {
        Some(p) => p,
        None => Pane::Stacks,
    }
}

// ── Filter / reset ───────────────────────────────────────────────────────────

/// The table whose filter the filter bar resets: the open stack's parameters,
/// outputs, events or change sets, else the stacks.
pub open spec fn reset_pane(s: State) -> Pane {
    match detail_pane(s) {
        Some(Pane::Parameters) => Pane::Parameters,
        Some(Pane::Outputs) => Pane::Outputs,
        Some(Pane::Events) => Pane::Events,
        Some(Pane::ChangeSets) => Pane::ChangeSets,
        _ => Pane::Stacks,
    }
}

/// Puts the filtered table (see `reset_pane`) back at its first row.
pub fn apply_filter_reset(app: &mut App)
    ensures
        same_but(final(app).cfn_state, old(app).cfn_state, reset_pane(old(app).cfn_state)),
        pane_was_reset(final(app).cfn_state, old(app).cfn_state, reset_pane(old(app).cfn_state)),
        final(app).unchanged_except(*old(app), Service::CloudFormation),
        final(app).keeps_shell(*old(app)),
{
    match detail_pane_of(&app.cfn_state) {
        Some(Pane::Parameters) => app.cfn_state.parameters.reset(),
        Some(Pane::Outputs) => app.cfn_state.outputs.reset(),
        Some(Pane::Events) => app.cfn_state.events.reset(),
        Some(Pane::ChangeSets) => app.cfn_state.change_sets.reset(),
        _ => app.cfn_state.table.reset(),
    }
}

/// Puts the stack table back at its first row when the service is chosen.
pub fn reset_on_service_select(app: &mut App)
    ensures
        same_but(final(app).cfn_state, old(app).cfn_state, Pane::Stacks),
        final(app).cfn_state.table.was_reset(old(app).cfn_state.table),
        final(app).unchanged_except(*old(app), Service::CloudFormation),
        final(app).keeps_shell(*old(app)),
{
    app.cfn_state.table.reset();
}

/// Whether the pagination control of the stack list has the focus.
pub fn is_pagination_focused(app: &App) -> (r: bool)
    ensures
        r == app.cfn_state.input_focus.same(InputFocus::Pagination),
{
    app.cfn_state.input_focus.is(&InputFocus::Pagination)
}

/// Types `c` into the filter of the table list keys act on (see `list_pane`) when its filter input has the focus, and selects its first row.
fn push_filter<T>(t: &mut TableState<T>, c: char)
    ensures
        *final(t) == (TableState { filter: final(t).filter, selected: 0, ..*old(t) }),
        final(t).filter@ == old(t).filter@.push(c),
{
    push_char(&mut t.filter, c);
    t.selected = 0;
}

fn pop_filter<T>(t: &mut TableState<T>)
    ensures
        *final(t) == (TableState { filter: final(t).filter, selected: 0, ..*old(t) }),
        final(t).filter@ == (if old(t).filter@.len() > 0 { old(t).filter@.drop_last() } else { old(t).filter@ }),
{
    pop_char(&mut t.filter);
    t.selected = 0;
}

fn filter_char_push_in(st: &mut State, c: char)
    ensures
        ({
            let s = *old(st);
            let t = *final(st);
            let p = list_pane(s);
            if pane_focus(s, p).same(InputFocus::Filter) {
                &&& same_but(t, s, p)
                &&& pane_filter_edited(t, s, p)
                &&& pane_filter(t, p) == pane_filter(s, p).push(c)
            } else {
                t == s
            }
        }),
{
    match list_pane_of(st) {
        Pane::Stacks => {
            if st.input_focus.is(&InputFocus::Filter) {
                push_filter(&mut st.table, c);
            }
        },
        Pane::Parameters => {
            if st.parameters_input_focus.is(&InputFocus::Filter) {
                push_filter(&mut st.parameters, c);
            }
        },
        Pane::Outputs => {
            if st.outputs_input_focus.is(&InputFocus::Filter) {
                push_filter(&mut st.outputs, c);
            }
        },
        Pane::Resources => {
            if st.resources_input_focus.is(&InputFocus::Filter) {
                push_filter(&mut st.resources, c);
            }
        },
        Pane::Events => {
            if st.events_input_focus.is(&InputFocus::Filter) {
                push_filter(&mut st.events, c);
            }
        },
        Pane::ChangeSets => {
            if st.change_sets_input_focus.is(&InputFocus::Filter) {
                push_filter(&mut st.change_sets, c);
            }
        },
    }
}

pub fn filter_char_push(app: &mut App, c: char)
    ensures
        ({
            let s = old(app).cfn_state;
            let t = final(app).cfn_state;
            let p = list_pane(s);
            if pane_focus(s, p).same(InputFocus::Filter) {
                &&& same_but(t, s, p)
                &&& pane_filter_edited(t, s, p)
                &&& pane_filter(t, p) == pane_filter(s, p).push(c)
            } else {
                t == s
            }
        }),
        final(app).unchanged_except(*old(app), Service::CloudFormation),
        final(app).keeps_shell(*old(app)),
{
    filter_char_push_in(&mut app.cfn_state, c);
}

/// Deletes the last character of the filter of the table list keys act on when its filter input has the focus, and selects its first row.
fn filter_char_pop_in(st: &mut State)
    ensures
        ({
            let s = *old(st);
            let t = *final(st);
            let p = list_pane(s);
            if pane_focus(s, p).same(InputFocus::Filter) {
                &&& same_but(t, s, p)
                &&& pane_filter_edited(t, s, p)
                &&& pane_filter(t, p) == (if pane_filter(s, p).len() > 0 { pane_filter(s, p).drop_last() } else { pane_filter(s, p) })
            } else {
                t == s
            }
        }),
{
    match list_pane_of(st) {
        Pane::Stacks => {
            if st.input_focus.is(&InputFocus::Filter) {
                pop_filter(&mut st.table);
            }
        },
        Pane::Parameters => {
            if st.parameters_input_focus.is(&InputFocus::Filter) {
                pop_filter(&mut st.parameters);
            }
        },
        Pane::Outputs => {
            if st.outputs_input_focus.is(&InputFocus::Filter) {
                pop_filter(&mut st.outputs);
            }
        },
        Pane::Resources => {
            if st.resources_input_focus.is(&InputFocus::Filter) {
                pop_filter(&mut st.resources);
            }
        },
        Pane::Events => {
            if st.events_input_focus.is(&InputFocus::Filter) {
                pop_filter(&mut st.events);
            }
        },
        Pane::ChangeSets => {
            if st.change_sets_input_focus.is(&InputFocus::Filter) {
                pop_filter(&mut st.change_sets);
            }
        },
    }
}

pub fn filter_char_pop(app: &mut App)
    ensures
        ({
            let s = old(app).cfn_state;
            let t = final(app).cfn_state;
            let p = list_pane(s);
            if pane_focus(s, p).same(InputFocus::Filter) {
                &&& same_but(t, s, p)
                &&& pane_filter_edited(t, s, p)
                &&& pane_filter(t, p) == (if pane_filter(s, p).len() > 0 { pane_filter(s, p).drop_last() } else { pane_filter(s, p) })
            } else {
                t == s
            }
        }),
        final(app).unchanged_except(*old(app), Service::CloudFormation),
        final(app).keeps_shell(*old(app)),
{
    filter_char_pop_in(&mut app.cfn_state);
}

/// The filter bar whose input `start_filter` focuses: that of the open stack's
/// parameters, outputs, events or change sets, else the stack list's.
pub open spec fn start_pane(s: State) -> Pane {
    reset_pane(s)
}

/// Gives the filter input the focus (see `start_pane`).
pub fn start_filter(app: &mut App)
    ensures
        ({
            let s = old(app).cfn_state;
            let t = final(app).cfn_state;
            match start_pane(s) {
                Pane::Parameters => t == (State { parameters_input_focus: InputFocus::Filter, ..s }),
                Pane::Outputs => t == (State { outputs_input_focus: InputFocus::Filter, ..s }),
                Pane::Events => t == (State { events_input_focus: InputFocus::Filter, ..s }),
                Pane::ChangeSets => t == (State { change_sets_input_focus: InputFocus::Filter, ..s }),
                _ => t == (State { input_focus: InputFocus::Filter, ..s }),
            }
        }),
        final(app).unchanged_except(*old(app), Service::CloudFormation),
        final(app).keeps_shell(*old(app)),
{
    match detail_pane_of(&app.cfn_state) {
        Some(Pane::Parameters) => app.cfn_state.parameters_input_focus = InputFocus::Filter,
        Some(Pane::Outputs) => app.cfn_state.outputs_input_focus = InputFocus::Filter,
        Some(Pane::Events) => app.cfn_state.events_input_focus = InputFocus::Filter,
        Some(Pane::ChangeSets) => app.cfn_state.change_sets_input_focus = InputFocus::Filter,
        _ => app.cfn_state.input_focus = InputFocus::Filter,
    }
}

/// Moves the focus to the next control of the filter bar of the table list keys act on.
pub fn next_filter_focus(app: &mut App)
    ensures
        ({
            let s = old(app).cfn_state;
            let t = final(app).cfn_state;
            match list_pane(s) {
                Pane::Stacks => t == (State { input_focus: cycle_next(filter_controls(), s.input_focus), ..s }),
                Pane::Parameters => t == (State { parameters_input_focus: cycle_next(detail_filter_controls(), s.parameters_input_focus), ..s }),
                Pane::Outputs => t == (State { outputs_input_focus: cycle_next(detail_filter_controls(), s.outputs_input_focus), ..s }),
                Pane::Resources => t == (State { resources_input_focus: cycle_next(detail_filter_controls(), s.resources_input_focus), ..s }),
                Pane::Events => t == (State { events_input_focus: cycle_next(detail_filter_controls(), s.events_input_focus), ..s }),
                Pane::ChangeSets => t == (State { change_sets_input_focus: cycle_next(detail_filter_controls(), s.change_sets_input_focus), ..s }),
            }
        }),
        final(app).unchanged_except(*old(app), Service::CloudFormation),
        final(app).keeps_shell(*old(app)),
{
    let detail = detail_filter_control_list();
    let stacks = filter_control_list();
    match list_pane_of(&app.cfn_state) {
        Pane::Stacks => app.cfn_state.input_focus = app.cfn_state.input_focus.next(stacks.as_slice()),
        Pane::Parameters => app.cfn_state.parameters_input_focus = app.cfn_state.parameters_input_focus.next(detail.as_slice()),
        Pane::Outputs => app.cfn_state.outputs_input_focus = app.cfn_state.outputs_input_focus.next(detail.as_slice()),
        Pane::Resources => app.cfn_state.resources_input_focus = app.cfn_state.resources_input_focus.next(detail.as_slice()),
        Pane::Events => app.cfn_state.events_input_focus = app.cfn_state.events_input_focus.next(detail.as_slice()),
        Pane::ChangeSets => app.cfn_state.change_sets_input_focus = app.cfn_state.change_sets_input_focus.next(detail.as_slice()),
    }
}

/// Moves the focus to the previous control of the filter bar of the table list keys act on.
pub fn prev_filter_focus(app: &mut App)
    ensures
        ({
            let s = old(app).cfn_state;
            let t = final(app).cfn_state;
            match list_pane(s) {
                Pane::Stacks => t == (State { input_focus: cycle_prev(filter_controls(), s.input_focus), ..s }),
                Pane::Parameters => t == (State { parameters_input_focus: cycle_prev(detail_filter_controls(), s.parameters_input_focus), ..s }),
                Pane::Outputs => t == (State { outputs_input_focus: cycle_prev(detail_filter_controls(), s.outputs_input_focus), ..s }),
                Pane::Resources => t == (State { resources_input_focus: cycle_prev(detail_filter_controls(), s.resources_input_focus), ..s }),
                Pane::Events => t == (State { events_input_focus: cycle_prev(detail_filter_controls(), s.events_input_focus), ..s }),
                Pane::ChangeSets => t == (State { change_sets_input_focus: cycle_prev(detail_filter_controls(), s.change_sets_input_focus), ..s }),
            }
        }),
        final(app).unchanged_except(*old(app), Service::CloudFormation),
        final(app).keeps_shell(*old(app)),
{
    let detail = detail_filter_control_list();
    let stacks = filter_control_list();
    match list_pane_of(&app.cfn_state) {
        Pane::Stacks => app.cfn_state.input_focus = app.cfn_state.input_focus.prev(stacks.as_slice()),
        Pane::Parameters => app.cfn_state.parameters_input_focus = app.cfn_state.parameters_input_focus.prev(detail.as_slice()),
        Pane::Outputs => app.cfn_state.outputs_input_focus = app.cfn_state.outputs_input_focus.prev(detail.as_slice()),
        Pane::Resources => app.cfn_state.resources_input_focus = app.cfn_state.resources_input_focus.prev(detail.as_slice()),
        Pane::Events => app.cfn_state.events_input_focus = app.cfn_state.events_input_focus.prev(detail.as_slice()),
        Pane::ChangeSets => app.cfn_state.change_sets_input_focus = app.cfn_state.change_sets_input_focus.prev(detail.as_slice()),
    }
}

fn toggle_filter_checkbox_in(st: &mut State)
    ensures
        toggle_filter_checkbox_effect(*final(st), *old(st)),
{
    if st.input_focus.is(&InputFocus::Dropdown("StatusFilter")) {
        st.status_filter = st.status_filter.next();
        st.table.reset();
    } else if st.input_focus.is(&InputFocus::Checkbox("ViewNested")) {
        st.view_nested = !st.view_nested;
        st.expanded_items.clear();
        st.table.reset();
        st.table.loading = true;
    }
}

/// On the status filter: the next status filter, from the first stack. On the nested-stacks checkbox: flips it, forgets the open nested stacks and reloads the stacks from the first row.
pub fn toggle_filter_checkbox(app: &mut App)
    ensures
        toggle_filter_checkbox_effect(final(app).cfn_state, old(app).cfn_state),
        final(app).unchanged_except(*old(app), Service::CloudFormation),
        final(app).keeps_shell(*old(app)),
{
    toggle_filter_checkbox_in(&mut app.cfn_state);
}

/// What `toggle_filter_checkbox` does to the state.
pub open spec fn toggle_filter_checkbox_effect(t: State, s: State) -> bool {
    if s.input_focus.same(status_filter_focus()) {
        &&& t == (State { status_filter: s.status_filter.following(), table: t.table, ..s })
        &&& t.table.was_reset(s.table)
    } else if s.input_focus.same(view_nested_focus()) {
        &&& t == (State { view_nested: !s.view_nested, expanded_items: t.expanded_items, table: t.table, ..s })
        &&& t.expanded_items@.len() == 0
        &&& t.table.loading
        &&& (TableState { loading: s.table.loading, ..t.table }).was_reset(s.table)
    } else {
        t == s
    }
}

/// Whether the preferences panel is unavailable: on the template or Git sync
/// tab of an open stack.
pub fn block_column_selector(app: &App) -> (r: bool)
    ensures
        r == (app.cfn_state.current_stack is Some && (app.cfn_state.detail_tab == DetailTab::Template
            || app.cfn_state.detail_tab == DetailTab::GitSync)),
{
    app.cfn_state.current_stack.is_some() && (app.cfn_state.detail_tab == DetailTab::Template
        || app.cfn_state.detail_tab == DetailTab::GitSync)
}

// ── Template scrolling ───────────────────────────────────────────────────────

/// The last line the template can be scrolled to.
pub open spec fn last_template_line(s: State) -> int {
    if line_count_of(s.template_body@) > 0 { line_count_of(s.template_body@) - 1 } else { 0 }
}

/// One line up the template.
pub fn scroll_up_template(app: &mut App)
    ensures
        final(app).cfn_state == (State { template_scroll: sat_sub(old(app).cfn_state.template_scroll, 1), ..old(app).cfn_state }),
        final(app).unchanged_except(*old(app), Service::CloudFormation),
        final(app).keeps_shell(*old(app)),
{
    let cur = app.cfn_state.template_scroll;
    app.cfn_state.template_scroll = if cur > 1 { cur - 1 } else { 0 };
}

/// One line down the template, up to its last line.
pub fn scroll_down_template(app: &mut App)
    ensures
        final(app).cfn_state == (State {
            template_scroll: min_int(old(app).cfn_state.template_scroll + 1, last_template_line(old(app).cfn_state)) as usize,
            ..old(app).cfn_state
        }),
        final(app).unchanged_except(*old(app), Service::CloudFormation),
        final(app).keeps_shell(*old(app)),
{
    let lines = line_count(app.cfn_state.template_body.as_str());
    let max_scroll = if lines > 0 { lines - 1 } else { 0 };
    let cur = app.cfn_state.template_scroll;
    app.cfn_state.template_scroll = if cur < max_scroll { cur + 1 } else { max_scroll };
}

/// Ten lines up the template.
pub fn scroll_up_template_fast(app: &mut App)
    ensures
        final(app).cfn_state == (State { template_scroll: sat_sub(old(app).cfn_state.template_scroll, 10), ..old(app).cfn_state }),
        final(app).unchanged_except(*old(app), Service::CloudFormation),
        final(app).keeps_shell(*old(app)),
{
    let cur = app.cfn_state.template_scroll;
    app.cfn_state.template_scroll = if cur > 10 { cur - 10 } else { 0 };
}

/// Ten lines down the template, up to its last line.
pub fn scroll_down_template_fast(app: &mut App)
    ensures
        final(app).cfn_state == (State {
            template_scroll: min_int(old(app).cfn_state.template_scroll + 10, last_template_line(old(app).cfn_state)) as usize,
            ..old(app).cfn_state
        }),
        final(app).unchanged_except(*old(app), Service::CloudFormation),
        final(app).keeps_shell(*old(app)),
{
    let lines = line_count(app.cfn_state.template_body.as_str());
    let max_scroll = if lines > 0 { lines - 1 } else { 0 };
    let cur = app.cfn_state.template_scroll;
    app.cfn_state.template_scroll = if cur < max_scroll && max_scroll - cur > 10 { cur + 10 } else { max_scroll };
}

// ── Navigation ───────────────────────────────────────────────────────────────

/// The rows of the open stack row that lie between the selected stack and the
/// next one: the row is open, on the page on screen and before the next stack.
pub open spec fn rows_before_next(s: State, visible_columns: int) -> int {
    let n = filtered_stack_rows(s).len() as int;
    let next = min_int(s.table.selected + 1, if n > 0 { n - 1 } else { 0 });
    match s.table.expanded_item {
        Some(e) => if e >= s.table.scroll_offset && e < s.table.scroll_offset + s.table.page_size.rows()
            && e < next {
            visible_columns
        } else {
            0
        },
        None => 0,
    }
}

fn move_down_in(st: &mut State, visible_columns: usize)
    requires
        filtered_stack_rows(*old(st)).len() + visible_columns <= usize::MAX,
    ensures
        ({
            let s = *old(st);
            let t = *final(st);
            let p = list_pane(s);
            &&& same_but(t, s, p)
            &&& p == Pane::Stacks ==> t.table.moved_down_keeping(s.table, pane_count(s, p), rows_before_next(s, visible_columns as int))
            &&& p != Pane::Stacks ==> pane_moved_down(t, s, p, pane_count(s, p))
        }),
{
    match list_pane_of(st) {
        Pane::Parameters => {
            let filtered = filtered_parameters(st);
            st.parameters.next_item(filtered.len());
        },
        Pane::Outputs => {
            let filtered = filtered_outputs(st);
            st.outputs.next_item(filtered.len());
        },
        Pane::Resources => {
            let filtered = filtered_resources(st);
            st.resources.next_item(filtered.len());
        },
        Pane::Events => {
            let filtered = filtered_events(st);
            st.events.next_item(filtered.len());
        },
        Pane::ChangeSets => {
            let filtered = filtered_change_sets(st);
            st.change_sets.next_item(filtered.len());
        },
        Pane::Stacks => {
            let filtered = filtered_cloudformation_stacks(st);
            let n = filtered.len();
            let next_selected = if st.table.selected < n && n - st.table.selected > 1 {
                st.table.selected + 1
            } else if n > 0 {
                n - 1
            } else {
                0
            };
            let extra_rows = match st.table.expanded_item {
                Some(exp_idx) => {
                    let ps = st.table.page_size.value();
                    let scroll = st.table.scroll_offset;
                    if exp_idx >= scroll && exp_idx - scroll < ps && exp_idx < next_selected {
                        visible_columns
                    } else {
                        0
                    }
                },
                None => 0,
            };
            st.table.next_item_with_expansion(n, extra_rows);
        },
    }
}

/// On the template: one line down. Else one row down in the table list keys act
/// on (see `list_pane`); on the stacks the page follows so that an open stack
/// row between the selected stack and the next one stays in view.
pub fn next_item(app: &mut App)
    requires
        filtered_stack_rows(old(app).cfn_state).len() + old(app).cfn_visible_column_ids@.len() <= usize::MAX,
    ensures
        ({
            let s = old(app).cfn_state;
            let t = final(app).cfn_state;
            let p = list_pane(s);
            if on_template(s) {
                t == (State { template_scroll: min_int(s.template_scroll + 1, last_template_line(s)) as usize, ..s })
            } else {
                &&& same_but(t, s, p)
                &&& p == Pane::Stacks ==> t.table.moved_down_keeping(
                    s.table,
                    pane_count(s, p),
                    rows_before_next(s, old(app).cfn_visible_column_ids@.len() as int),
                )
                &&& p != Pane::Stacks ==> pane_moved_down(t, s, p, pane_count(s, p))
            }
        }),
        final(app).unchanged_except(*old(app), Service::CloudFormation),
        final(app).keeps_shell(*old(app)),
{
    if app.cfn_state.current_stack.is_some() && app.cfn_state.detail_tab == DetailTab::Template {
        scroll_down_template(app);
    } else {
        let visible = app.cfn_visible_column_ids.len();
        move_down_in(&mut app.cfn_state, visible);
    }
}

fn move_up_in(st: &mut State)
    ensures
        same_but(*final(st), *old(st), list_pane(*old(st))),
        pane_moved_up(*final(st), *old(st), list_pane(*old(st))),
{
    match list_pane_of(st) {
        Pane::Stacks => st.table.prev_item(),
        Pane::Parameters => st.parameters.prev_item(),
        Pane::Outputs => st.outputs.prev_item(),
        Pane::Resources => st.resources.prev_item(),
        Pane::Events => st.events.prev_item(),
        Pane::ChangeSets => st.change_sets.prev_item(),
    }
}

/// On the template: one line up. Else one row up in the table list keys act on.
pub fn prev_item(app: &mut App)
    ensures
        ({
            let s = old(app).cfn_state;
            let t = final(app).cfn_state;
            if on_template(s) {
                t == (State { template_scroll: sat_sub(s.template_scroll, 1), ..s })
            } else {
                same_but(t, s, list_pane(s)) && pane_moved_up(t, s, list_pane(s))
            }
        }),
        final(app).unchanged_except(*old(app), Service::CloudFormation),
        final(app).keeps_shell(*old(app)),
{
    if app.cfn_state.current_stack.is_some() && app.cfn_state.detail_tab == DetailTab::Template {
        scroll_up_template(app);
    } else {
        move_up_in(&mut app.cfn_state);
    }
}

/// On the status filter: the next status filter, from the first stack.
pub fn next_item_filter_input(app: &mut App)
    ensures
        ({
            let s = old(app).cfn_state;
            let t = final(app).cfn_state;
            if s.input_focus.same(status_filter_focus()) {
                t == (State { status_filter: s.status_filter.following(), table: t.table, ..s }) && t.table.was_reset(s.table)
            } else {
                t == s
            }
        }),
        final(app).unchanged_except(*old(app), Service::CloudFormation),
        final(app).keeps_shell(*old(app)),
{
    if app.cfn_state.input_focus.is(&InputFocus::Dropdown("StatusFilter")) {
        app.cfn_state.status_filter = app.cfn_state.status_filter.next();
        app.cfn_state.table.reset();
    }
}

/// On the status filter: the previous status filter, from the first stack.
pub fn prev_item_filter_input(app: &mut App)
    ensures
        ({
            let s = old(app).cfn_state;
            let t = final(app).cfn_state;
            if s.input_focus.same(status_filter_focus()) {
                t == (State { status_filter: s.status_filter.preceding(), table: t.table, ..s }) && t.table.was_reset(s.table)
            } else {
                t == s
            }
        }),
        final(app).unchanged_except(*old(app), Service::CloudFormation),
        final(app).keeps_shell(*old(app)),
{
    if app.cfn_state.input_focus.is(&InputFocus::Dropdown("StatusFilter")) {
        app.cfn_state.status_filter = app.cfn_state.status_filter.prev();
        app.cfn_state.table.reset();
    }
}

/// The table of pane `p` moved through its pagination control by `handle_page_down`
/// among `n` rows when that control has the focus, else stayed.
pub open spec fn pane_paged_by_control(new: State, old: State, p: Pane, n: int) -> bool {
    let sel = pane_selected(old, p);
    let ps = match p {
        Pane::Stacks => old.table.page_size.rows(),
        Pane::Parameters => old.parameters.page_size.rows(),
        Pane::Outputs => old.outputs.page_size.rows(),
        Pane::Resources => old.resources.page_size.rows(),
        Pane::Events => old.events.page_size.rows(),
        Pane::ChangeSets => old.change_sets.page_size.rows(),
    };
    let target = min_usize((sel + ps) as usize, sat_sub(n as usize, ps));
    if pane_focus(old, p).same(InputFocus::Pagination) {
        match p {
            Pane::Stacks => new.table == (TableState { selected: target, scroll_offset: target, ..old.table }),
            Pane::Parameters => new.parameters == (TableState { selected: target, scroll_offset: target, ..old.parameters }),
            Pane::Outputs => new.outputs == (TableState { selected: target, scroll_offset: target, ..old.outputs }),
            Pane::Resources => new.resources == (TableState { selected: target, scroll_offset: target, ..old.resources }),
            Pane::Events => new.events == (TableState { selected: target, scroll_offset: target, ..old.events }),
            Pane::ChangeSets => new.change_sets == (TableState { selected: target, scroll_offset: target, ..old.change_sets }),
        }
    } else {
        new == old
    }
}

/// The table of pane `p` moved one page up through its pagination control when
/// that control has the focus, else stayed.
pub open spec fn pane_paged_up_by_control(new: State, old: State, p: Pane) -> bool {
    let sel = pane_selected(old, p);
    let ps = match p {
        Pane::Stacks => old.table.page_size.rows(),
        Pane::Parameters => old.parameters.page_size.rows(),
        Pane::Outputs => old.outputs.page_size.rows(),
        Pane::Resources => old.resources.page_size.rows(),
        Pane::Events => old.events.page_size.rows(),
        Pane::ChangeSets => old.change_sets.page_size.rows(),
    };
    let target = sat_sub(sel, ps);
    if pane_focus(old, p).same(InputFocus::Pagination) {
        match p {
            Pane::Stacks => new.table == (TableState { selected: target, scroll_offset: target, ..old.table }),
            Pane::Parameters => new.parameters == (TableState { selected: target, scroll_offset: target, ..old.parameters }),
            Pane::Outputs => new.outputs == (TableState { selected: target, scroll_offset: target, ..old.outputs }),
            Pane::Resources => new.resources == (TableState { selected: target, scroll_offset: target, ..old.resources }),
            Pane::Events => new.events == (TableState { selected: target, scroll_offset: target, ..old.events }),
            Pane::ChangeSets => new.change_sets == (TableState { selected: target, scroll_offset: target, ..old.change_sets }),
        }
    } else {
        new == old
    }
}

fn page_down_by_control<T>(t: &mut TableState<T>, focus: InputFocus, count: usize)
    requires
        old(t).selected + 100 <= usize::MAX,
    ensures
        focus.same(InputFocus::Pagination) ==> *final(t) == (TableState {
            selected: min_usize((old(t).selected + old(t).page_size.rows()) as usize, sat_sub(count, old(t).page_size.rows())),
            scroll_offset: min_usize((old(t).selected + old(t).page_size.rows()) as usize, sat_sub(count, old(t).page_size.rows())),
            ..*old(t)
        }),
        !focus.same(InputFocus::Pagination) ==> *final(t) == *old(t),
{
    let page_size = t.page_size.value();
    focus.handle_page_down(&mut t.selected, &mut t.scroll_offset, page_size, count);
}

fn page_up_by_control<T>(t: &mut TableState<T>, focus: InputFocus)
    ensures
        focus.same(InputFocus::Pagination) ==> *final(t) == (TableState {
            selected: sat_sub(old(t).selected, old(t).page_size.rows()),
            scroll_offset: sat_sub(old(t).selected, old(t).page_size.rows()),
            ..*old(t)
        }),
        !focus.same(InputFocus::Pagination) ==> *final(t) == *old(t),
{
    let page_size = t.page_size.value();
    focus.handle_page_up(&mut t.selected, &mut t.scroll_offset, page_size);
}

fn page_down_control_in(st: &mut State)
    requires
        pane_selected(*old(st), list_pane(*old(st))) + 100 <= usize::MAX,
    ensures
        same_but(*final(st), *old(st), list_pane(*old(st))),
        pane_paged_by_control(*final(st), *old(st), list_pane(*old(st)), pane_count(*old(st), list_pane(*old(st)))),
{
    match list_pane_of(st) {
        Pane::Stacks => {
            let count = filtered_cloudformation_stacks(st).len();
            let focus = st.input_focus;
            page_down_by_control(&mut st.table, focus, count);
        },
        Pane::Parameters => {
            let count = filtered_parameters(st).len();
            let focus = st.parameters_input_focus;
            page_down_by_control(&mut st.parameters, focus, count);
        },
        Pane::Outputs => {
            let count = filtered_outputs(st).len();
            let focus = st.outputs_input_focus;
            page_down_by_control(&mut st.outputs, focus, count);
        },
        Pane::Resources => {
            let count = filtered_resources(st).len();
            let focus = st.resources_input_focus;
            page_down_by_control(&mut st.resources, focus, count);
        },
        Pane::Events => {
            let count = filtered_events(st).len();
            let focus = st.events_input_focus;
            page_down_by_control(&mut st.events, focus, count);
        },
        Pane::ChangeSets => {
            let count = filtered_change_sets(st).len();
            let focus = st.change_sets_input_focus;
            page_down_by_control(&mut st.change_sets, focus, count);
        },
    }
}

/// In the filter bar: one page down through the pagination control of the table
/// list keys act on, when that control has the focus.
pub fn page_down_filter_input(app: &mut App)
    requires
        pane_selected(old(app).cfn_state, list_pane(old(app).cfn_state)) + 100 <= usize::MAX,
    ensures
        same_but(final(app).cfn_state, old(app).cfn_state, list_pane(old(app).cfn_state)),
        pane_paged_by_control(
            final(app).cfn_state,
            old(app).cfn_state,
            list_pane(old(app).cfn_state),
            pane_count(old(app).cfn_state, list_pane(old(app).cfn_state)),
        ),
        final(app).unchanged_except(*old(app), Service::CloudFormation),
        final(app).keeps_shell(*old(app)),
{
    page_down_control_in(&mut app.cfn_state);
}

fn page_up_control_in(st: &mut State)
    ensures
        same_but(*final(st), *old(st), list_pane(*old(st))),
        pane_paged_up_by_control(*final(st), *old(st), list_pane(*old(st))),
{
    match list_pane_of(st) {
        Pane::Stacks => {
            let focus = st.input_focus;
            page_up_by_control(&mut st.table, focus);
        },
        Pane::Parameters => {
            let focus = st.parameters_input_focus;
            page_up_by_control(&mut st.parameters, focus);
        },
        Pane::Outputs => {
            let focus = st.outputs_input_focus;
            page_up_by_control(&mut st.outputs, focus);
        },
        Pane::Resources => {
            let focus = st.resources_input_focus;
            page_up_by_control(&mut st.resources, focus);
        },
        Pane::Events => {
            let focus = st.events_input_focus;
            page_up_by_control(&mut st.events, focus);
        },
        Pane::ChangeSets => {
            let focus = st.change_sets_input_focus;
            page_up_by_control(&mut st.change_sets, focus);
        },
    }
}

/// In the filter bar: one page up through the pagination control of the table
/// list keys act on, when that control has the focus.
pub fn page_up_filter_input(app: &mut App)
    ensures
        same_but(final(app).cfn_state, old(app).cfn_state, list_pane(old(app).cfn_state)),
        pane_paged_up_by_control(final(app).cfn_state, old(app).cfn_state, list_pane(old(app).cfn_state)),
        final(app).unchanged_except(*old(app), Service::CloudFormation),
        final(app).keeps_shell(*old(app)),
{
    page_up_control_in(&mut app.cfn_state);
}

fn page_down_in(st: &mut State)
    ensures
        same_but(*final(st), *old(st), list_pane(*old(st))),
        pane_paged_down(*final(st), *old(st), list_pane(*old(st)), pane_count(*old(st), list_pane(*old(st)))),
{
    match list_pane_of(st) {
        Pane::Stacks => {
            let count = filtered_cloudformation_stacks(st).len();
            st.table.page_down(count);
        },
        Pane::Parameters => {
            let count = filtered_parameters(st).len();
            st.parameters.page_down(count);
        },
        Pane::Outputs => {
            let count = filtered_outputs(st).len();
            st.outputs.page_down(count);
        },
        Pane::Resources => {
            let count = filtered_resources(st).len();
            st.resources.page_down(count);
        },
        Pane::Events => {
            let count = filtered_events(st).len();
            st.events.page_down(count);
        },
        Pane::ChangeSets => {
            let count = filtered_change_sets(st).len();
            st.change_sets.page_down(count);
        },
    }
}

/// One page down in the table list keys act on.
pub fn page_down_normal(app: &mut App)
    ensures
        same_but(final(app).cfn_state, old(app).cfn_state, list_pane(old(app).cfn_state)),
        pane_paged_down(
            final(app).cfn_state,
            old(app).cfn_state,
            list_pane(old(app).cfn_state),
            pane_count(old(app).cfn_state, list_pane(old(app).cfn_state)),
        ),
        final(app).unchanged_except(*old(app), Service::CloudFormation),
        final(app).keeps_shell(*old(app)),
{
    page_down_in(&mut app.cfn_state);
}

fn page_up_in(st: &mut State)
    ensures
        same_but(*final(st), *old(st), list_pane(*old(st))),
        pane_paged_up(*final(st), *old(st), list_pane(*old(st))),
{
    match list_pane_of(st) {
        Pane::Stacks => st.table.page_up(),
        Pane::Parameters => st.parameters.page_up(),
        Pane::Outputs => st.outputs.page_up(),
        Pane::Resources => st.resources.page_up(),
        Pane::Events => st.events.page_up(),
        Pane::ChangeSets => st.change_sets.page_up(),
    }
}

/// One page up in the table list keys act on.
pub fn page_up_normal(app: &mut App)
    ensures
        same_but(final(app).cfn_state, old(app).cfn_state, list_pane(old(app).cfn_state)),
        pane_paged_up(final(app).cfn_state, old(app).cfn_state, list_pane(old(app).cfn_state)),
        final(app).unchanged_except(*old(app), Service::CloudFormation),
        final(app).keeps_shell(*old(app)),
{
    page_up_in(&mut app.cfn_state);
}

fn toggle_detail_row_in(st: &mut State, p: Pane)
    requires
        p != Pane::Stacks,
    ensures
        same_but(*final(st), *old(st), p),
        pane_expand_toggled(*final(st), *old(st), p),
{
    match p {
        Pane::Parameters => st.parameters.toggle_expand(),
        Pane::Outputs => st.outputs.toggle_expand(),
        Pane::Resources => st.resources.toggle_expand(),
        Pane::Events => st.events.toggle_expand(),
        Pane::ChangeSets => st.change_sets.toggle_expand(),
        Pane::Stacks => {},
    }
}

fn collapse_in(st: &mut State, p: Pane)
    ensures
        same_but(*final(st), *old(st), p),
        pane_collapsed(*final(st), *old(st), p),
{
    match p {
        Pane::Stacks => st.table.collapse(),
        Pane::Parameters => st.parameters.collapse(),
        Pane::Outputs => st.outputs.collapse(),
        Pane::Resources => st.resources.collapse(),
        Pane::Events => st.events.collapse(),
        Pane::ChangeSets => st.change_sets.collapse(),
    }
}

/// With no stack open: opens the selected stack row (or closes it when open)
/// and, when it opened, scrolls so that its detail rows, one per visible column,
/// fit on the page. On an open stack: opens or closes the selected row of its
/// tab's table, if the tab has one.
pub fn expand_row(app: &mut App)
    requires
        old(app).cfn_state.table.selected + old(app).cfn_visible_column_ids@.len() + 1 <= usize::MAX,
    ensures
        ({
            let s = old(app).cfn_state;
            let t = final(app).cfn_state;
            match row_pane(s) {
                Some(Pane::Stacks) => {
                    &&& same_but(t, s, Pane::Stacks)
                    &&& s.table.expanded_item == Some(s.table.selected) ==> t.table.collapsed(s.table)
                    &&& s.table.expanded_item != Some(s.table.selected) ==> {
                        &&& t.table.expanded_item == Some(s.table.selected)
                        &&& t.table.selected == s.table.selected
                        &&& t.table.same_content(s.table)
                        &&& t.table.scroll_offset == crate::table::scroll_for_expansion(
                            s.table.selected as int,
                            s.table.scroll_offset as int,
                            old(app).cfn_visible_column_ids@.len() as int,
                            s.table.page_size.rows() as int,
                        )
                    }
                },
                Some(p) => same_but(t, s, p) && pane_expand_toggled(t, s, p),
                None => t == s,
            }
        }),
        final(app).unchanged_except(*old(app), Service::CloudFormation),
        final(app).keeps_shell(*old(app)),
{
    if app.cfn_state.current_stack.is_none() {
        app.cfn_state.table.toggle_expand();
        if app.cfn_state.table.expanded_item.is_some() {
            let detail_rows = app.cfn_visible_column_ids.len();
            let page_size = app.cfn_state.table.page_size.value();
            app.cfn_state.table.ensure_expansion_visible(detail_rows, page_size);
        }
    } else {
        match detail_pane_of(&app.cfn_state) {
            Some(p) => toggle_detail_row_in(&mut app.cfn_state, p),
            None => {},
        }
    }
}

/// Closes the open row of the stacks (no stack open) or of the open stack's
/// tab table, if the tab has one.
pub fn prev_pane(app: &mut App)
    ensures
        match row_pane(old(app).cfn_state) {
            Some(p) => same_but(final(app).cfn_state, old(app).cfn_state, p)
                && pane_collapsed(final(app).cfn_state, old(app).cfn_state, p),
            None => final(app).cfn_state == old(app).cfn_state,
        },
        final(app).unchanged_except(*old(app), Service::CloudFormation),
        final(app).keeps_shell(*old(app)),
{
    if app.cfn_state.current_stack.is_none() {
        collapse_in(&mut app.cfn_state, Pane::Stacks);
    } else {
        match detail_pane_of(&app.cfn_state) {
            Some(p) => collapse_in(&mut app.cfn_state, p),
            None => {},
        }
    }
}

/// Closes the open row, as `prev_pane` does.
pub fn collapse_row(app: &mut App)
    ensures
        match row_pane(old(app).cfn_state) {
            Some(p) => same_but(final(app).cfn_state, old(app).cfn_state, p)
                && pane_collapsed(final(app).cfn_state, old(app).cfn_state, p),
            None => final(app).cfn_state == old(app).cfn_state,
        },
        final(app).unchanged_except(*old(app), Service::CloudFormation),
        final(app).keeps_shell(*old(app)),
{
    if app.cfn_state.current_stack.is_some() {
        match detail_pane_of(&app.cfn_state) {
            Some(p) => collapse_in(&mut app.cfn_state, p),
            None => {},
        }
    } else {
        collapse_in(&mut app.cfn_state, Pane::Stacks);
    }
}

/// Jumps to page `page` among the stacks that pass the filters.
pub fn go_to_page(app: &mut App, page: usize)
    ensures
        same_but(final(app).cfn_state, old(app).cfn_state, Pane::Stacks),
        final(app).cfn_state.table.jumped(old(app).cfn_state.table, page as int, filtered_stack_rows(old(app).cfn_state).len() as int),
        final(app).unchanged_except(*old(app), Service::CloudFormation),
        final(app).keeps_shell(*old(app)),
{
    let count = filtered_cloudformation_stacks(&app.cfn_state).len();
    app.cfn_state.table.goto_page(page, count);
}

// ── Open / leave a stack ─────────────────────────────────────────────────────

fn clone_pairs(v: &Vec<(String, String)>) -> (r: Vec<(String, String)>)
    ensures
        r@ == v@,
{
    let mut r: Vec<(String, String)> = Vec::new();
    let mut i: usize = 0;
    while i < v.len()
        invariant
            i <= v@.len(),
            r@ == v@.take(i as int),
        decreases v@.len() - i,
    {
        r.push((v[i].0.clone(), v[i].1.clone()));
        assert(r@ =~= v@.take(i + 1));
        i = i + 1;
    }
    assert(v@.take(v@.len() as int) =~= v@);
    r
}

/// Opens the selected stack (among those that pass the filters): its tags, sorted
/// by key, fill the tag table from its first row, the stacks are marked for
/// loading and the tab is retitled.
pub fn select_item(app: &mut App)
    ensures
        ({
            let s = old(app).cfn_state;
            let t = final(app).cfn_state;
            let f = filtered_stack_rows(s);
            if s.current_stack is None && s.table.selected < f.len() {
                let st = s.table.items@[f[s.table.selected as int] as int];
                &&& t.current_stack == Some(st.name)
                &&& t.tags.items@.to_multiset() == st.tags@.to_multiset()
                &&& sorted_by_key(t.tags.items@)
                &&& t.tags.selected == 0 && t.tags.scroll_offset == 0 && t.tags.expanded_item is None
                &&& t.tags.loading == s.tags.loading && t.tags.filter@ == s.tags.filter@ && t.tags.page_size == s.tags.page_size
                &&& t.table == (TableState { loading: true, ..s.table })
                &&& t == (State { current_stack: t.current_stack, tags: t.tags, table: t.table, ..s })
                &&& string_names(final(app).tab_breadcrumb@) == final(app).current_breadcrumb()
            } else {
                t == s && final(app).tab_breadcrumb@ == old(app).tab_breadcrumb@
            }
        }),
        final(app).unchanged_except(*old(app), Service::CloudFormation),
        final(app).view_mode == old(app).view_mode,
        final(app).column_selector_index == old(app).column_selector_index,
        final(app).current_service == old(app).current_service,
{
    if app.cfn_state.current_stack.is_none() {
        let filtered = filtered_cloudformation_stacks(&app.cfn_state);
        match app.cfn_state.table.get_selected(&filtered) {
            Some(idx) => {
                proof {
                    crate::table::lemma_kept_indices_bounded(
                        app.cfn_state.table.items@.len(),
                        |k: int| crate::cfn::stack_kept(app.cfn_state, app.cfn_state.table.items@[k]),
                    );
                }
                let stack_name = app.cfn_state.table.items[idx].name.clone();
                let tags = sort_by_key(clone_pairs(&app.cfn_state.table.items[idx].tags));
                app.cfn_state.current_stack = Some(stack_name);
                app.cfn_state.tags.items = tags;
                app.cfn_state.tags.reset();
                app.cfn_state.table.loading = true;
                app.update_current_tab_breadcrumb();
            },
            None => {},
        }
    }
}

/// Leaves the open stack and retitles the tab.
pub fn go_back(app: &mut App)
    ensures
        final(app).cfn_state == (State { current_stack: None, ..old(app).cfn_state }),
        string_names(final(app).tab_breadcrumb@) == final(app).current_breadcrumb(),
        final(app).unchanged_except(*old(app), Service::CloudFormation),
        final(app).view_mode == old(app).view_mode,
        final(app).column_selector_index == old(app).column_selector_index,
        final(app).current_service == old(app).current_service,
{
    app.cfn_state.current_stack = None;
    app.update_current_tab_breadcrumb();
}

/// Opens the next tab of the stack.
pub fn next_detail_tab(app: &mut App)
    ensures
        final(app).cfn_state == (State { detail_tab: old(app).cfn_state.detail_tab.following(), ..old(app).cfn_state }),
        final(app).unchanged_except(*old(app), Service::CloudFormation),
        final(app).keeps_shell(*old(app)),
{
    app.cfn_state.detail_tab = app.cfn_state.detail_tab.next();
}

/// Opens the previous tab of the stack.
pub fn prev_detail_tab(app: &mut App)
    ensures
        final(app).cfn_state == (State { detail_tab: old(app).cfn_state.detail_tab.preceding(), ..old(app).cfn_state }),
        final(app).unchanged_except(*old(app), Service::CloudFormation),
        final(app).keeps_shell(*old(app)),
{
    app.cfn_state.detail_tab = app.cfn_state.detail_tab.prev();
}

/// Switches the events of the stack between the table and the timeline.
pub fn toggle_events_view(app: &mut App)
    ensures
        final(app).cfn_state == (State {
            events_view: if old(app).cfn_state.events_view == EventsView::Table { EventsView::Timeline } else { EventsView::Table },
            ..old(app).cfn_state
        }),
        final(app).unchanged_except(*old(app), Service::CloudFormation),
        final(app).keeps_shell(*old(app)),
{
    app.cfn_state.events_view = match app.cfn_state.events_view {
        EventsView::Table => EventsView::Timeline,
        EventsView::Timeline => EventsView::Table,
    };
}

/// The names of the stacks.
pub open spec fn stack_names(items: Seq<Stack>) -> Seq<Seq<char>> {
    items.map_values(|st: Stack| st.name@)
}

fn find_stack(items: &Vec<Stack>, name: &str) -> (r: Option<usize>)
    ensures
        r matches Some(j) ==> Some(j as int) == first_index_of(stack_names(items@), name@) && j < items@.len(),
        r is None ==> first_index_of(stack_names(items@), name@) is None,
{
    let ghost names = stack_names(items@);
    let n = items.len();
    let mut i: usize = 0;
    assert(names.take(0) =~= Seq::<Seq<char>>::empty());
    while i < n
        invariant
            n == items@.len(),
            i <= n,
            names == stack_names(items@),
            first_index_of(names.take(i as int), name@) is None,
        decreases n - i,
    {
        assert(names.take(i + 1).drop_last() =~= names.take(i as int));
        if str_eq(items[i].name.as_str(), name) {
            assert(first_index_of(names.take(i + 1), name@) == Some(i as int));
            proof {
                lemma_first_index_of_prefix(names, name@, i + 1);
            }
            return Some(i);
        }
        i = i + 1;
    }
    assert(names.take(n as int) =~= names);
    None
}

/// The open stack among the listed ones: the first with its name.
pub open spec fn open_stack(s: State) -> Option<Stack> {
    match s.current_stack {
        Some(n) => match first_index_of(stack_names(s.table.items@), n@) {
            Some(j) => Some(s.table.items@[j]),
            None => None,
        },
        None => None,
    }
}

/// The text that yanking copies: on the template of an open stack, the template
/// when there is one; on another tab, the id of the open stack; in the list, the
/// id of the selected stack. Nothing when there is no such text.
pub fn yank(app: &App) -> (r: Option<String>)
    ensures
        ({
            let s = app.cfn_state;
            let f = filtered_stack_rows(s);
            match s.current_stack {
                Some(n) => if s.detail_tab == DetailTab::Template {
                    if s.template_body@.len() > 0 {
                        r matches Some(t) && t@ == s.template_body@
                    } else {
                        r is None
                    }
                } else {
                    match open_stack(s) {
                        Some(st) => r matches Some(t) && t@ == st.stack_id@,
                        None => r is None,
                    }
                },
                None => if s.table.selected < f.len() {
                    r matches Some(t) && t@ == s.table.items@[f[s.table.selected as int] as int].stack_id@
                } else {
                    r is None
                },
            }
        }),
{
    match &app.cfn_state.current_stack {
        Some(stack_name) => {
            if app.cfn_state.detail_tab == DetailTab::Template {
                if app.cfn_state.template_body.as_str().unicode_len() > 0 {
                    return Some(app.cfn_state.template_body.clone());
                }
                return None;
            }
            match find_stack(&app.cfn_state.table.items, stack_name.as_str()) {
                Some(j) => Some(app.cfn_state.table.items[j].stack_id.clone()),
                None => None,
            }
        },
        None => {
            let filtered = filtered_cloudformation_stacks(&app.cfn_state);
            match app.cfn_state.table.get_selected(&filtered) {
                Some(idx) => {
                    proof {
                        crate::table::lemma_kept_indices_bounded(
                            app.cfn_state.table.items@.len(),
                            |k: int| crate::cfn::stack_kept(app.cfn_state, app.cfn_state.table.items@[k]),
                        );
                    }
                    Some(app.cfn_state.table.items[idx].stack_id.clone())
                },
                None => None,
            }
        },
    }
}

/// The console page of the open stack's tab, when the stack is listed, else of
/// the stacks.
pub fn console_url(app: &App) -> (r: String)
    ensures
        r@ == (match open_stack(app.cfn_state) {
            Some(st) => stack_tab_address(app.config.region@, st.stack_id@, app.cfn_state.detail_tab),
            None => stacks_address(app.config.region@),
        }),
{
    match &app.cfn_state.current_stack {
        Some(stack_name) => {
            match find_stack(&app.cfn_state.table.items, stack_name.as_str()) {
                Some(j) => {
                    return console_url_stack_detail_with_tab(
                        app.config.region.as_str(),
                        app.cfn_state.table.items[j].stack_id.as_str(),
                        &app.cfn_state.detail_tab,
                    );
                },
                None => {},
            }
        },
        None => {},
    }
    console_url_stacks(app.config.region.as_str())
}

// ── Column preferences ───────────────────────────────────────────────────────

/// The number of columns of the table on screen: the open stack's tab table's
/// (none on other tabs), else the stack table's.
pub open spec fn column_count_of(app: App) -> nat {
    if app.cfn_state.current_stack is Some {
        match app.cfn_state.detail_tab {
            DetailTab::Parameters => app.cfn_parameter_column_ids@.len(),
            DetailTab::Outputs => app.cfn_output_column_ids@.len(),
            DetailTab::Resources => app.cfn_resource_column_ids@.len(),
            DetailTab::Events => app.cfn_event_column_ids@.len(),
            DetailTab::ChangeSets => app.cfn_change_set_column_ids@.len(),
            _ => 0,
        }
    } else {
        app.cfn_column_ids@.len()
    }
}

/// The number of columns of the table on screen.
pub fn column_count(app: &App) -> (r: usize)
    ensures
        r == column_count_of(*app),
{
    if app.cfn_state.current_stack.is_some() {
        match app.cfn_state.detail_tab {
            DetailTab::Parameters => app.cfn_parameter_column_ids.len(),
            DetailTab::Outputs => app.cfn_output_column_ids.len(),
            DetailTab::Resources => app.cfn_resource_column_ids.len(),
            DetailTab::Events => app.cfn_event_column_ids.len(),
            DetailTab::ChangeSets => app.cfn_change_set_column_ids.len(),
            _ => 0,
        }
    } else {
        app.cfn_column_ids.len()
    }
}

/// The last row of the preferences panel.
pub fn column_selector_max(app: &App) -> (r: usize)
    requires
        column_count_of(*app) + 6 <= usize::MAX,
    ensures
        r == column_count_of(*app) + 6,
{
    column_count(app) + 6
}

/// Moves the preferences cursor to the page-size section, or from there back to the top.
pub fn next_preferences(app: &mut App)
    requires
        column_count_of(*old(app)) + 2 <= usize::MAX,
    ensures
        final(app).column_selector_index == (if old(app).column_selector_index < column_count_of(*old(app)) + 2 {
            column_count_of(*old(app)) + 2
        } else {
            0
        }),
        final(app).unchanged_except(*old(app), Service::Other),
        final(app).view_mode == old(app).view_mode,
        final(app).current_service == old(app).current_service,
        final(app).tab_breadcrumb@ == old(app).tab_breadcrumb@,
{
    let page_size_idx = column_count(app) + 2;
    app.column_selector_index = if app.column_selector_index < page_size_idx { page_size_idx } else { 0 };
}

/// Moves the preferences cursor back to the top from the page-size section, or
/// to the page-size section from the columns.
pub fn prev_preferences(app: &mut App)
    requires
        column_count_of(*old(app)) + 2 <= usize::MAX,
    ensures
        final(app).column_selector_index == (if old(app).column_selector_index >= column_count_of(*old(app)) + 2 {
            0
        } else {
            column_count_of(*old(app)) + 2
        }),
        final(app).unchanged_except(*old(app), Service::Other),
        final(app).view_mode == old(app).view_mode,
        final(app).current_service == old(app).current_service,
        final(app).tab_breadcrumb@ == old(app).tab_breadcrumb@,
{
    let page_size_idx = column_count(app) + 2;
    app.column_selector_index = if app.column_selector_index >= page_size_idx { 0 } else { page_size_idx };
}

fn pick_page_size<T>(t: &mut TableState<T>, idx: usize, n: usize)
    ensures
        *final(t) == (match page_size_choice(idx as int, n as int) {
            Some(p) => TableState { page_size: p, ..*old(t) },
            None => *old(t),
        }),
{
    match page_size_at(idx, n) {
        Some(p) => t.page_size = p,
        None => {},
    }
}

/// `t` with the page size of preferences row `idx` after `n` column rows.
pub open spec fn with_page_size<T>(t: TableState<T>, idx: int, n: int) -> TableState<T> {
    match page_size_choice(idx, n) {
        Some(p) => TableState { page_size: p, ..t },
        None => t,
    }
}

/// Preferences row `idx` applied to the parameters table: its column
/// `idx` toggled among `cfn_parameter_visible_column_ids` (the last one stays), or its page size picked.
pub open spec fn parameters_columns_toggled(new: App, old: App, idx: int) -> bool {
    &&& id_names(new.cfn_parameter_visible_column_ids@) == toggled_at(id_names(old.cfn_parameter_visible_column_ids@), id_names(old.cfn_parameter_column_ids@), idx, true)
    &&& new.cfn_state == (State { parameters: with_page_size(old.cfn_state.parameters, idx, old.cfn_parameter_column_ids@.len() as int), ..old.cfn_state })
    &&& new == (App { cfn_parameter_visible_column_ids: new.cfn_parameter_visible_column_ids, cfn_state: new.cfn_state, ..old })
}

fn toggle_parameters_column(app: &mut App, idx: usize)
    ensures
        parameters_columns_toggled(*final(app), *old(app), idx as int),
{
    toggle_visible(&mut app.cfn_parameter_visible_column_ids, &app.cfn_parameter_column_ids, idx, true);
    pick_page_size(&mut app.cfn_state.parameters, idx, app.cfn_parameter_column_ids.len());
}

/// Preferences row `idx` applied to the outputs table: its column
/// `idx` toggled among `cfn_output_visible_column_ids` (the last one stays), or its page size picked.
pub open spec fn outputs_columns_toggled(new: App, old: App, idx: int) -> bool {
    &&& id_names(new.cfn_output_visible_column_ids@) == toggled_at(id_names(old.cfn_output_visible_column_ids@), id_names(old.cfn_output_column_ids@), idx, true)
    &&& new.cfn_state == (State { outputs: with_page_size(old.cfn_state.outputs, idx, old.cfn_output_column_ids@.len() as int), ..old.cfn_state })
    &&& new == (App { cfn_output_visible_column_ids: new.cfn_output_visible_column_ids, cfn_state: new.cfn_state, ..old })
}

fn toggle_outputs_column(app: &mut App, idx: usize)
    ensures
        outputs_columns_toggled(*final(app), *old(app), idx as int),
{
    toggle_visible(&mut app.cfn_output_visible_column_ids, &app.cfn_output_column_ids, idx, true);
    pick_page_size(&mut app.cfn_state.outputs, idx, app.cfn_output_column_ids.len());
}

/// Preferences row `idx` applied to the resources table: its column
/// `idx` toggled among `cfn_resource_visible_column_ids` (the last one stays), or its page size picked.
pub open spec fn resources_columns_toggled(new: App, old: App, idx: int) -> bool {
    &&& id_names(new.cfn_resource_visible_column_ids@) == toggled_at(id_names(old.cfn_resource_visible_column_ids@), id_names(old.cfn_resource_column_ids@), idx, true)
    &&& new.cfn_state == (State { resources: with_page_size(old.cfn_state.resources, idx, old.cfn_resource_column_ids@.len() as int), ..old.cfn_state })
    &&& new == (App { cfn_resource_visible_column_ids: new.cfn_resource_visible_column_ids, cfn_state: new.cfn_state, ..old })
}

fn toggle_resources_column(app: &mut App, idx: usize)
    ensures
        resources_columns_toggled(*final(app), *old(app), idx as int),
{
    toggle_visible(&mut app.cfn_resource_visible_column_ids, &app.cfn_resource_column_ids, idx, true);
    pick_page_size(&mut app.cfn_state.resources, idx, app.cfn_resource_column_ids.len());
}

/// Preferences row `idx` applied to the events table: its column
/// `idx` toggled among `cfn_event_visible_column_ids` (the last one stays), or its page size picked.
pub open spec fn events_columns_toggled(new: App, old: App, idx: int) -> bool {
    &&& id_names(new.cfn_event_visible_column_ids@) == toggled_at(id_names(old.cfn_event_visible_column_ids@), id_names(old.cfn_event_column_ids@), idx, true)
    &&& new.cfn_state == (State { events: with_page_size(old.cfn_state.events, idx, old.cfn_event_column_ids@.len() as int), ..old.cfn_state })
    &&& new == (App { cfn_event_visible_column_ids: new.cfn_event_visible_column_ids, cfn_state: new.cfn_state, ..old })
}

fn toggle_events_column(app: &mut App, idx: usize)
    ensures
        events_columns_toggled(*final(app), *old(app), idx as int),
{
    toggle_visible(&mut app.cfn_event_visible_column_ids, &app.cfn_event_column_ids, idx, true);
    pick_page_size(&mut app.cfn_state.events, idx, app.cfn_event_column_ids.len());
}

/// Preferences row `idx` applied to the change sets table: its column
/// `idx` toggled among `cfn_change_set_visible_column_ids` (the last one stays), or its page size picked.
pub open spec fn change_sets_columns_toggled(new: App, old: App, idx: int) -> bool {
    &&& id_names(new.cfn_change_set_visible_column_ids@) == toggled_at(id_names(old.cfn_change_set_visible_column_ids@), id_names(old.cfn_change_set_column_ids@), idx, true)
    &&& new.cfn_state == (State { change_sets: with_page_size(old.cfn_state.change_sets, idx, old.cfn_change_set_column_ids@.len() as int), ..old.cfn_state })
    &&& new == (App { cfn_change_set_visible_column_ids: new.cfn_change_set_visible_column_ids, cfn_state: new.cfn_state, ..old })
}

fn toggle_change_sets_column(app: &mut App, idx: usize)
    ensures
        change_sets_columns_toggled(*final(app), *old(app), idx as int),
{
    toggle_visible(&mut app.cfn_change_set_visible_column_ids, &app.cfn_change_set_column_ids, idx, true);
    pick_page_size(&mut app.cfn_state.change_sets, idx, app.cfn_change_set_column_ids.len());
}

/// Preferences row `idx` applied to the table table: its column
/// `idx` toggled among `cfn_visible_column_ids` (the last one stays), or its page size picked.
pub open spec fn table_columns_toggled(new: App, old: App, idx: int) -> bool {
    &&& id_names(new.cfn_visible_column_ids@) == toggled_at(id_names(old.cfn_visible_column_ids@), id_names(old.cfn_column_ids@), idx, true)
    &&& new.cfn_state == (State { table: with_page_size(old.cfn_state.table, idx, old.cfn_column_ids@.len() as int), ..old.cfn_state })
    &&& new == (App { cfn_visible_column_ids: new.cfn_visible_column_ids, cfn_state: new.cfn_state, ..old })
}

fn toggle_table_column(app: &mut App, idx: usize)
    ensures
        table_columns_toggled(*final(app), *old(app), idx as int),
{
    toggle_visible(&mut app.cfn_visible_column_ids, &app.cfn_column_ids, idx, true);
    pick_page_size(&mut app.cfn_state.table, idx, app.cfn_column_ids.len());
}

/// What preferences row `idx` does: on the stack-info tab it picks the tag
/// table's page size; on a tab with a table it toggles that table's column or
/// picks its page size; on other tabs nothing; with no stack open it acts on
/// the stack table.
pub open spec fn toggled_columns(new: App, old: App, idx: int) -> bool {
    let s = old.cfn_state;
    if s.current_stack is Some {
        match s.detail_tab {
            DetailTab::StackInfo => new == (App { cfn_state: State { tags: with_page_size(s.tags, idx, 1), ..s }, ..old }),
            DetailTab::Parameters => parameters_columns_toggled(new, old, idx),
            DetailTab::Outputs => outputs_columns_toggled(new, old, idx),
            DetailTab::Resources => resources_columns_toggled(new, old, idx),
            DetailTab::Events => events_columns_toggled(new, old, idx),
            DetailTab::ChangeSets => change_sets_columns_toggled(new, old, idx),
            _ => new == old,
        }
    } else {
        table_columns_toggled(new, old, idx)
    }
}

/// Preferences row `column_selector_index` (see `toggled_columns`).
pub fn toggle_column(app: &mut App)
    ensures
        toggled_columns(*final(app), *old(app), old(app).column_selector_index as int),
{
    let idx = app.column_selector_index;
    if app.cfn_state.current_stack.is_some() {
        match app.cfn_state.detail_tab {
            DetailTab::StackInfo => pick_page_size(&mut app.cfn_state.tags, idx, 1),
            DetailTab::Parameters => toggle_parameters_column(app, idx),
            DetailTab::Outputs => toggle_outputs_column(app, idx),
            DetailTab::Resources => toggle_resources_column(app, idx),
            DetailTab::Events => toggle_events_column(app, idx),
            DetailTab::ChangeSets => toggle_change_sets_column(app, idx),
            _ => {},
        }
    } else {
        toggle_table_column(app, idx);
    }
}

/// The breadcrumb of the view: `CloudFormation`, then the open stack or `Stacks`.
pub open spec fn breadcrumb_of(s: State) -> Seq<Seq<char>> {
    match s.current_stack {
        Some(n) => seq!["CloudFormation"@, n@],
        None => seq!["CloudFormation"@, "Stacks"@],
    }
}

/// The breadcrumb of the view.
pub fn breadcrumb(app: &App) -> (r: Vec<String>)
    ensures
        string_names(r@) == breadcrumb_of(app.cfn_state),
{
    let mut parts = vec![String::from_str("CloudFormation")];
    match &app.cfn_state.current_stack {
        Some(n) => parts.push(n.clone()),
        None => parts.push(String::from_str("Stacks")),
    }
    assert(string_names(parts@) =~= breadcrumb_of(app.cfn_state));
    parts
}

} // verus!

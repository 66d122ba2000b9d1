//! Key-handling actions of the IAM views: users, roles and groups.
use vstd::prelude::*;
use vstd::string::*;
use crate::app::{App, Service, ViewMode};
use crate::columns::{id_names, string_names, toggle_visible, toggled, toggled_at};
use crate::common::{cycle_next, cycle_prev, first_index_of, lemma_first_index_of_prefix, min_usize, sat_sub, InputFocus, PageSize};
use crate::iam::{
    arn_of, filtered_group_rows, filtered_group_user_rows, filtered_group_users, filtered_iam_groups,
    filtered_iam_policies, filtered_iam_roles, filtered_iam_tags, filtered_iam_users, filtered_last_accessed,
    filtered_last_accessed_rows, filtered_policy_rows, filtered_role_rows, filtered_tag_rows, filtered_user_rows,
    filtered_user_tag_rows, filtered_user_tags, format_arn, groups_address, history_filter_focus,
    last_accessed_filter_control_list, last_accessed_filter_controls, policy_filter_control_list,
    policy_filter_controls, policy_type_dropdown, role_detail_address, role_policy_address,
    simple_filter_control_list, simple_filter_controls, user_detail_address, GroupTab, IamRole, IamUser, RoleTab,
    State, UserTab,
};
use crate::table::{min_int, TableState};
use crate::text::{line_count, line_count_of, str_eq};

verus! {

/// Whether a user is open.
pub open spec fn user_open(s: State) -> bool {
    s.current_user is Some
}

/// Whether a role is open.
pub open spec fn role_open(s: State) -> bool {
    s.current_role is Some
}

/// Whether a group is open.
pub open spec fn group_open(s: State) -> bool {
    s.current_group is Some
}

// ── Filter reset ─────────────────────────────────────────────────────────────

/// Puts the open user's tag and policy tables, else the user table, back at
/// their first row.
pub fn apply_filter_reset_users(app: &mut App)
    ensures
        ({
            let s = old(app).iam_state;
            let t = final(app).iam_state;
            if user_open(s) {
                &&& t == (State { user_tags: t.user_tags, policies: t.policies, ..s })
                &&& t.user_tags.was_reset(s.user_tags) && t.policies.was_reset(s.policies)
            } else {
                t == (State { users: t.users, ..s }) && t.users.was_reset(s.users)
            }
        }),
        final(app).unchanged_except(*old(app), Service::IamUsers),
        final(app).keeps_shell(*old(app)),
{
    if app.iam_state.current_user.is_some() {
        app.iam_state.user_tags.reset();
        app.iam_state.policies.reset();
    } else {
        app.iam_state.users.reset();
    }
}

/// Puts the open role's tag and policy tables, else the role table, back at
/// their first row.
pub fn apply_filter_reset_roles(app: &mut App)
    ensures
        ({
            let s = old(app).iam_state;
            let t = final(app).iam_state;
            if role_open(s) {
                &&& t == (State { tags: t.tags, policies: t.policies, ..s })
                &&& t.tags.was_reset(s.tags) && t.policies.was_reset(s.policies)
            } else {
                t == (State { roles: t.roles, ..s }) && t.roles.was_reset(s.roles)
            }
        }),
        final(app).unchanged_except(*old(app), Service::IamRoles),
        final(app).keeps_shell(*old(app)),
{
    if app.iam_state.current_role.is_some() {
        app.iam_state.tags.reset();
        app.iam_state.policies.reset();
    } else {
        app.iam_state.roles.reset();
    }
}

/// Puts the open group's policy and user tables, else the group table, back at
/// their first row.
pub fn apply_filter_reset_groups(app: &mut App)
    ensures
        ({
            let s = old(app).iam_state;
            let t = final(app).iam_state;
            if group_open(s) {
                &&& t == (State { policies: t.policies, group_users: t.group_users, ..s })
                &&& t.policies.was_reset(s.policies) && t.group_users.was_reset(s.group_users)
            } else {
                t == (State { groups: t.groups, ..s }) && t.groups.was_reset(s.groups)
            }
        }),
        final(app).unchanged_except(*old(app), Service::IamGroups),
        final(app).keeps_shell(*old(app)),
{
    if app.iam_state.current_group.is_some() {
        app.iam_state.policies.reset();
        app.iam_state.group_users.reset();
    } else {
        app.iam_state.groups.reset();
    }
}

/// Puts the role table back at its first row when the view is chosen.
pub fn reset_on_service_select_roles(app: &mut App)
    ensures
        final(app).iam_state == (State { roles: final(app).iam_state.roles, ..old(app).iam_state }),
        final(app).iam_state.roles.was_reset(old(app).iam_state.roles),
        final(app).unchanged_except(*old(app), Service::IamRoles),
        final(app).keeps_shell(*old(app)),
{
    app.iam_state.roles.reset();
}

/// Puts the user table back at its first row when the view is chosen.
pub fn reset_on_service_select_users(app: &mut App)
    ensures
        final(app).iam_state == (State { users: final(app).iam_state.users, ..old(app).iam_state }),
        final(app).iam_state.users.was_reset(old(app).iam_state.users),
        final(app).unchanged_except(*old(app), Service::IamUsers),
        final(app).keeps_shell(*old(app)),
{
    app.iam_state.users.reset();
}

/// Puts the group table back at its first row when the view is chosen.
pub fn reset_on_service_select_groups(app: &mut App)
    ensures
        final(app).iam_state == (State { groups: final(app).iam_state.groups, ..old(app).iam_state }),
        final(app).iam_state.groups.was_reset(old(app).iam_state.groups),
        final(app).unchanged_except(*old(app), Service::IamGroups),
        final(app).keeps_shell(*old(app)),
{
    app.iam_state.groups.reset();
}

// ── Filter focus ─────────────────────────────────────────────────────────────

/// On an open role: the next control of the policy filter bar; else of the
/// role filter bar.
pub fn next_filter_focus_roles(app: &mut App)
    ensures
        ({
            let s = old(app).iam_state;
            if role_open(s) {
                final(app).iam_state == (State { policy_input_focus: cycle_next(policy_filter_controls(), s.policy_input_focus), ..s })
            } else {
                final(app).iam_state == (State { role_input_focus: cycle_next(simple_filter_controls(), s.role_input_focus), ..s })
            }
        }),
        final(app).unchanged_except(*old(app), Service::IamRoles),
        final(app).keeps_shell(*old(app)),
{
    if app.iam_state.current_role.is_some() {
        let c = policy_filter_control_list();
        app.iam_state.policy_input_focus = app.iam_state.policy_input_focus.next(c.as_slice());
    } else {
        let c = simple_filter_control_list();
        app.iam_state.role_input_focus = app.iam_state.role_input_focus.next(c.as_slice());
    }
}

/// On an open role: the previous control of the policy filter bar; else of the
/// role filter bar.
pub fn prev_filter_focus_roles(app: &mut App)
    ensures
        ({
            let s = old(app).iam_state;
            if role_open(s) {
                final(app).iam_state == (State { policy_input_focus: cycle_prev(policy_filter_controls(), s.policy_input_focus), ..s })
            } else {
                final(app).iam_state == (State { role_input_focus: cycle_prev(simple_filter_controls(), s.role_input_focus), ..s })
            }
        }),
        final(app).unchanged_except(*old(app), Service::IamRoles),
        final(app).keeps_shell(*old(app)),
{
    if app.iam_state.current_role.is_some() {
        let c = policy_filter_control_list();
        app.iam_state.policy_input_focus = app.iam_state.policy_input_focus.prev(c.as_slice());
    } else {
        let c = simple_filter_control_list();
        app.iam_state.role_input_focus = app.iam_state.role_input_focus.prev(c.as_slice());
    }
}

/// The next control of the filter bar of the user view's tab: the policy bar on
/// the permissions tab, the last-accessed bar on that tab, else the user bar.
pub fn next_filter_focus_users(app: &mut App)
    ensures
        ({
            let s = old(app).iam_state;
            if s.user_tab == UserTab::Permissions {
                final(app).iam_state == (State { policy_input_focus: cycle_next(policy_filter_controls(), s.policy_input_focus), ..s })
            } else if s.user_tab == UserTab::LastAccessed {
                final(app).iam_state == (State {
                    last_accessed_input_focus: cycle_next(last_accessed_filter_controls(), s.last_accessed_input_focus),
                    ..s
                })
            } else {
                final(app).iam_state == (State { user_input_focus: cycle_next(simple_filter_controls(), s.user_input_focus), ..s })
            }
        }),
        final(app).unchanged_except(*old(app), Service::IamUsers),
        final(app).keeps_shell(*old(app)),
{
    if app.iam_state.user_tab == UserTab::Permissions {
        let c = policy_filter_control_list();
        app.iam_state.policy_input_focus = app.iam_state.policy_input_focus.next(c.as_slice());
    } else if app.iam_state.user_tab == UserTab::LastAccessed {
        let c = last_accessed_filter_control_list();
        app.iam_state.last_accessed_input_focus = app.iam_state.last_accessed_input_focus.next(c.as_slice());
    } else {
        let c = simple_filter_control_list();
        app.iam_state.user_input_focus = app.iam_state.user_input_focus.next(c.as_slice());
    }
}

/// The previous control of the filter bar of the user view's tab.
pub fn prev_filter_focus_users(app: &mut App)
    ensures
        ({
            let s = old(app).iam_state;
            if s.user_tab == UserTab::Permissions {
                final(app).iam_state == (State { policy_input_focus: cycle_prev(policy_filter_controls(), s.policy_input_focus), ..s })
            } else if s.user_tab == UserTab::LastAccessed {
                final(app).iam_state == (State {
                    last_accessed_input_focus: cycle_prev(last_accessed_filter_controls(), s.last_accessed_input_focus),
                    ..s
                })
            } else {
                final(app).iam_state == (State { user_input_focus: cycle_prev(simple_filter_controls(), s.user_input_focus), ..s })
            }
        }),
        final(app).unchanged_except(*old(app), Service::IamUsers),
        final(app).keeps_shell(*old(app)),
{
    if app.iam_state.user_tab == UserTab::Permissions {
        let c = policy_filter_control_list();
        app.iam_state.policy_input_focus = app.iam_state.policy_input_focus.prev(c.as_slice());
    } else if app.iam_state.user_tab == UserTab::LastAccessed {
        let c = last_accessed_filter_control_list();
        app.iam_state.last_accessed_input_focus = app.iam_state.last_accessed_input_focus.prev(c.as_slice());
    } else {
        let c = simple_filter_control_list();
        app.iam_state.user_input_focus = app.iam_state.user_input_focus.prev(c.as_slice());
    }
}

/// The next control of the group filter bar.
pub fn next_filter_focus_groups(app: &mut App)
    ensures
        final(app).iam_state == (State {
            group_input_focus: cycle_next(simple_filter_controls(), old(app).iam_state.group_input_focus),
            ..old(app).iam_state
        }),
        final(app).unchanged_except(*old(app), Service::IamGroups),
        final(app).keeps_shell(*old(app)),
{
    let c = simple_filter_control_list();
    app.iam_state.group_input_focus = app.iam_state.group_input_focus.next(c.as_slice());
}

/// The previous control of the group filter bar.
pub fn prev_filter_focus_groups(app: &mut App)
    ensures
        final(app).iam_state == (State {
            group_input_focus: cycle_prev(simple_filter_controls(), old(app).iam_state.group_input_focus),
            ..old(app).iam_state
        }),
        final(app).unchanged_except(*old(app), Service::IamGroups),
        final(app).keeps_shell(*old(app)),
{
    let c = simple_filter_control_list();
    app.iam_state.group_input_focus = app.iam_state.group_input_focus.prev(c.as_slice());
}

/// Whether the pagination control of the role list has the focus.
pub fn is_pagination_focused_roles(app: &App) -> (r: bool)
    ensures
        r == (!role_open(app.iam_state) && app.iam_state.role_input_focus.same(InputFocus::Pagination)),
{
    app.iam_state.current_role.is_none() && app.iam_state.role_input_focus.is(&InputFocus::Pagination)
}

/// Whether the filter input of the role list has the focus.
pub fn is_filter_focused_roles(app: &App) -> (r: bool)
    ensures
        r == (!role_open(app.iam_state) && app.iam_state.role_input_focus.same(InputFocus::Filter)),
{
    app.iam_state.current_role.is_none() && app.iam_state.role_input_focus.is(&InputFocus::Filter)
}

/// Whether the filter input of a policy table has the focus.
pub fn is_filter_focused_policy_view(app: &App) -> (r: bool)
    ensures
        r == app.iam_state.policy_input_focus.same(InputFocus::Filter),
{
    app.iam_state.policy_input_focus.is(&InputFocus::Filter)
}

/// Whether the pagination control of a policy table has the focus.
pub fn is_pagination_focused_policy_view(app: &App) -> (r: bool)
    ensures
        r == app.iam_state.policy_input_focus.same(InputFocus::Pagination),
{
    app.iam_state.policy_input_focus.is(&InputFocus::Pagination)
}

// ── Navigation ───────────────────────────────────────────────────────────────

/// The last line a document can be scrolled to.
pub open spec fn last_line(doc: Seq<char>) -> int {
    if line_count_of(doc) > 0 { line_count_of(doc) - 1 } else { 0 }
}

fn last_line_exec(doc: &String) -> (r: usize)
    ensures
        r == last_line(doc@),
{
    let n = line_count(doc.as_str());
    if n > 0 { n - 1 } else { 0 }
}

fn step_down(v: usize, step: usize, max: usize) -> (r: usize)
    ensures
        r == min_int(v + step, max as int),
{
    if v < max && max - v > step { v + step } else { max }
}

fn next_row<T>(t: &mut TableState<T>, n: usize)
    ensures
        final(t).moved_down(*old(t), n as int),
{
    if n > 0 {
        t.next_item(n);
    }
}

/// On an open user: the next tag on the tags tab, else the next policy. Else
/// the next user. Only rows that pass the filters count.
pub fn next_item_users(app: &mut App)
    ensures
        ({
            let s = old(app).iam_state;
            let t = final(app).iam_state;
            if user_open(s) && s.user_tab == UserTab::Tags {
                t == (State { user_tags: t.user_tags, ..s }) && t.user_tags.moved_down(s.user_tags, filtered_user_tag_rows(s).len() as int)
            } else if user_open(s) {
                t == (State { policies: t.policies, ..s }) && t.policies.moved_down(s.policies, filtered_policy_rows(s).len() as int)
            } else {
                t == (State { users: t.users, ..s }) && t.users.moved_down(s.users, filtered_user_rows(s).len() as int)
            }
        }),
        final(app).unchanged_except(*old(app), Service::IamUsers),
        final(app).keeps_shell(*old(app)),
{
    if app.iam_state.current_user.is_some() {
        if app.iam_state.user_tab == UserTab::Tags {
            let n = filtered_user_tags(&app.iam_state).len();
            next_row(&mut app.iam_state.user_tags, n);
        } else {
            let n = filtered_iam_policies(&app.iam_state).len();
            next_row(&mut app.iam_state.policies, n);
        }
    } else {
        let n = filtered_iam_users(&app.iam_state).len();
        next_row(&mut app.iam_state.users, n);
    }
}

/// On an open role: a line down the trust policy, a line down the revoke-sessions
/// text (at most 19), or the next row of the tag, last-accessed or policy table,
/// by tab. Else the next role.
pub fn next_item_roles(app: &mut App)
    ensures
        ({
            let s = old(app).iam_state;
            let t = final(app).iam_state;
            if role_open(s) {
                match s.role_tab {
                    RoleTab::TrustRelationships => t == (State {
                        trust_policy_scroll: min_int(s.trust_policy_scroll + 1, last_line(s.trust_policy_document@)) as usize,
                        ..s
                    }),
                    RoleTab::RevokeSessions => t == (State {
                        revoke_sessions_scroll: min_int(s.revoke_sessions_scroll + 1, 19) as usize,
                        ..s
                    }),
                    RoleTab::Tags => t == (State { tags: t.tags, ..s }) && t.tags.moved_down(s.tags, filtered_tag_rows(s).len() as int),
                    RoleTab::LastAccessed => t == (State { last_accessed_services: t.last_accessed_services, ..s })
                        && t.last_accessed_services.moved_down(s.last_accessed_services, filtered_last_accessed_rows(s).len() as int),
                    _ => t == (State { policies: t.policies, ..s }) && t.policies.moved_down(s.policies, filtered_policy_rows(s).len() as int),
                }
            } else {
                t == (State { roles: t.roles, ..s }) && t.roles.moved_down(s.roles, filtered_role_rows(s).len() as int)
            }
        }),
        final(app).unchanged_except(*old(app), Service::IamRoles),
        final(app).keeps_shell(*old(app)),
{
    if app.iam_state.current_role.is_some() {
        match app.iam_state.role_tab {
            RoleTab::TrustRelationships => {
                let max = last_line_exec(&app.iam_state.trust_policy_document);
                app.iam_state.trust_policy_scroll = step_down(app.iam_state.trust_policy_scroll, 1, max);
            },
            RoleTab::RevokeSessions => {
                app.iam_state.revoke_sessions_scroll = step_down(app.iam_state.revoke_sessions_scroll, 1, 19);
            },
            RoleTab::Tags => {
                let n = filtered_iam_tags(&app.iam_state).len();
                next_row(&mut app.iam_state.tags, n);
            },
            RoleTab::LastAccessed => {
                let n = filtered_last_accessed(&app.iam_state).len();
                next_row(&mut app.iam_state.last_accessed_services, n);
            },
            _ => {
                let n = filtered_iam_policies(&app.iam_state).len();
                next_row(&mut app.iam_state.policies, n);
            },
        }
    } else {
        let n = filtered_iam_roles(&app.iam_state).len();
        next_row(&mut app.iam_state.roles, n);
    }
}

/// On an open group: the next row of its user, policy or last-accessed table, by
/// tab. Else the next group. Only rows that pass the filters count.
pub fn next_item_groups(app: &mut App)
    ensures
        ({
            let s = old(app).iam_state;
            let t = final(app).iam_state;
            if group_open(s) {
                match s.group_tab {
                    GroupTab::Users => t == (State { group_users: t.group_users, ..s })
                        && t.group_users.moved_down(s.group_users, filtered_group_user_rows(s).len() as int),
                    GroupTab::Permissions => t == (State { policies: t.policies, ..s })
                        && t.policies.moved_down(s.policies, filtered_policy_rows(s).len() as int),
                    GroupTab::AccessAdvisor => t == (State { last_accessed_services: t.last_accessed_services, ..s })
                        && t.last_accessed_services.moved_down(s.last_accessed_services, filtered_last_accessed_rows(s).len() as int),
                }
            } else {
                t == (State { groups: t.groups, ..s }) && t.groups.moved_down(s.groups, filtered_group_rows(s).len() as int)
            }
        }),
        final(app).unchanged_except(*old(app), Service::IamGroups),
        final(app).keeps_shell(*old(app)),
{
    if app.iam_state.current_group.is_some() {
        match app.iam_state.group_tab {
            GroupTab::Users => {
                let n = filtered_group_users(&app.iam_state).len();
                next_row(&mut app.iam_state.group_users, n);
            },
            GroupTab::Permissions => {
                let n = filtered_iam_policies(&app.iam_state).len();
                next_row(&mut app.iam_state.policies, n);
            },
            GroupTab::AccessAdvisor => {
                let n = filtered_last_accessed(&app.iam_state).len();
                next_row(&mut app.iam_state.last_accessed_services, n);
            },
        }
    } else {
        let n = filtered_iam_groups(&app.iam_state).len();
        next_row(&mut app.iam_state.groups, n);
    }
}

/// The previous user.
pub fn prev_item_users(app: &mut App)
    ensures
        final(app).iam_state == (State { users: final(app).iam_state.users, ..old(app).iam_state }),
        final(app).iam_state.users.moved_up(old(app).iam_state.users),
        final(app).unchanged_except(*old(app), Service::IamUsers),
        final(app).keeps_shell(*old(app)),
{
    app.iam_state.users.prev_item();
}

/// On an open role: a line up the trust policy or revoke-sessions text, or the
/// previous row of the tag, last-accessed or policy table, by tab. Else the
/// previous role.
pub fn prev_item_roles(app: &mut App)
    ensures
        ({
            let s = old(app).iam_state;
            let t = final(app).iam_state;
            if role_open(s) {
                match s.role_tab {
                    RoleTab::TrustRelationships => t == (State { trust_policy_scroll: sat_sub(s.trust_policy_scroll, 1), ..s }),
                    RoleTab::RevokeSessions => t == (State { revoke_sessions_scroll: sat_sub(s.revoke_sessions_scroll, 1), ..s }),
                    RoleTab::Tags => t == (State { tags: t.tags, ..s }) && t.tags.moved_up(s.tags),
                    RoleTab::LastAccessed => t == (State { last_accessed_services: t.last_accessed_services, ..s })
                        && t.last_accessed_services.moved_up(s.last_accessed_services),
                    _ => t == (State { policies: t.policies, ..s }) && t.policies.moved_up(s.policies),
                }
            } else {
                t == (State { roles: t.roles, ..s }) && t.roles.moved_up(s.roles)
            }
        }),
        final(app).unchanged_except(*old(app), Service::IamRoles),
        final(app).keeps_shell(*old(app)),
{
    if app.iam_state.current_role.is_some() {
        match app.iam_state.role_tab {
            RoleTab::TrustRelationships => {
                let v = app.iam_state.trust_policy_scroll;
                app.iam_state.trust_policy_scroll = if v > 1 { v - 1 } else { 0 };
            },
            RoleTab::RevokeSessions => {
                let v = app.iam_state.revoke_sessions_scroll;
                app.iam_state.revoke_sessions_scroll = if v > 1 { v - 1 } else { 0 };
            },
            RoleTab::Tags => app.iam_state.tags.prev_item(),
            RoleTab::LastAccessed => app.iam_state.last_accessed_services.prev_item(),
            _ => app.iam_state.policies.prev_item(),
        }
    } else {
        app.iam_state.roles.prev_item();
    }
}

/// On an open group: the previous row of its user, policy or last-accessed
/// table, by tab. Else the previous group.
pub fn prev_item_groups(app: &mut App)
    ensures
        ({
            let s = old(app).iam_state;
            let t = final(app).iam_state;
            if group_open(s) {
                match s.group_tab {
                    GroupTab::Users => t == (State { group_users: t.group_users, ..s }) && t.group_users.moved_up(s.group_users),
                    GroupTab::Permissions => t == (State { policies: t.policies, ..s }) && t.policies.moved_up(s.policies),
                    GroupTab::AccessAdvisor => t == (State { last_accessed_services: t.last_accessed_services, ..s })
                        && t.last_accessed_services.moved_up(s.last_accessed_services),
                }
            } else {
                t == (State { groups: t.groups, ..s }) && t.groups.moved_up(s.groups)
            }
        }),
        final(app).unchanged_except(*old(app), Service::IamGroups),
        final(app).keeps_shell(*old(app)),
{
    if app.iam_state.current_group.is_some() {
        match app.iam_state.group_tab {
            GroupTab::Users => app.iam_state.group_users.prev_item(),
            GroupTab::Permissions => app.iam_state.policies.prev_item(),
            GroupTab::AccessAdvisor => app.iam_state.last_accessed_services.prev_item(),
        }
    } else {
        app.iam_state.groups.prev_item();
    }
}

/// `t` moved by its pagination control among `n` rows when `focus` is that
/// control: one page down, at most to the start of the last page.
pub open spec fn paged_down_by_control<T>(new: TableState<T>, old: TableState<T>, focus: InputFocus, n: int) -> bool {
    let target = min_usize((old.selected + old.page_size.rows()) as usize, sat_sub(n as usize, old.page_size.rows()));
    if focus.same(InputFocus::Pagination) {
        new == (TableState { selected: target, scroll_offset: target, ..old })
    } else {
        new == old
    }
}

/// `t` moved one page up by its pagination control when `focus` is that control.
pub open spec fn paged_up_by_control<T>(new: TableState<T>, old: TableState<T>, focus: InputFocus) -> bool {
    let target = sat_sub(old.selected, old.page_size.rows());
    if focus.same(InputFocus::Pagination) {
        new == (TableState { selected: target, scroll_offset: target, ..old })
    } else {
        new == old
    }
}

fn page_down_by<T>(t: &mut TableState<T>, focus: InputFocus, count: usize)
    requires
        old(t).selected + 100 <= usize::MAX,
    ensures
        paged_down_by_control(*final(t), *old(t), focus, count as int),
{
    let page_size = t.page_size.value();
    focus.handle_page_down(&mut t.selected, &mut t.scroll_offset, page_size, count);
}

fn page_up_by<T>(t: &mut TableState<T>, focus: InputFocus)
    ensures
        paged_up_by_control(*final(t), *old(t), focus),
{
    let page_size = t.page_size.value();
    focus.handle_page_up(&mut t.selected, &mut t.scroll_offset, page_size);
}

/// In the role filter bar: one page down through the pagination control.
pub fn page_down_filter_input_roles(app: &mut App)
    requires
        old(app).iam_state.roles.selected + 100 <= usize::MAX,
    ensures
        final(app).iam_state == (State { roles: final(app).iam_state.roles, ..old(app).iam_state }),
        paged_down_by_control(final(app).iam_state.roles, old(app).iam_state.roles, old(app).iam_state.role_input_focus,
            filtered_role_rows(old(app).iam_state).len() as int),
        final(app).unchanged_except(*old(app), Service::IamRoles),
        final(app).keeps_shell(*old(app)),
{
    let n = filtered_iam_roles(&app.iam_state).len();
    let focus = app.iam_state.role_input_focus;
    page_down_by(&mut app.iam_state.roles, focus, n);
}

/// In a policy filter bar: one page down through the pagination control.
pub fn page_down_filter_input_policy_view(app: &mut App)
    requires
        old(app).iam_state.policies.selected + 100 <= usize::MAX,
    ensures
        final(app).iam_state == (State { policies: final(app).iam_state.policies, ..old(app).iam_state }),
        paged_down_by_control(final(app).iam_state.policies, old(app).iam_state.policies, old(app).iam_state.policy_input_focus,
            filtered_policy_rows(old(app).iam_state).len() as int),
        final(app).unchanged_except(*old(app), Service::IamRoles),
        final(app).keeps_shell(*old(app)),
{
    let n = filtered_iam_policies(&app.iam_state).len();
    let focus = app.iam_state.policy_input_focus;
    page_down_by(&mut app.iam_state.policies, focus, n);
}

/// Ten users down, up to the last that passes the filter.
pub fn page_down_normal_users(app: &mut App)
    ensures
        ({
            let s = old(app).iam_state;
            let n = filtered_user_rows(s).len();
            final(app).iam_state == (State {
                users: TableState {
                    selected: if n > 0 { min_int(s.users.selected + 10, n - 1) as usize } else { s.users.selected },
                    ..s.users
                },
                ..s
            })
        }),
        final(app).unchanged_except(*old(app), Service::IamUsers),
        final(app).keeps_shell(*old(app)),
{
    let len = filtered_iam_users(&app.iam_state).len();
    crate::common::nav_page_down(&mut app.iam_state.users.selected, len, 10);
}

fn page_down_rows<T>(t: &mut TableState<T>, n: usize)
    ensures
        final(t).paged_down(*old(t), n as int),
{
    if n > 0 {
        t.page_down(n);
    }
}

/// One page down among the open role's policies, else among the roles.
pub fn page_down_normal_roles(app: &mut App)
    ensures
        ({
            let s = old(app).iam_state;
            let t = final(app).iam_state;
            if role_open(s) {
                t == (State { policies: t.policies, ..s }) && t.policies.paged_down(s.policies, filtered_policy_rows(s).len() as int)
            } else {
                t == (State { roles: t.roles, ..s }) && t.roles.paged_down(s.roles, filtered_role_rows(s).len() as int)
            }
        }),
        final(app).unchanged_except(*old(app), Service::IamRoles),
        final(app).keeps_shell(*old(app)),
{
    if app.iam_state.current_role.is_some() {
        let n = filtered_iam_policies(&app.iam_state).len();
        page_down_rows(&mut app.iam_state.policies, n);
    } else {
        let n = filtered_iam_roles(&app.iam_state).len();
        page_down_rows(&mut app.iam_state.roles, n);
    }
}

/// One page down in the open group's table of its tab, else among the groups.
pub fn page_down_normal_groups(app: &mut App)
    ensures
        ({
            let s = old(app).iam_state;
            let t = final(app).iam_state;
            if group_open(s) {
                match s.group_tab {
                    GroupTab::Users => t == (State { group_users: t.group_users, ..s })
                        && t.group_users.paged_down(s.group_users, filtered_group_user_rows(s).len() as int),
                    GroupTab::Permissions => t == (State { policies: t.policies, ..s })
                        && t.policies.paged_down(s.policies, filtered_policy_rows(s).len() as int),
                    GroupTab::AccessAdvisor => t == (State { last_accessed_services: t.last_accessed_services, ..s })
                        && t.last_accessed_services.paged_down(s.last_accessed_services, filtered_last_accessed_rows(s).len() as int),
                }
            } else {
                t == (State { groups: t.groups, ..s }) && t.groups.paged_down(s.groups, filtered_group_rows(s).len() as int)
            }
        }),
        final(app).unchanged_except(*old(app), Service::IamGroups),
        final(app).keeps_shell(*old(app)),
{
    if app.iam_state.current_group.is_some() {
        match app.iam_state.group_tab {
            GroupTab::Users => {
                let n = filtered_group_users(&app.iam_state).len();
                page_down_rows(&mut app.iam_state.group_users, n);
            },
            GroupTab::Permissions => {
                let n = filtered_iam_policies(&app.iam_state).len();
                page_down_rows(&mut app.iam_state.policies, n);
            },
            GroupTab::AccessAdvisor => {
                let n = filtered_last_accessed(&app.iam_state).len();
                page_down_rows(&mut app.iam_state.last_accessed_services, n);
            },
        }
    } else {
        let n = filtered_iam_groups(&app.iam_state).len();
        page_down_rows(&mut app.iam_state.groups, n);
    }
}

/// In the role filter bar: one page up through the pagination control.
pub fn page_up_filter_input_roles(app: &mut App)
    ensures
        final(app).iam_state == (State { roles: final(app).iam_state.roles, ..old(app).iam_state }),
        paged_up_by_control(final(app).iam_state.roles, old(app).iam_state.roles, old(app).iam_state.role_input_focus),
        final(app).unchanged_except(*old(app), Service::IamRoles),
        final(app).keeps_shell(*old(app)),
{
    let focus = app.iam_state.role_input_focus;
    page_up_by(&mut app.iam_state.roles, focus);
}

/// In a policy filter bar: one page up through the pagination control.
pub fn page_up_filter_input_policy_view(app: &mut App)
    ensures
        final(app).iam_state == (State { policies: final(app).iam_state.policies, ..old(app).iam_state }),
        paged_up_by_control(final(app).iam_state.policies, old(app).iam_state.policies, old(app).iam_state.policy_input_focus),
        final(app).unchanged_except(*old(app), Service::IamRoles),
        final(app).keeps_shell(*old(app)),
{
    let focus = app.iam_state.policy_input_focus;
    page_up_by(&mut app.iam_state.policies, focus);
}

/// One page up among the users.
pub fn page_up_normal_users(app: &mut App)
    ensures
        final(app).iam_state == (State { users: final(app).iam_state.users, ..old(app).iam_state }),
        final(app).iam_state.users.paged_up(old(app).iam_state.users),
        final(app).unchanged_except(*old(app), Service::IamUsers),
        final(app).keeps_shell(*old(app)),
{
    app.iam_state.users.page_up();
}

/// One page up among the open role's policies, else among the roles.
pub fn page_up_normal_roles(app: &mut App)
    ensures
        ({
            let s = old(app).iam_state;
            let t = final(app).iam_state;
            if role_open(s) {
                t == (State { policies: t.policies, ..s }) && t.policies.paged_up(s.policies)
            } else {
                t == (State { roles: t.roles, ..s }) && t.roles.paged_up(s.roles)
            }
        }),
        final(app).unchanged_except(*old(app), Service::IamRoles),
        final(app).keeps_shell(*old(app)),
{
    if app.iam_state.current_role.is_some() {
        app.iam_state.policies.page_up();
    } else {
        app.iam_state.roles.page_up();
    }
}

/// Jumps to page `page` among the users that pass the filter.
pub fn go_to_page_users(app: &mut App, page: usize)
    ensures
        final(app).iam_state == (State { users: final(app).iam_state.users, ..old(app).iam_state }),
        final(app).iam_state.users.jumped(old(app).iam_state.users, page as int, filtered_user_rows(old(app).iam_state).len() as int),
        final(app).unchanged_except(*old(app), Service::IamUsers),
        final(app).keeps_shell(*old(app)),
{
    let n = filtered_iam_users(&app.iam_state).len();
    app.iam_state.users.goto_page(page, n);
}

/// Jumps to page `page` among the roles that pass the filter.
pub fn go_to_page_roles(app: &mut App, page: usize)
    ensures
        final(app).iam_state == (State { roles: final(app).iam_state.roles, ..old(app).iam_state }),
        final(app).iam_state.roles.jumped(old(app).iam_state.roles, page as int, filtered_role_rows(old(app).iam_state).len() as int),
        final(app).unchanged_except(*old(app), Service::IamRoles),
        final(app).keeps_shell(*old(app)),
{
    let n = filtered_iam_roles(&app.iam_state).len();
    app.iam_state.roles.goto_page(page, n);
}

// ── Document scrolling ───────────────────────────────────────────────────────

/// Ten lines up the policy document.
pub fn scroll_up_policy_view(app: &mut App)
    ensures
        final(app).iam_state == (State { policy_scroll: sat_sub(old(app).iam_state.policy_scroll, 10), ..old(app).iam_state }),
        final(app).unchanged_except(*old(app), Service::IamRoles),
        final(app).keeps_shell(*old(app)),
{
    let v = app.iam_state.policy_scroll;
    app.iam_state.policy_scroll = if v > 10 { v - 10 } else { 0 };
}

/// Ten lines down the policy document, up to its last line.
pub fn scroll_down_policy_view(app: &mut App)
    ensures
        final(app).iam_state == (State {
            policy_scroll: min_int(old(app).iam_state.policy_scroll + 10, last_line(old(app).iam_state.policy_document@)) as usize,
            ..old(app).iam_state
        }),
        final(app).unchanged_except(*old(app), Service::IamRoles),
        final(app).keeps_shell(*old(app)),
{
    let max = last_line_exec(&app.iam_state.policy_document);
    app.iam_state.policy_scroll = step_down(app.iam_state.policy_scroll, 10, max);
}

/// Ten lines up the trust policy.
pub fn scroll_up_trust_policy(app: &mut App)
    ensures
        final(app).iam_state == (State { trust_policy_scroll: sat_sub(old(app).iam_state.trust_policy_scroll, 10), ..old(app).iam_state }),
        final(app).unchanged_except(*old(app), Service::IamRoles),
        final(app).keeps_shell(*old(app)),
{
    let v = app.iam_state.trust_policy_scroll;
    app.iam_state.trust_policy_scroll = if v > 10 { v - 10 } else { 0 };
}

/// Ten lines down the trust policy, up to its last line.
pub fn scroll_down_trust_policy(app: &mut App)
    ensures
        final(app).iam_state == (State {
            trust_policy_scroll: min_int(old(app).iam_state.trust_policy_scroll + 10, last_line(old(app).iam_state.trust_policy_document@)) as usize,
            ..old(app).iam_state
        }),
        final(app).unchanged_except(*old(app), Service::IamRoles),
        final(app).keeps_shell(*old(app)),
{
    let max = last_line_exec(&app.iam_state.trust_policy_document);
    app.iam_state.trust_policy_scroll = step_down(app.iam_state.trust_policy_scroll, 10, max);
}

/// Ten lines up the revoke-sessions text.
pub fn scroll_up_revoke_sessions(app: &mut App)
    ensures
        final(app).iam_state == (State { revoke_sessions_scroll: sat_sub(old(app).iam_state.revoke_sessions_scroll, 10), ..old(app).iam_state }),
        final(app).unchanged_except(*old(app), Service::IamRoles),
        final(app).keeps_shell(*old(app)),
{
    let v = app.iam_state.revoke_sessions_scroll;
    app.iam_state.revoke_sessions_scroll = if v > 10 { v - 10 } else { 0 };
}

/// Ten lines down the revoke-sessions text, up to line 19.
pub fn scroll_down_revoke_sessions(app: &mut App)
    ensures
        final(app).iam_state == (State {
            revoke_sessions_scroll: min_int(old(app).iam_state.revoke_sessions_scroll + 10, 19) as usize,
            ..old(app).iam_state
        }),
        final(app).unchanged_except(*old(app), Service::IamRoles),
        final(app).keeps_shell(*old(app)),
{
    app.iam_state.revoke_sessions_scroll = step_down(app.iam_state.revoke_sessions_scroll, 10, 19);
}

/// One line down the policy document, up to its last line.
pub fn scroll_down_policy_view_one(app: &mut App)
    ensures
        final(app).iam_state == (State {
            policy_scroll: min_int(old(app).iam_state.policy_scroll + 1, last_line(old(app).iam_state.policy_document@)) as usize,
            ..old(app).iam_state
        }),
        final(app).unchanged_except(*old(app), Service::IamRoles),
        final(app).keeps_shell(*old(app)),
{
    let max = last_line_exec(&app.iam_state.policy_document);
    app.iam_state.policy_scroll = step_down(app.iam_state.policy_scroll, 1, max);
}

/// One line up the policy document.
pub fn scroll_up_policy_view_one(app: &mut App)
    ensures
        final(app).iam_state == (State { policy_scroll: sat_sub(old(app).iam_state.policy_scroll, 1), ..old(app).iam_state }),
        final(app).unchanged_except(*old(app), Service::IamRoles),
        final(app).keeps_shell(*old(app)),
{
    let v = app.iam_state.policy_scroll;
    app.iam_state.policy_scroll = if v > 1 { v - 1 } else { 0 };
}

// ── Filter dropdowns ─────────────────────────────────────────────────────────

/// The position of a policy type among `All types`, `AWS managed` and
/// `Customer managed`; an unknown type counts as the first.
pub open spec fn policy_type_index(t: Seq<char>) -> int {
    if t == "AWS managed"@ { 1 } else if t == "Customer managed"@ { 2 } else { 0 }
}

/// The policy type at position `i` (taken modulo three).
pub open spec fn policy_type_at(i: int) -> Seq<char> {
    if i % 3 == 1 { "AWS managed"@ } else if i % 3 == 2 { "Customer managed"@ } else { "All types"@ }
}

fn policy_type_str(i: usize) -> (r: &'static str)
    requires
        i < 3,
    ensures
        r@ == policy_type_at(i as int),
{
    if i == 1 { "AWS managed" } else if i == 2 { "Customer managed" } else { "All types" }
}

fn policy_type_position(t: &str) -> (r: usize)
    ensures
        r == policy_type_index(t@),
{
    if str_eq(t, "AWS managed") {
        1
    } else if str_eq(t, "Customer managed") {
        2
    } else {
        0
    }
}

/// The next (`forward`) or previous policy type filter, with the policies back
/// at their first row.
pub open spec fn policy_type_cycled(t: State, s: State, forward: bool) -> bool {
    let i = policy_type_index(s.policy_type_filter@);
    &&& t.policy_type_filter@ == policy_type_at(if forward { i + 1 } else { i + 2 })
    &&& t.policies.was_reset(s.policies)
    &&& t == (State { policy_type_filter: t.policy_type_filter, policies: t.policies, ..s })
}

fn cycle_policy_type(st: &mut State, forward: bool)
    ensures
        policy_type_cycled(*final(st), *old(st), forward),
{
    let i = policy_type_position(st.policy_type_filter.as_str());
    let j = if forward { (i + 1) % 3 } else if i == 0 { 2 } else { i - 1 };
    proof {
        assert(policy_type_at(j as int) == policy_type_at(if forward { i + 1 } else { i + 2 }));
    }
    st.policy_type_filter = String::from_str(policy_type_str(j));
    st.policies.reset();
}

/// On the permissions tab with the policy type dropdown focused: the next policy
/// type. On the last-accessed tab with the history dropdown focused: the next
/// history filter, from the first row.
pub fn next_item_filter_input_users(app: &mut App)
    ensures
        ({
            let s = old(app).iam_state;
            let t = final(app).iam_state;
            if s.user_tab == UserTab::Permissions && s.policy_input_focus.same(policy_type_dropdown()) {
                policy_type_cycled(t, s, true)
            } else if s.user_tab == UserTab::LastAccessed && s.last_accessed_input_focus.same(history_filter_focus()) {
                &&& t == (State {
                    last_accessed_history_filter: s.last_accessed_history_filter.following(),
                    last_accessed_services: t.last_accessed_services,
                    ..s
                })
                &&& t.last_accessed_services.was_reset(s.last_accessed_services)
            } else {
                t == s
            }
        }),
        final(app).unchanged_except(*old(app), Service::IamUsers),
        final(app).keeps_shell(*old(app)),
{
    if app.iam_state.user_tab == UserTab::Permissions && app.iam_state.policy_input_focus.is(&InputFocus::Dropdown("PolicyType")) {
        cycle_policy_type(&mut app.iam_state, true);
    } else if app.iam_state.user_tab == UserTab::LastAccessed
        && app.iam_state.last_accessed_input_focus.is(&InputFocus::Dropdown("HistoryFilter")) {
        app.iam_state.last_accessed_history_filter = app.iam_state.last_accessed_history_filter.next();
        app.iam_state.last_accessed_services.reset();
    }
}

/// On the permissions tab with the policy type dropdown focused: the previous
/// policy type. On the last-accessed tab with the history dropdown focused: the
/// previous history filter, from the first row.
pub fn prev_item_filter_input_users(app: &mut App)
    ensures
        ({
            let s = old(app).iam_state;
            let t = final(app).iam_state;
            if s.user_tab == UserTab::Permissions && s.policy_input_focus.same(policy_type_dropdown()) {
                policy_type_cycled(t, s, false)
            } else if s.user_tab == UserTab::LastAccessed && s.last_accessed_input_focus.same(history_filter_focus()) {
                &&& t == (State {
                    last_accessed_history_filter: s.last_accessed_history_filter.preceding(),
                    last_accessed_services: t.last_accessed_services,
                    ..s
                })
                &&& t.last_accessed_services.was_reset(s.last_accessed_services)
            } else {
                t == s
            }
        }),
        final(app).unchanged_except(*old(app), Service::IamUsers),
        final(app).keeps_shell(*old(app)),
{
    if app.iam_state.user_tab == UserTab::Permissions && app.iam_state.policy_input_focus.is(&InputFocus::Dropdown("PolicyType")) {
        cycle_policy_type(&mut app.iam_state, false);
    } else if app.iam_state.user_tab == UserTab::LastAccessed
        && app.iam_state.last_accessed_input_focus.is(&InputFocus::Dropdown("HistoryFilter")) {
        app.iam_state.last_accessed_history_filter = app.iam_state.last_accessed_history_filter.prev();
        app.iam_state.last_accessed_services.reset();
    }
}

/// On the permissions tab with the policy type dropdown focused: the next policy type.
pub fn next_item_filter_input_roles(app: &mut App)
    ensures
        ({
            let s = old(app).iam_state;
            if s.role_tab == RoleTab::Permissions && s.policy_input_focus.same(policy_type_dropdown()) {
                policy_type_cycled(final(app).iam_state, s, true)
            } else {
                final(app).iam_state == s
            }
        }),
        final(app).unchanged_except(*old(app), Service::IamRoles),
        final(app).keeps_shell(*old(app)),
{
    if app.iam_state.role_tab == RoleTab::Permissions && app.iam_state.policy_input_focus.is(&InputFocus::Dropdown("PolicyType")) {
        cycle_policy_type(&mut app.iam_state, true);
    }
}

/// On the permissions tab with the policy type dropdown focused: the previous policy type.
pub fn prev_item_filter_input_roles(app: &mut App)
    ensures
        ({
            let s = old(app).iam_state;
            if s.role_tab == RoleTab::Permissions && s.policy_input_focus.same(policy_type_dropdown()) {
                policy_type_cycled(final(app).iam_state, s, false)
            } else {
                final(app).iam_state == s
            }
        }),
        final(app).unchanged_except(*old(app), Service::IamRoles),
        final(app).keeps_shell(*old(app)),
{
    if app.iam_state.role_tab == RoleTab::Permissions && app.iam_state.policy_input_focus.is(&InputFocus::Dropdown("PolicyType")) {
        cycle_policy_type(&mut app.iam_state, false);
    }
}

// ── Expand / collapse ────────────────────────────────────────────────────────

fn open_row<T>(t: &mut TableState<T>)
    ensures
        old(t).expanded_item is None ==> final(t).expanded_item == Some(old(t).selected) && final(t).selected == old(t).selected
            && final(t).scroll_offset == old(t).scroll_offset && final(t).same_content(*old(t)),
        old(t).expanded_item is Some ==> *final(t) == *old(t),
{
    if !t.is_expanded() {
        t.expand();
    }
}

fn close_row<T>(t: &mut TableState<T>)
    ensures
        old(t).expanded_item is Some ==> final(t).collapsed(*old(t)),
        old(t).expanded_item is None ==> *final(t) == *old(t),
{
    if t.has_expanded_item() {
        t.collapse();
    }
}

/// The selected row of `t` was opened, unless a row was open already.
pub open spec fn row_opened<T>(new: TableState<T>, old: TableState<T>) -> bool {
    &&& old.expanded_item is None ==> new.expanded_item == Some(old.selected) && new.selected == old.selected
        && new.scroll_offset == old.scroll_offset && new.same_content(old)
    &&& old.expanded_item is Some ==> new == old
}

/// The open row of `t` was closed, if any.
pub open spec fn row_closed<T>(new: TableState<T>, old: TableState<T>) -> bool {
    &&& old.expanded_item is Some ==> new.collapsed(old)
    &&& old.expanded_item is None ==> new == old
}

/// On an open user: opens the selected tag (tags tab) or policy, unless it is
/// the open one. Else opens the selected user when no user row is open.
pub fn expand_row_users(app: &mut App)
    ensures
        ({
            let s = old(app).iam_state;
            let t = final(app).iam_state;
            if user_open(s) && s.user_tab == UserTab::Tags {
                t == (State { user_tags: TableState { expanded_item: Some(s.user_tags.selected), ..s.user_tags }, ..s })
            } else if user_open(s) {
                &&& t == (State { policies: t.policies, ..s })
                &&& s.policies.expanded_item == Some(s.policies.selected) ==> t.policies == s.policies
                &&& s.policies.expanded_item != Some(s.policies.selected) ==> t.policies.expand_toggled(s.policies)
            } else {
                t == (State { users: t.users, ..s }) && row_opened(t.users, s.users)
            }
        }),
        final(app).unchanged_except(*old(app), Service::IamUsers),
        final(app).keeps_shell(*old(app)),
{
    if app.iam_state.current_user.is_some() {
        if app.iam_state.user_tab == UserTab::Tags {
            if app.iam_state.user_tags.expanded_item != Some(app.iam_state.user_tags.selected) {
                app.iam_state.user_tags.expanded_item = Some(app.iam_state.user_tags.selected);
            }
        } else if app.iam_state.policies.expanded_item != Some(app.iam_state.policies.selected) {
            app.iam_state.policies.toggle_expand();
        }
    } else {
        open_row(&mut app.iam_state.users);
    }
}

/// On an open role: opens the selected row of its tag, last-accessed or policy
/// table, by tab, unless a row is open. Else the selected role likewise.
pub fn expand_row_roles(app: &mut App)
    ensures
        ({
            let s = old(app).iam_state;
            let t = final(app).iam_state;
            if role_open(s) {
                match s.role_tab {
                    RoleTab::Tags => t == (State { tags: t.tags, ..s }) && row_opened(t.tags, s.tags),
                    RoleTab::LastAccessed => t == (State { last_accessed_services: t.last_accessed_services, ..s })
                        && row_opened(t.last_accessed_services, s.last_accessed_services),
                    _ => t == (State { policies: t.policies, ..s }) && row_opened(t.policies, s.policies),
                }
            } else {
                t == (State { roles: t.roles, ..s }) && row_opened(t.roles, s.roles)
            }
        }),
        final(app).unchanged_except(*old(app), Service::IamRoles),
        final(app).keeps_shell(*old(app)),
{
    if app.iam_state.current_role.is_some() {
        match app.iam_state.role_tab {
            RoleTab::Tags => open_row(&mut app.iam_state.tags),
            RoleTab::LastAccessed => open_row(&mut app.iam_state.last_accessed_services),
            _ => open_row(&mut app.iam_state.policies),
        }
    } else {
        open_row(&mut app.iam_state.roles);
    }
}

/// On an open group: opens the selected row of its user, policy or
/// last-accessed table, by tab, unless a row is open. Else the selected group.
pub fn expand_row_groups(app: &mut App)
    ensures
        ({
            let s = old(app).iam_state;
            let t = final(app).iam_state;
            if group_open(s) {
                match s.group_tab {
                    GroupTab::Users => t == (State { group_users: t.group_users, ..s }) && row_opened(t.group_users, s.group_users),
                    GroupTab::Permissions => t == (State { policies: t.policies, ..s }) && row_opened(t.policies, s.policies),
                    GroupTab::AccessAdvisor => t == (State { last_accessed_services: t.last_accessed_services, ..s })
                        && row_opened(t.last_accessed_services, s.last_accessed_services),
                }
            } else {
                t == (State { groups: t.groups, ..s }) && row_opened(t.groups, s.groups)
            }
        }),
        final(app).unchanged_except(*old(app), Service::IamGroups),
        final(app).keeps_shell(*old(app)),
{
    if app.iam_state.current_group.is_some() {
        match app.iam_state.group_tab {
            GroupTab::Users => open_row(&mut app.iam_state.group_users),
            GroupTab::Permissions => open_row(&mut app.iam_state.policies),
            GroupTab::AccessAdvisor => open_row(&mut app.iam_state.last_accessed_services),
        }
    } else {
        open_row(&mut app.iam_state.groups);
    }
}

/// Closes the open user row, if any.
pub fn prev_pane_users(app: &mut App)
    ensures
        final(app).iam_state == (State { users: final(app).iam_state.users, ..old(app).iam_state }),
        row_closed(final(app).iam_state.users, old(app).iam_state.users),
        final(app).unchanged_except(*old(app), Service::IamUsers),
        final(app).keeps_shell(*old(app)),
{
    close_row(&mut app.iam_state.users);
}

/// On an open role: closes the open row of the tag table (tags tab), of the
/// last-accessed table (that tab), else of the policy table. Else of the roles.
pub fn prev_pane_roles(app: &mut App)
    ensures
        ({
            let s = old(app).iam_state;
            let t = final(app).iam_state;
            if role_open(s) {
                if s.role_tab == RoleTab::Tags && s.tags.expanded_item is Some {
                    t == (State { tags: t.tags, ..s }) && t.tags.collapsed(s.tags)
                } else if s.role_tab == RoleTab::LastAccessed && s.last_accessed_services.expanded_item is Some {
                    t == (State { last_accessed_services: t.last_accessed_services, ..s })
                        && t.last_accessed_services.collapsed(s.last_accessed_services)
                } else {
                    t == (State { policies: t.policies, ..s }) && row_closed(t.policies, s.policies)
                }
            } else {
                t == (State { roles: t.roles, ..s }) && row_closed(t.roles, s.roles)
            }
        }),
        final(app).unchanged_except(*old(app), Service::IamRoles),
        final(app).keeps_shell(*old(app)),
{
    if app.iam_state.current_role.is_some() {
        if app.iam_state.role_tab == RoleTab::Tags && app.iam_state.tags.has_expanded_item() {
            app.iam_state.tags.collapse();
        } else if app.iam_state.role_tab == RoleTab::LastAccessed
            && app.iam_state.last_accessed_services.expanded_item.is_some() {
            app.iam_state.last_accessed_services.collapse();
        } else {
            close_row(&mut app.iam_state.policies);
        }
    } else {
        close_row(&mut app.iam_state.roles);
    }
}

/// On an open group: closes the open row of its tab's table. Else of the groups.
pub fn prev_pane_groups(app: &mut App)
    ensures
        ({
            let s = old(app).iam_state;
            let t = final(app).iam_state;
            if group_open(s) {
                match s.group_tab {
                    GroupTab::Users => t == (State { group_users: t.group_users, ..s }) && row_closed(t.group_users, s.group_users),
                    GroupTab::Permissions => t == (State { policies: t.policies, ..s }) && row_closed(t.policies, s.policies),
                    GroupTab::AccessAdvisor => t == (State { last_accessed_services: t.last_accessed_services, ..s })
                        && row_closed(t.last_accessed_services, s.last_accessed_services),
                }
            } else {
                t == (State { groups: t.groups, ..s }) && row_closed(t.groups, s.groups)
            }
        }),
        final(app).unchanged_except(*old(app), Service::IamGroups),
        final(app).keeps_shell(*old(app)),
{
    if app.iam_state.current_group.is_some() {
        match app.iam_state.group_tab {
            GroupTab::Users => close_row(&mut app.iam_state.group_users),
            GroupTab::Permissions => close_row(&mut app.iam_state.policies),
            GroupTab::AccessAdvisor => close_row(&mut app.iam_state.last_accessed_services),
        }
    } else {
        close_row(&mut app.iam_state.groups);
    }
}

/// On an open user: closes the open row of the policy, group or tag table, by
/// tab (other tabs: nothing). Else of the users.
pub fn collapse_row_users(app: &mut App)
    ensures
        ({
            let s = old(app).iam_state;
            let t = final(app).iam_state;
            if user_open(s) {
                match s.user_tab {
                    UserTab::Permissions => t == (State { policies: t.policies, ..s }) && t.policies.collapsed(s.policies),
                    UserTab::Groups => t == (State { user_group_memberships: t.user_group_memberships, ..s })
                        && t.user_group_memberships.collapsed(s.user_group_memberships),
                    UserTab::Tags => t == (State { user_tags: t.user_tags, ..s }) && t.user_tags.collapsed(s.user_tags),
                    _ => t == s,
                }
            } else {
                t == (State { users: t.users, ..s }) && t.users.collapsed(s.users)
            }
        }),
        final(app).unchanged_except(*old(app), Service::IamUsers),
        final(app).keeps_shell(*old(app)),
{
    if app.iam_state.current_user.is_some() {
        match app.iam_state.user_tab {
            UserTab::Permissions => app.iam_state.policies.collapse(),
            UserTab::Groups => app.iam_state.user_group_memberships.collapse(),
            UserTab::Tags => app.iam_state.user_tags.collapse(),
            _ => {},
        }
    } else {
        app.iam_state.users.collapse();
    }
}

/// On an open role: closes the open row of the policy or tag table, by tab
/// (other tabs: nothing). Else of the roles.
pub fn collapse_row_roles(app: &mut App)
    ensures
        ({
            let s = old(app).iam_state;
            let t = final(app).iam_state;
            if role_open(s) {
                match s.role_tab {
                    RoleTab::Permissions => t == (State { policies: t.policies, ..s }) && t.policies.collapsed(s.policies),
                    RoleTab::Tags => t == (State { tags: t.tags, ..s }) && t.tags.collapsed(s.tags),
                    _ => t == s,
                }
            } else {
                t == (State { roles: t.roles, ..s }) && t.roles.collapsed(s.roles)
            }
        }),
        final(app).unchanged_except(*old(app), Service::IamRoles),
        final(app).keeps_shell(*old(app)),
{
    if app.iam_state.current_role.is_some() {
        match app.iam_state.role_tab {
            RoleTab::Permissions => app.iam_state.policies.collapse(),
            RoleTab::Tags => app.iam_state.tags.collapse(),
            _ => {},
        }
    } else {
        app.iam_state.roles.collapse();
    }
}

/// Closes the open group row.
pub fn collapse_row_groups(app: &mut App)
    ensures
        final(app).iam_state == (State { groups: final(app).iam_state.groups, ..old(app).iam_state }),
        final(app).iam_state.groups.collapsed(old(app).iam_state.groups),
        final(app).unchanged_except(*old(app), Service::IamGroups),
        final(app).keeps_shell(*old(app)),
{
    app.iam_state.groups.collapse();
}

// ── Go back / detail tabs ────────────────────────────────────────────────────

/// Leaves the open user: its policies are dropped and the policy table returns
/// to its first row; the tab is retitled.
pub fn go_back_users(app: &mut App)
    ensures
        final(app).iam_state == (State { current_user: None, policies: final(app).iam_state.policies, ..old(app).iam_state }),
        final(app).iam_state.policies.items@.len() == 0,
        final(app).iam_state.policies.selected == 0 && final(app).iam_state.policies.scroll_offset == 0,
        final(app).iam_state.policies.expanded_item is None,
        final(app).iam_state.policies.filter@ == old(app).iam_state.policies.filter@,
        final(app).iam_state.policies.loading == old(app).iam_state.policies.loading,
        final(app).iam_state.policies.page_size == old(app).iam_state.policies.page_size,
        string_names(final(app).tab_breadcrumb@) == final(app).current_breadcrumb(),
        final(app).unchanged_except(*old(app), Service::IamUsers),
        final(app).view_mode == old(app).view_mode,
        final(app).column_selector_index == old(app).column_selector_index,
        final(app).current_service == old(app).current_service,
{
    app.iam_state.current_user = None;
    app.iam_state.policies.items.clear();
    app.iam_state.policies.reset();
    app.update_current_tab_breadcrumb();
}

/// Leaves the open group and retitles the tab.
pub fn go_back_groups(app: &mut App)
    ensures
        final(app).iam_state == (State { current_group: None, ..old(app).iam_state }),
        string_names(final(app).tab_breadcrumb@) == final(app).current_breadcrumb(),
        final(app).unchanged_except(*old(app), Service::IamGroups),
        final(app).view_mode == old(app).view_mode,
        final(app).column_selector_index == old(app).column_selector_index,
        final(app).current_service == old(app).current_service,
{
    app.iam_state.current_group = None;
    app.update_current_tab_breadcrumb();
}

/// From a policy document: back to the role, the document dropped. From an
/// open role: back to the roles, its policies dropped and the policy table at
/// its first row. The tab is retitled in both cases.
pub fn go_back_roles(app: &mut App)
    ensures
        ({
            let s = old(app).iam_state;
            let t = final(app).iam_state;
            if old(app).view_mode == ViewMode::PolicyView {
                &&& final(app).view_mode == ViewMode::Detail
                &&& t == (State { current_policy: None, policy_document: t.policy_document, policy_scroll: 0, ..s })
                &&& t.policy_document@.len() == 0
                &&& string_names(final(app).tab_breadcrumb@) == final(app).current_breadcrumb()
            } else if role_open(s) {
                &&& final(app).view_mode == old(app).view_mode
                &&& t == (State { current_role: None, policies: t.policies, ..s })
                &&& t.policies.items@.len() == 0 && t.policies.selected == 0 && t.policies.scroll_offset == 0
                &&& t.policies.expanded_item is None && t.policies.filter@ == s.policies.filter@
                &&& t.policies.loading == s.policies.loading && t.policies.page_size == s.policies.page_size
                &&& string_names(final(app).tab_breadcrumb@) == final(app).current_breadcrumb()
            } else {
                &&& t == s
                &&& final(app).view_mode == old(app).view_mode
                &&& final(app).tab_breadcrumb@ == old(app).tab_breadcrumb@
            }
        }),
        final(app).unchanged_except(*old(app), Service::IamRoles),
        final(app).column_selector_index == old(app).column_selector_index,
        final(app).current_service == old(app).current_service,
{
    if app.view_mode == ViewMode::PolicyView {
        app.view_mode = ViewMode::Detail;
        app.iam_state.current_policy = None;
        app.iam_state.policy_document = String::new();
        app.iam_state.policy_scroll = 0;
        app.update_current_tab_breadcrumb();
    } else if app.iam_state.current_role.is_some() {
        app.iam_state.current_role = None;
        app.iam_state.policies.items.clear();
        app.iam_state.policies.reset();
        app.update_current_tab_breadcrumb();
    }
}

/// The next tab of the role; arriving on the tags tab asks for the tags.
pub fn next_detail_tab_roles(app: &mut App)
    ensures
        ({
            let s = old(app).iam_state;
            let tab = s.role_tab.following();
            final(app).iam_state == (State {
                role_tab: tab,
                tags: TableState { loading: if tab == RoleTab::Tags { true } else { s.tags.loading }, ..s.tags },
                ..s
            })
        }),
        final(app).unchanged_except(*old(app), Service::IamRoles),
        final(app).keeps_shell(*old(app)),
{
    app.iam_state.role_tab = app.iam_state.role_tab.next();
    if app.iam_state.role_tab == RoleTab::Tags {
        app.iam_state.tags.loading = true;
    }
}

/// The previous tab of the role.
pub fn prev_detail_tab_roles(app: &mut App)
    ensures
        final(app).iam_state == (State { role_tab: old(app).iam_state.role_tab.preceding(), ..old(app).iam_state }),
        final(app).unchanged_except(*old(app), Service::IamRoles),
        final(app).keeps_shell(*old(app)),
{
    app.iam_state.role_tab = app.iam_state.role_tab.prev();
}

/// The next tab of the user; arriving on the tags tab asks for the tags.
pub fn next_detail_tab_users(app: &mut App)
    ensures
        ({
            let s = old(app).iam_state;
            let tab = s.user_tab.following();
            final(app).iam_state == (State {
                user_tab: tab,
                user_tags: TableState { loading: if tab == UserTab::Tags { true } else { s.user_tags.loading }, ..s.user_tags },
                ..s
            })
        }),
        final(app).unchanged_except(*old(app), Service::IamUsers),
        final(app).keeps_shell(*old(app)),
{
    app.iam_state.user_tab = app.iam_state.user_tab.next();
    if app.iam_state.user_tab == UserTab::Tags {
        app.iam_state.user_tags.loading = true;
    }
}

/// The previous tab of the user.
pub fn prev_detail_tab_users(app: &mut App)
    ensures
        final(app).iam_state == (State { user_tab: old(app).iam_state.user_tab.preceding(), ..old(app).iam_state }),
        final(app).unchanged_except(*old(app), Service::IamUsers),
        final(app).keeps_shell(*old(app)),
{
    app.iam_state.user_tab = app.iam_state.user_tab.prev();
}

/// The next tab of the group.
pub fn next_detail_tab_groups(app: &mut App)
    ensures
        final(app).iam_state == (State { group_tab: old(app).iam_state.group_tab.following(), ..old(app).iam_state }),
        final(app).unchanged_except(*old(app), Service::IamGroups),
        final(app).keeps_shell(*old(app)),
{
    app.iam_state.group_tab = app.iam_state.group_tab.next();
}

/// The previous tab of the group.
pub fn prev_detail_tab_groups(app: &mut App)
    ensures
        final(app).iam_state == (State { group_tab: old(app).iam_state.group_tab.preceding(), ..old(app).iam_state }),
        final(app).unchanged_except(*old(app), Service::IamGroups),
        final(app).keeps_shell(*old(app)),
{
    app.iam_state.group_tab = app.iam_state.group_tab.prev();
}

// ── Select / yank ────────────────────────────────────────────────────────────

/// On an open user's permissions tab: opens the selected policy's document
/// (asking for it) and retitles the tab. In the list: opens the selected user
/// on its permissions tab, with the policy table at its first row.
pub fn select_item_users(app: &mut App)
    ensures
        ({
            let s = old(app).iam_state;
            let t = final(app).iam_state;
            let fp = filtered_policy_rows(s);
            let fu = filtered_user_rows(s);
            if user_open(s) && s.user_tab == UserTab::Permissions && s.policies.selected < fp.len() {
                &&& t == (State {
                    current_policy: Some(s.policies.items@[fp[s.policies.selected as int] as int].policy_name),
                    policy_scroll: 0,
                    policies: TableState { loading: true, ..s.policies },
                    ..s
                })
                &&& final(app).view_mode == ViewMode::PolicyView
                &&& string_names(final(app).tab_breadcrumb@) == final(app).current_breadcrumb()
            } else if !user_open(s) && s.users.selected < fu.len() {
                &&& t == (State {
                    current_user: Some(s.users.items@[fu[s.users.selected as int] as int].user_name),
                    user_tab: UserTab::Permissions,
                    policies: t.policies,
                    ..s
                })
                &&& t.policies.was_reset(s.policies)
                &&& final(app).view_mode == old(app).view_mode
                &&& string_names(final(app).tab_breadcrumb@) == final(app).current_breadcrumb()
            } else {
                t == s && final(app).view_mode == old(app).view_mode && final(app).tab_breadcrumb@ == old(app).tab_breadcrumb@
            }
        }),
        final(app).unchanged_except(*old(app), Service::IamUsers),
        final(app).column_selector_index == old(app).column_selector_index,
        final(app).current_service == old(app).current_service,
{
    if app.iam_state.current_user.is_some() {
        if app.iam_state.user_tab == UserTab::Permissions {
            let filtered = filtered_iam_policies(&app.iam_state);
            match app.iam_state.policies.get_selected(&filtered) {
                Some(idx) => {
                    proof {
                        crate::table::lemma_kept_indices_bounded(app.iam_state.policies.items@.len(),
                            |k: int| crate::iam::policy_kept(app.iam_state, app.iam_state.policies.items@[k]));
                    }
                    let name = app.iam_state.policies.items[idx].policy_name.clone();
                    app.iam_state.current_policy = Some(name);
                    app.iam_state.policy_scroll = 0;
                    app.view_mode = ViewMode::PolicyView;
                    app.iam_state.policies.loading = true;
                    app.update_current_tab_breadcrumb();
                },
                None => {},
            }
        }
    } else {
        let filtered = filtered_iam_users(&app.iam_state);
        match app.iam_state.users.get_selected(&filtered) {
            Some(idx) => {
                proof {
                    crate::table::lemma_kept_indices_bounded(app.iam_state.users.items@.len(),
                        |k: int| crate::text::filter_keeps(app.iam_state.users.filter@, app.iam_state.users.items@[k].user_name@));
                }
                let name = app.iam_state.users.items[idx].user_name.clone();
                app.iam_state.current_user = Some(name);
                app.iam_state.user_tab = UserTab::Permissions;
                app.iam_state.policies.reset();
                app.update_current_tab_breadcrumb();
            },
            None => {},
        }
    }
}

/// On an open role's permissions tab: opens the selected policy's document
/// (asking for it) and retitles the tab. In the list: opens the selected role
/// on its permissions tab, with the policy table at its first row.
pub fn select_item_roles(app: &mut App)
    ensures
        ({
            let s = old(app).iam_state;
            let t = final(app).iam_state;
            let fp = filtered_policy_rows(s);
            let fr = filtered_role_rows(s);
            if role_open(s) && s.role_tab == RoleTab::Permissions && s.policies.selected < fp.len() {
                &&& t == (State {
                    current_policy: Some(s.policies.items@[fp[s.policies.selected as int] as int].policy_name),
                    policy_scroll: 0,
                    policies: TableState { loading: true, ..s.policies },
                    ..s
                })
                &&& final(app).view_mode == ViewMode::PolicyView
                &&& string_names(final(app).tab_breadcrumb@) == final(app).current_breadcrumb()
            } else if !role_open(s) && s.roles.selected < fr.len() {
                &&& t == (State {
                    current_role: Some(s.roles.items@[fr[s.roles.selected as int] as int].role_name),
                    role_tab: RoleTab::Permissions,
                    policies: t.policies,
                    ..s
                })
                &&& t.policies.was_reset(s.policies)
                &&& final(app).view_mode == old(app).view_mode
                &&& string_names(final(app).tab_breadcrumb@) == final(app).current_breadcrumb()
            } else {
                t == s && final(app).view_mode == old(app).view_mode && final(app).tab_breadcrumb@ == old(app).tab_breadcrumb@
            }
        }),
        final(app).unchanged_except(*old(app), Service::IamRoles),
        final(app).column_selector_index == old(app).column_selector_index,
        final(app).current_service == old(app).current_service,
{
    if app.iam_state.current_role.is_some() {
        if app.iam_state.role_tab == RoleTab::Permissions {
            let filtered = filtered_iam_policies(&app.iam_state);
            match app.iam_state.policies.get_selected(&filtered) {
                Some(idx) => {
                    proof {
                        crate::table::lemma_kept_indices_bounded(app.iam_state.policies.items@.len(),
                            |k: int| crate::iam::policy_kept(app.iam_state, app.iam_state.policies.items@[k]));
                    }
                    let name = app.iam_state.policies.items[idx].policy_name.clone();
                    app.iam_state.current_policy = Some(name);
                    app.iam_state.policy_scroll = 0;
                    app.view_mode = ViewMode::PolicyView;
                    app.iam_state.policies.loading = true;
                    app.update_current_tab_breadcrumb();
                },
                None => {},
            }
        }
    } else {
        let filtered = filtered_iam_roles(&app.iam_state);
        match app.iam_state.roles.get_selected(&filtered) {
            Some(idx) => {
                proof {
                    crate::table::lemma_kept_indices_bounded(app.iam_state.roles.items@.len(),
                        |k: int| crate::text::filter_keeps(app.iam_state.roles.filter@, app.iam_state.roles.items@[k].role_name@));
                }
                let name = app.iam_state.roles.items[idx].role_name.clone();
                app.iam_state.current_role = Some(name);
                app.iam_state.role_tab = RoleTab::Permissions;
                app.iam_state.policies.reset();
                app.update_current_tab_breadcrumb();
            },
            None => {},
        }
    }
}

/// Opens the selected group (among those that pass the filter) and retitles the tab.
pub fn select_item_groups(app: &mut App)
    ensures
        ({
            let s = old(app).iam_state;
            let f = filtered_group_rows(s);
            if !group_open(s) && s.groups.selected < f.len() {
                &&& final(app).iam_state == (State {
                    current_group: Some(s.groups.items@[f[s.groups.selected as int] as int].group_name),
                    ..s
                })
                &&& string_names(final(app).tab_breadcrumb@) == final(app).current_breadcrumb()
            } else {
                final(app).iam_state == s && final(app).tab_breadcrumb@ == old(app).tab_breadcrumb@
            }
        }),
        final(app).unchanged_except(*old(app), Service::IamGroups),
        final(app).view_mode == old(app).view_mode,
        final(app).column_selector_index == old(app).column_selector_index,
        final(app).current_service == old(app).current_service,
{
    if app.iam_state.current_group.is_none() {
        let filtered = filtered_iam_groups(&app.iam_state);
        match app.iam_state.groups.get_selected(&filtered) {
            Some(idx) => {
                proof {
                    crate::table::lemma_kept_indices_bounded(app.iam_state.groups.items@.len(),
                        |k: int| crate::text::filter_keeps(app.iam_state.groups.filter@, app.iam_state.groups.items@[k].group_name@));
                }
                let name = app.iam_state.groups.items[idx].group_name.clone();
                app.iam_state.current_group = Some(name);
                app.update_current_tab_breadcrumb();
            },
            None => {},
        }
    }
}

/// The names of the users.
pub open spec fn user_names(items: Seq<IamUser>) -> Seq<Seq<char>> {
    items.map_values(|u: IamUser| u.user_name@)
}

/// The names of the roles.
pub open spec fn role_names(items: Seq<IamRole>) -> Seq<Seq<char>> {
    items.map_values(|r: IamRole| r.role_name@)
}

fn find_user(items: &Vec<IamUser>, name: &str) -> (r: Option<usize>)
    ensures
        r matches Some(j) ==> Some(j as int) == first_index_of(user_names(items@), name@) && j < items@.len(),
        r is None ==> first_index_of(user_names(items@), name@) is None,
{
    let ghost names = user_names(items@);
    let n = items.len();
    let mut i: usize = 0;
    assert(names.take(0) =~= Seq::<Seq<char>>::empty());
    while i < n
        invariant
            n == items@.len(),
            i <= n,
            names == user_names(items@),
            first_index_of(names.take(i as int), name@) is None,
        decreases n - i,
    {
        assert(names.take(i + 1).drop_last() =~= names.take(i as int));
        if str_eq(items[i].user_name.as_str(), name) {
            assert(first_index_of(names.take(i + 1), name@) == Some(i as int));
            proof {
                lemma_first_index_of_prefix(names, name@, i + 1);
            }
            return Some(i);
        }
        i = i + 1;
    }
    assert(names.take(n as int) =~= names);
    None
}

fn find_role(items: &Vec<IamRole>, name: &str) -> (r: Option<usize>)
    ensures
        r matches Some(j) ==> Some(j as int) == first_index_of(role_names(items@), name@) && j < items@.len(),
        r is None ==> first_index_of(role_names(items@), name@) is None,
{
    let ghost names = role_names(items@);
    let n = items.len();
    let mut i: usize = 0;
    assert(names.take(0) =~= Seq::<Seq<char>>::empty());
    while i < n
        invariant
            n == items@.len(),
            i <= n,
            names == role_names(items@),
            first_index_of(names.take(i as int), name@) is None,
        decreases n - i,
    {
        assert(names.take(i + 1).drop_last() =~= names.take(i as int));
        if str_eq(items[i].role_name.as_str(), name) {
            assert(first_index_of(names.take(i + 1), name@) == Some(i as int));
            proof {
                lemma_first_index_of_prefix(names, name@, i + 1);
            }
            return Some(i);
        }
        i = i + 1;
    }
    assert(names.take(n as int) =~= names);
    None
}

/// The text that yanking copies: the ARN of the open user (the first listed
/// with its name), else of the selected user. Nothing when there is none.
pub fn yank_users(app: &App) -> (r: Option<String>)
    ensures
        ({
            let s = app.iam_state;
            let f = filtered_user_rows(s);
            match s.current_user {
                Some(u) => match first_index_of(user_names(s.users.items@), u@) {
                    Some(j) => r matches Some(t) && t@ == s.users.items@[j].arn@,
                    None => r is None,
                },
                None => if s.users.selected < f.len() {
                    r matches Some(t) && t@ == s.users.items@[f[s.users.selected as int] as int].arn@
                } else {
                    r is None
                },
            }
        }),
{
    match &app.iam_state.current_user {
        Some(user_name) => match find_user(&app.iam_state.users.items, user_name.as_str()) {
            Some(j) => Some(app.iam_state.users.items[j].arn.clone()),
            None => None,
        },
        None => {
            let filtered = filtered_iam_users(&app.iam_state);
            match app.iam_state.users.get_selected(&filtered) {
                Some(idx) => {
                    proof {
                        crate::table::lemma_kept_indices_bounded(app.iam_state.users.items@.len(),
                            |k: int| crate::text::filter_keeps(app.iam_state.users.filter@, app.iam_state.users.items@[k].user_name@));
                    }
                    Some(app.iam_state.users.items[idx].arn.clone())
                },
                None => None,
            }
        },
    }
}

/// The text that yanking copies: the ARN of the open role (the first listed
/// with its name), else of the selected role. Nothing when there is none.
pub fn yank_roles(app: &App) -> (r: Option<String>)
    ensures
        ({
            let s = app.iam_state;
            let f = filtered_role_rows(s);
            match s.current_role {
                Some(n) => match first_index_of(role_names(s.roles.items@), n@) {
                    Some(j) => r matches Some(t) && t@ == s.roles.items@[j].arn@,
                    None => r is None,
                },
                None => if s.roles.selected < f.len() {
                    r matches Some(t) && t@ == s.roles.items@[f[s.roles.selected as int] as int].arn@
                } else {
                    r is None
                },
            }
        }),
{
    match &app.iam_state.current_role {
        Some(role_name) => match find_role(&app.iam_state.roles.items, role_name.as_str()) {
            Some(j) => Some(app.iam_state.roles.items[j].arn.clone()),
            None => None,
        },
        None => {
            let filtered = filtered_iam_roles(&app.iam_state);
            match app.iam_state.roles.get_selected(&filtered) {
                Some(idx) => {
                    proof {
                        crate::table::lemma_kept_indices_bounded(app.iam_state.roles.items@.len(),
                            |k: int| crate::text::filter_keeps(app.iam_state.roles.filter@, app.iam_state.roles.items@[k].role_name@));
                    }
                    Some(app.iam_state.roles.items[idx].arn.clone())
                },
                None => None,
            }
        },
    }
}

/// The text that yanking copies: the ARN of the open group, else of the
/// selected group, in the session's account. Nothing when there is none.
pub fn yank_groups(app: &App) -> (r: Option<String>)
    ensures
        ({
            let s = app.iam_state;
            let f = filtered_group_rows(s);
            match s.current_group {
                Some(g) => r matches Some(t) && t@ == arn_of(app.config.account_id@, "group"@, g@),
                None => if s.groups.selected < f.len() {
                    r matches Some(t) && t@ == arn_of(
                        app.config.account_id@,
                        "group"@,
                        s.groups.items@[f[s.groups.selected as int] as int].group_name@,
                    )
                } else {
                    r is None
                },
            }
        }),
{
    match &app.iam_state.current_group {
        Some(group_name) => Some(format_arn(app.config.account_id.as_str(), "group", group_name.as_str())),
        None => {
            let filtered = filtered_iam_groups(&app.iam_state);
            match app.iam_state.groups.get_selected(&filtered) {
                Some(idx) => {
                    proof {
                        crate::table::lemma_kept_indices_bounded(app.iam_state.groups.items@.len(),
                            |k: int| crate::text::filter_keeps(app.iam_state.groups.filter@, app.iam_state.groups.items@[k].group_name@));
                    }
                    Some(format_arn(app.config.account_id.as_str(), "group", app.iam_state.groups.items[idx].group_name.as_str()))
                },
                None => None,
            }
        },
    }
}

// ── Column preferences ───────────────────────────────────────────────────────

/// The page size of preferences row `idx` when the three IAM page sizes (10,
/// 25, 50) start at row `base`.
pub open spec fn iam_page_size_choice(idx: int, base: int) -> Option<PageSize> {
    if idx == base {
        Some(PageSize::Ten)
    } else if idx == base + 1 {
        Some(PageSize::TwentyFive)
    } else if idx == base + 2 {
        Some(PageSize::Fifty)
    } else {
        None
    }
}

/// `t` with the page size of row `idx` (see `iam_page_size_choice`), if any.
pub open spec fn with_iam_page_size<T>(t: TableState<T>, idx: int, base: int) -> TableState<T> {
    match iam_page_size_choice(idx, base) {
        Some(p) => TableState { page_size: p, ..t },
        None => t,
    }
}

fn pick_iam_page_size<T>(t: &mut TableState<T>, idx: usize, base: usize)
    ensures
        *final(t) == with_iam_page_size(*old(t), idx as int, base as int),
{
    if idx == base {
        t.page_size = PageSize::Ten;
    } else if idx > base && idx - base == 1 {
        t.page_size = PageSize::TwentyFive;
    } else if idx > base && idx - base == 2 {
        t.page_size = PageSize::Fifty;
    }
}

/// Column `idx` toggled among `visible` (any column, or with `locked_first`
/// all but the first), when `idx` names a column.
pub open spec fn iam_toggled(visible: Seq<Seq<char>>, all: Seq<Seq<char>>, idx: int, locked_first: bool) -> Seq<Seq<char>> {
    if locked_first && idx == 1 { visible } else { toggled_at(visible, all, idx, false) }
}

fn toggle_iam_column(visible: &mut Vec<crate::common::ColumnId>, all: &Vec<crate::common::ColumnId>, idx: usize, locked_first: bool)
    ensures
        id_names(final(visible)@) == iam_toggled(id_names(old(visible)@), id_names(all@), idx as int, locked_first),
{
    if !(locked_first && idx == 1) {
        toggle_visible(visible, all, idx, false);
    }
}

/// Preferences row `idx` of a table with column ids `all`: toggles that column
/// (with `locked_first` the first column stays), or picks the page size of the
/// rows after them.
pub open spec fn iam_preference_applied<T>(
    new_visible: Seq<Seq<char>>,
    old_visible: Seq<Seq<char>>,
    new_table: TableState<T>,
    old_table: TableState<T>,
    all: Seq<Seq<char>>,
    idx: int,
    locked_first: bool,
) -> bool {
    &&& new_visible == iam_toggled(old_visible, all, idx, locked_first)
    &&& new_table == with_iam_page_size(old_table, idx, all.len() + 3int)
}

/// Preferences row `column_selector_index` of the user view: on an open user,
/// by tab, a policy column or page size, or the page size of the group, tag or
/// last-accessed table; in the list, a user column (the first stays) or the
/// user page size.
pub fn toggle_column_users(app: &mut App)
    ensures
        ({
            let s = old(app).iam_state;
            let t = final(app).iam_state;
            let idx = old(app).column_selector_index as int;
            if user_open(s) {
                match s.user_tab {
                    UserTab::Permissions => {
                        &&& iam_preference_applied(id_names(final(app).iam_policy_visible_column_ids@),
                            id_names(old(app).iam_policy_visible_column_ids@), t.policies, s.policies,
                            id_names(old(app).iam_policy_column_ids@), idx, false)
                        &&& t == (State { policies: t.policies, ..s })
                        &&& *final(app) == (App { iam_policy_visible_column_ids: final(app).iam_policy_visible_column_ids, iam_state: t, ..*old(app) })
                    },
                    UserTab::Groups => *final(app) == (App { iam_state: State {
                        user_group_memberships: with_iam_page_size(s.user_group_memberships, idx, 5), ..s }, ..*old(app) }),
                    UserTab::Tags => *final(app) == (App { iam_state: State {
                        user_tags: with_iam_page_size(s.user_tags, idx, 5), ..s }, ..*old(app) }),
                    UserTab::LastAccessed => *final(app) == (App { iam_state: State {
                        last_accessed_services: with_iam_page_size(s.last_accessed_services, idx, 6), ..s }, ..*old(app) }),
                    _ => *final(app) == *old(app),
                }
            } else {
                &&& iam_preference_applied(id_names(final(app).iam_user_visible_column_ids@),
                    id_names(old(app).iam_user_visible_column_ids@), t.users, s.users,
                    id_names(old(app).iam_user_column_ids@), idx, true)
                &&& t == (State { users: t.users, ..s })
                &&& *final(app) == (App { iam_user_visible_column_ids: final(app).iam_user_visible_column_ids, iam_state: t, ..*old(app) })
            }
        }),
{
    let idx = app.column_selector_index;
    if app.iam_state.current_user.is_some() {
        match app.iam_state.user_tab {
            UserTab::Permissions => {
                toggle_iam_column(&mut app.iam_policy_visible_column_ids, &app.iam_policy_column_ids, idx, false);
                let n = app.iam_policy_column_ids.len();
                if n <= usize::MAX - 3 {
                    pick_iam_page_size(&mut app.iam_state.policies, idx, n + 3);
                }
            },
            UserTab::Groups => pick_iam_page_size(&mut app.iam_state.user_group_memberships, idx, 5),
            UserTab::Tags => pick_iam_page_size(&mut app.iam_state.user_tags, idx, 5),
            UserTab::LastAccessed => pick_iam_page_size(&mut app.iam_state.last_accessed_services, idx, 6),
            _ => {},
        }
    } else {
        toggle_iam_column(&mut app.iam_user_visible_column_ids, &app.iam_user_column_ids, idx, true);
        let n = app.iam_user_column_ids.len();
        if n <= usize::MAX - 3 {
            pick_iam_page_size(&mut app.iam_state.users, idx, n + 3);
        }
    }
}

/// Preferences row `column_selector_index` of the role view: on an open role, a
/// policy column or page size (permissions tab) or the last-accessed page size;
/// in the list, a role column (the first stays) or the role page size.
pub fn toggle_column_roles(app: &mut App)
    ensures
        ({
            let s = old(app).iam_state;
            let t = final(app).iam_state;
            let idx = old(app).column_selector_index as int;
            if role_open(s) {
                match s.role_tab {
                    RoleTab::Permissions => {
                        &&& iam_preference_applied(id_names(final(app).iam_policy_visible_column_ids@),
                            id_names(old(app).iam_policy_visible_column_ids@), t.policies, s.policies,
                            id_names(old(app).iam_policy_column_ids@), idx, false)
                        &&& t == (State { policies: t.policies, ..s })
                        &&& *final(app) == (App { iam_policy_visible_column_ids: final(app).iam_policy_visible_column_ids, iam_state: t, ..*old(app) })
                    },
                    RoleTab::LastAccessed => *final(app) == (App { iam_state: State {
                        last_accessed_services: with_iam_page_size(s.last_accessed_services, idx, 6), ..s }, ..*old(app) }),
                    _ => *final(app) == *old(app),
                }
            } else {
                &&& iam_preference_applied(id_names(final(app).iam_role_visible_column_ids@),
                    id_names(old(app).iam_role_visible_column_ids@), t.roles, s.roles,
                    id_names(old(app).iam_role_column_ids@), idx, true)
                &&& t == (State { roles: t.roles, ..s })
                &&& *final(app) == (App { iam_role_visible_column_ids: final(app).iam_role_visible_column_ids, iam_state: t, ..*old(app) })
            }
        }),
{
    let idx = app.column_selector_index;
    if app.iam_state.current_role.is_some() {
        match app.iam_state.role_tab {
            RoleTab::Permissions => {
                toggle_iam_column(&mut app.iam_policy_visible_column_ids, &app.iam_policy_column_ids, idx, false);
                let n = app.iam_policy_column_ids.len();
                if n <= usize::MAX - 3 {
                    pick_iam_page_size(&mut app.iam_state.policies, idx, n + 3);
                }
            },
            RoleTab::LastAccessed => pick_iam_page_size(&mut app.iam_state.last_accessed_services, idx, 6),
            _ => {},
        }
    } else {
        toggle_iam_column(&mut app.iam_role_visible_column_ids, &app.iam_role_column_ids, idx, true);
        let n = app.iam_role_column_ids.len();
        if n <= usize::MAX - 3 {
            pick_iam_page_size(&mut app.iam_state.roles, idx, n + 3);
        }
    }
}

/// Preferences row `column_selector_index` of the group view: a group column or
/// the group page size.
pub fn toggle_column_groups(app: &mut App)
    ensures
        iam_preference_applied(id_names(final(app).iam_group_visible_column_ids@),
            id_names(old(app).iam_group_visible_column_ids@), final(app).iam_state.groups, old(app).iam_state.groups,
            id_names(old(app).iam_group_column_ids@), old(app).column_selector_index as int, false),
        *final(app) == (App {
            iam_group_visible_column_ids: final(app).iam_group_visible_column_ids,
            iam_state: State { groups: final(app).iam_state.groups, ..old(app).iam_state },
            ..*old(app)
        }),
{
    let idx = app.column_selector_index;
    toggle_iam_column(&mut app.iam_group_visible_column_ids, &app.iam_group_column_ids, idx, false);
    let n = app.iam_group_column_ids.len();
    if n <= usize::MAX - 3 {
        pick_iam_page_size(&mut app.iam_state.groups, idx, n + 3);
    }
}

/// The first row of the page-size section of the user view's preferences: after
/// the policy columns (permissions tab), row 4 (groups and tags tabs), row 5
/// (last-accessed tab), or after the user columns in the list; none on other tabs.
pub open spec fn users_page_size_row(app: App) -> Option<int> {
    if user_open(app.iam_state) {
        match app.iam_state.user_tab {
            UserTab::Permissions => Some(app.iam_policy_column_ids@.len() + 2int),
            UserTab::Groups | UserTab::Tags => Some(4),
            UserTab::LastAccessed => Some(5),
            _ => None,
        }
    } else {
        Some(app.iam_user_column_ids@.len() + 2int)
    }
}

/// The first row of the page-size section of the role view's preferences.
pub open spec fn roles_page_size_row(app: App) -> Option<int> {
    if role_open(app.iam_state) {
        match app.iam_state.role_tab {
            RoleTab::Permissions => Some(app.iam_policy_column_ids@.len() + 2int),
            RoleTab::Tags => Some(4),
            RoleTab::LastAccessed => Some(5),
            _ => None,
        }
    } else {
        Some(app.iam_role_column_ids@.len() + 2int)
    }
}

/// The preferences cursor jumps to `row`, or back to the top from there.
pub open spec fn jumped_to_section(new: App, old: App, row: Option<int>, forward: bool) -> bool {
    &&& new.column_selector_index == (match row {
        Some(p) => if forward {
            if old.column_selector_index < p { p as usize } else { 0 }
        } else {
            if old.column_selector_index >= p { 0 } else { p as usize }
        },
        None => old.column_selector_index,
    })
    &&& new == (App { column_selector_index: new.column_selector_index, ..old })
}

fn jump_section(app: &mut App, row: usize, forward: bool)
    ensures
        jumped_to_section(*final(app), *old(app), Some(row as int), forward),
{
    app.column_selector_index = if forward {
        if app.column_selector_index < row { row } else { 0 }
    } else {
        if app.column_selector_index >= row { 0 } else { row }
    };
}

fn users_section_row(app: &App) -> (r: Option<usize>)
    requires
        app.iam_policy_column_ids@.len() + 2 <= usize::MAX,
        app.iam_user_column_ids@.len() + 2 <= usize::MAX,
    ensures
        match r {
            Some(p) => users_page_size_row(*app) == Some(p as int),
            None => users_page_size_row(*app) is None,
        },
{
    if app.iam_state.current_user.is_some() {
        match app.iam_state.user_tab {
            UserTab::Permissions => Some(app.iam_policy_column_ids.len() + 2),
            UserTab::Groups | UserTab::Tags => Some(4),
            UserTab::LastAccessed => Some(5),
            _ => None,
        }
    } else {
        Some(app.iam_user_column_ids.len() + 2)
    }
}

fn roles_section_row(app: &App) -> (r: Option<usize>)
    requires
        app.iam_policy_column_ids@.len() + 2 <= usize::MAX,
        app.iam_role_column_ids@.len() + 2 <= usize::MAX,
    ensures
        match r {
            Some(p) => roles_page_size_row(*app) == Some(p as int),
            None => roles_page_size_row(*app) is None,
        },
{
    if app.iam_state.current_role.is_some() {
        match app.iam_state.role_tab {
            RoleTab::Permissions => Some(app.iam_policy_column_ids.len() + 2),
            RoleTab::Tags => Some(4),
            RoleTab::LastAccessed => Some(5),
            _ => None,
        }
    } else {
        Some(app.iam_role_column_ids.len() + 2)
    }
}

/// Moves the user preferences cursor to the page-size section, or from there to the top.
pub fn next_preferences_users(app: &mut App)
    requires
        old(app).iam_policy_column_ids@.len() + 2 <= usize::MAX,
        old(app).iam_user_column_ids@.len() + 2 <= usize::MAX,
    ensures
        jumped_to_section(*final(app), *old(app), users_page_size_row(*old(app)), true),
{
    match users_section_row(app) {
        Some(p) => jump_section(app, p, true),
        None => {},
    }
}

/// Moves the user preferences cursor to the top from the page-size section, or
/// to that section.
pub fn prev_preferences_users(app: &mut App)
    requires
        old(app).iam_policy_column_ids@.len() + 2 <= usize::MAX,
        old(app).iam_user_column_ids@.len() + 2 <= usize::MAX,
    ensures
        jumped_to_section(*final(app), *old(app), users_page_size_row(*old(app)), false),
{
    match users_section_row(app) {
        Some(p) => jump_section(app, p, false),
        None => {},
    }
}

/// Moves the role preferences cursor to the page-size section, or from there to the top.
pub fn next_preferences_roles(app: &mut App)
    requires
        old(app).iam_policy_column_ids@.len() + 2 <= usize::MAX,
        old(app).iam_role_column_ids@.len() + 2 <= usize::MAX,
    ensures
        jumped_to_section(*final(app), *old(app), roles_page_size_row(*old(app)), true),
{
    match roles_section_row(app) {
        Some(p) => jump_section(app, p, true),
        None => {},
    }
}

/// Moves the role preferences cursor to the top from the page-size section, or
/// to that section.
pub fn prev_preferences_roles(app: &mut App)
    requires
        old(app).iam_policy_column_ids@.len() + 2 <= usize::MAX,
        old(app).iam_role_column_ids@.len() + 2 <= usize::MAX,
    ensures
        jumped_to_section(*final(app), *old(app), roles_page_size_row(*old(app)), false),
{
    match roles_section_row(app) {
        Some(p) => jump_section(app, p, false),
        None => {},
    }
}

/// Moves the group preferences cursor to the page-size section, or from there to the top.
pub fn next_preferences_groups(app: &mut App)
    requires
        old(app).iam_group_column_ids@.len() + 2 <= usize::MAX,
    ensures
        jumped_to_section(*final(app), *old(app), Some(old(app).iam_group_column_ids@.len() + 2int), true),
{
    let p = app.iam_group_column_ids.len() + 2;
    jump_section(app, p, true);
}

/// Moves the group preferences cursor to the top from the page-size section, or
/// to that section.
pub fn prev_preferences_groups(app: &mut App)
    requires
        old(app).iam_group_column_ids@.len() + 2 <= usize::MAX,
    ensures
        jumped_to_section(*final(app), *old(app), Some(old(app).iam_group_column_ids@.len() + 2int), false),
{
    let p = app.iam_group_column_ids.len() + 2;
    jump_section(app, p, false);
}

/// The last row of the user preferences panel.
pub fn column_selector_max_users(app: &App) -> (r: usize)
    requires
        app.iam_policy_column_ids@.len() + 5 <= usize::MAX,
        app.iam_user_column_ids@.len() + 5 <= usize::MAX,
    ensures
        r == (if user_open(app.iam_state) { app.iam_policy_column_ids@.len() } else { app.iam_user_column_ids@.len() }) + 5,
{
    if app.iam_state.current_user.is_some() {
        app.iam_policy_column_ids.len() + 5
    } else {
        app.iam_user_column_ids.len() + 5
    }
}

/// The number of columns of the user view's table.
pub fn column_count_users(app: &App) -> (r: usize)
    ensures
        r == (if user_open(app.iam_state) { app.iam_policy_column_ids@.len() } else { app.iam_user_column_ids@.len() }),
{
    if app.iam_state.current_user.is_some() {
        app.iam_policy_column_ids.len()
    } else {
        app.iam_user_column_ids.len()
    }
}

/// The last row of the role preferences panel.
pub fn column_selector_max_roles(app: &App) -> (r: usize)
    requires
        app.iam_policy_column_ids@.len() + 5 <= usize::MAX,
        app.iam_role_column_ids@.len() + 5 <= usize::MAX,
    ensures
        r == (if role_open(app.iam_state) { app.iam_policy_column_ids@.len() } else { app.iam_role_column_ids@.len() }) + 5,
{
    if app.iam_state.current_role.is_some() {
        app.iam_policy_column_ids.len() + 5
    } else {
        app.iam_role_column_ids.len() + 5
    }
}

/// The number of columns of the role view's table.
pub fn column_count_roles(app: &App) -> (r: usize)
    ensures
        r == (if role_open(app.iam_state) { app.iam_policy_column_ids@.len() } else { app.iam_role_column_ids@.len() }),
{
    if app.iam_state.current_role.is_some() {
        app.iam_policy_column_ids.len()
    } else {
        app.iam_role_column_ids.len()
    }
}

/// The last row of the group preferences panel.
pub fn column_selector_max_groups(app: &App) -> (r: usize)
    requires
        app.iam_group_column_ids@.len() + 5 <= usize::MAX,
    ensures
        r == app.iam_group_column_ids@.len() + 5,
{
    app.iam_group_column_ids.len() + 5
}

/// The number of columns of the group table.
pub fn column_count_groups(app: &App) -> (r: usize)
    ensures
        r == app.iam_group_column_ids@.len(),
{
    app.iam_group_column_ids.len()
}

// ── Breadcrumb / console URL ─────────────────────────────────────────────────

/// The breadcrumb of the user view.
pub open spec fn users_breadcrumb_of() -> Seq<Seq<char>> {
    seq!["IAM"@, "Users"@]
}

/// The breadcrumb of the role view: `IAM`, `Roles`, then the open role and its
/// open policy.
pub open spec fn roles_breadcrumb_of(s: State) -> Seq<Seq<char>> {
    match s.current_role {
        Some(r) => match s.current_policy {
            Some(p) => seq!["IAM"@, "Roles"@, r@, p@],
            None => seq!["IAM"@, "Roles"@, r@],
        },
        None => seq!["IAM"@, "Roles"@],
    }
}

/// The breadcrumb of the group view: `IAM`, `User Groups`, then the open group.
pub open spec fn groups_breadcrumb_of(s: State) -> Seq<Seq<char>> {
    match s.current_group {
        Some(g) => seq!["IAM"@, "User Groups"@, g@],
        None => seq!["IAM"@, "User Groups"@],
    }
}

/// The breadcrumb of the user view.
pub fn breadcrumb_users() -> (r: Vec<String>)
    ensures
        string_names(r@) == users_breadcrumb_of(),
{
    let r = vec![String::from_str("IAM"), String::from_str("Users")];
    assert(string_names(r@) =~= users_breadcrumb_of());
    r
}

/// The breadcrumb of the role view.
pub fn breadcrumb_roles(app: &App) -> (r: Vec<String>)
    ensures
        string_names(r@) == roles_breadcrumb_of(app.iam_state),
{
    let mut parts = vec![String::from_str("IAM"), String::from_str("Roles")];
    match &app.iam_state.current_role {
        Some(role_name) => {
            parts.push(role_name.clone());
            match &app.iam_state.current_policy {
                Some(policy_name) => parts.push(policy_name.clone()),
                None => {},
            }
        },
        None => {},
    }
    assert(string_names(parts@) =~= roles_breadcrumb_of(app.iam_state));
    parts
}

/// The breadcrumb of the group view.
pub fn breadcrumb_groups(app: &App) -> (r: Vec<String>)
    ensures
        string_names(r@) == groups_breadcrumb_of(app.iam_state),
{
    let mut parts = vec![String::from_str("IAM"), String::from_str("User Groups")];
    match &app.iam_state.current_group {
        Some(g) => parts.push(g.clone()),
        None => {},
    }
    assert(string_names(parts@) =~= groups_breadcrumb_of(app.iam_state));
    parts
}

/// The console page of the open user's tab, else of the users.
pub fn console_url_users(app: &App) -> (r: String)
    ensures
        r@ == (match app.iam_state.current_user {
            Some(u) => user_detail_address(app.config.region@, u@, app.iam_state.user_tab.section()),
            None => "https://console.aws.amazon.com/iam/home#/users"@,
        }),
{
    match &app.iam_state.current_user {
        Some(user_name) => crate::iam::console_url_user_detail(
            app.config.region.as_str(),
            user_name.as_str(),
            app.iam_state.user_tab.section_str(),
        ),
        None => crate::iam::console_url_users(app.config.region.as_str()),
    }
}

/// The console page of the open role's open policy, else of the open role's
/// tab, else of the roles.
pub fn console_url_roles(app: &App) -> (r: String)
    ensures
        r@ == (match (app.iam_state.current_policy, app.iam_state.current_role) {
            (Some(p), Some(role)) => role_policy_address(app.config.region@, role@, p@),
            (_, Some(role)) => role_detail_address(app.config.region@, role@, app.iam_state.role_tab.section()),
            (_, None) => "https://console.aws.amazon.com/iam/home#/roles"@,
        }),
{
    match (&app.iam_state.current_policy, &app.iam_state.current_role) {
        (Some(policy_name), Some(role_name)) => crate::iam::console_url_role_policy(
            app.config.region.as_str(),
            role_name.as_str(),
            policy_name.as_str(),
        ),
        (_, Some(role_name)) => crate::iam::console_url_role_detail(
            app.config.region.as_str(),
            role_name.as_str(),
            app.iam_state.role_tab.section_str(),
        ),
        (_, None) => crate::iam::console_url_roles(app.config.region.as_str()),
    }
}

/// The console page of the groups.
pub fn console_url_groups(app: &App) -> (r: String)
    ensures
        r@ == groups_address(app.config.region@),
{
    crate::iam::console_url_groups(app.config.region.as_str())
}

} // verus!

//! Key-handling actions of the API Gateway view.
use vstd::prelude::*;
use vstd::string::*;
use crate::apig::resource::Resource;
use crate::apig::route::Route;
use crate::apig::tree::{
    contains_key, count_resource_rows, count_route_rows, filter_resources, filter_routes, holds_key,
    kept_resources, kept_routes, lemma_resource_rows_same, resource_depth, resource_id_at_row,
    resource_parent_of, resource_parent_row, resource_rows, resource_tree_finite, route_depth,
    route_id_at_row, route_id_scan, route_key_at_row, route_parent_of, route_parent_row,
    route_tree_finite, same_resources, visible_resources, visible_routes, route_rows, route_rows_within,
    resource_rows_within, lemma_route_rows_depth, lemma_resource_rows_depth,
};
use crate::apig::{
    api_address, apis_address, console_url_api, console_url_apis, console_url_resources,
    console_url_routes, filter_control_list, filter_controls, filtered_api_rows, filtered_apis,
    resources_address, routes_address, ApiDetailTab, RestApi, State,
};
use crate::app::{App, Service};
use crate::columns::{id_names, string_names, toggle_visible, toggled_at};
use crate::common::{cycle_next, cycle_prev, InputFocus, PageSize};
use crate::table::TableState;
use crate::text::{str_eq, to_upper, upper_case};

verus! {

/// Whether an upper-cased protocol names REST.
pub open spec fn names_rest(upper: Seq<char>) -> bool {
    upper == "REST"@
}

/// An API of the REST protocol, whatever case its protocol is written in.
pub open spec fn is_rest(a: RestApi) -> bool {
    names_rest(upper_case(a.protocol_type@))
}

/// Whether an upper-cased protocol names REST.
pub fn upper_names_rest(upper: &str) -> (r: bool)
    ensures
        r == names_rest(upper@),
{
    str_eq(upper, "REST")
}

fn api_is_rest(a: &RestApi) -> (r: bool)
    ensures
        r == is_rest(*a),
{
    let u = to_upper(a.protocol_type.as_str());
    upper_names_rest(u.as_str())
}

/// An API is open on its routes tab.
pub open spec fn on_routes_tab(s: State) -> bool {
    s.current_api is Some && s.detail_tab == ApiDetailTab::Routes
}

/// The routes whose key passes the route filter.
pub open spec fn shown_routes(s: State) -> Seq<Route> {
    kept_routes(s.routes.items@, s.route_filter@)
}

/// The resources whose path passes the route filter.
pub open spec fn shown_resources(s: State) -> Seq<Resource> {
    kept_resources(s.resources.items@, s.route_filter@)
}

/// The route and resource trees, whole and filtered, are finite and take at
/// most `usize::MAX` rows.
pub open spec fn trees_finite(s: State) -> bool {
    &&& route_tree_finite(s.routes.items@, s.expanded_routes@, s.route_children@)
    &&& visible_routes(s.routes.items@, s.expanded_routes@, s.route_children@).len() <= usize::MAX
    &&& route_tree_finite(shown_routes(s), s.expanded_routes@, s.route_children@)
    &&& visible_routes(shown_routes(s), s.expanded_routes@, s.route_children@).len() <= usize::MAX
    &&& resource_tree_finite(s.resources.items@, s.expanded_resources@, s.resource_children@)
    &&& visible_resources(s.resources.items@, s.expanded_resources@, s.resource_children@).len() <= usize::MAX
    &&& resource_tree_finite(shown_resources(s), s.expanded_resources@, s.resource_children@)
    &&& visible_resources(shown_resources(s), s.expanded_resources@, s.resource_children@).len() <= usize::MAX
}

/// Whether the route and resource trees of `s`, whole and filtered, end
/// within `depth` levels and take at most `usize::MAX` rows each. When it
/// answers yes, `trees_finite(s)` holds: loaded data is checked with it before
/// the functions that walk the trees are called.
pub fn trees_within(s: &State, depth: usize) -> (r: bool)
    ensures
        r ==> trees_finite(*s),
{
    let ex_r = &s.expanded_routes;
    let ch_r = &s.route_children;
    let ex_s = &s.expanded_resources;
    let ch_s = &s.resource_children;
    let ghost d = depth as nat;
    let all_routes = route_rows_within(ex_r, ch_r, s.routes.items.as_slice(), depth);
    let shown = filter_routes(&s.routes.items, s.route_filter.as_str());
    let shown_rows = route_rows_within(ex_r, ch_r, shown.as_slice(), depth);
    let all_res = resource_rows_within(ex_s, ch_s, s.resources.items.as_slice(), depth);
    let shown_res = filter_resources(&s.resources.items, s.route_filter.as_str());
    let shown_res_rows = resource_rows_within(ex_s, ch_s, shown_res.as_slice(), depth);
    if all_routes.is_none() || shown_rows.is_none() || all_res.is_none() || shown_res_rows.is_none() {
        return false;
    }
    proof {
        let items = s.routes.items@;
        assert(route_rows(items, ex_r@, ch_r@, d) is Some);
        lemma_route_rows_depth(items, ex_r@, ch_r@, d, route_depth(items, ex_r@, ch_r@));
        let sh = shown_routes(*s);
        assert(shown@ == sh);
        assert(route_rows(sh, ex_r@, ch_r@, d) is Some);
        lemma_route_rows_depth(sh, ex_r@, ch_r@, d, route_depth(sh, ex_r@, ch_r@));
        let ritems = s.resources.items@;
        assert(resource_rows(ritems, ex_s@, ch_s@, d) is Some);
        lemma_resource_rows_depth(ritems, ex_s@, ch_s@, d, resource_depth(ritems, ex_s@, ch_s@));
        let shr = shown_resources(*s);
        lemma_resource_rows_same(shown_res@, shr, ex_s@, ch_s@, d);
        assert(resource_rows(shr, ex_s@, ch_s@, d) is Some);
        lemma_resource_rows_depth(shr, ex_s@, ch_s@, d, resource_depth(shr, ex_s@, ch_s@));
    }
    true
}

// ── Filter ───────────────────────────────────────────────────────────────────

/// Clears the API list's filter and returns to its first row.
pub fn apply_filter_reset(app: &mut App)
    ensures
        final(app).apig_state == (State { apis: final(app).apig_state.apis, ..old(app).apig_state }),
        final(app).apig_state.apis.was_reset(old(app).apig_state.apis),
        final(app).unchanged_except(*old(app), Service::ApiGateway),
        final(app).keeps_shell(*old(app)),
        final(app).apig_api_visible_column_ids@ == old(app).apig_api_visible_column_ids@,
        final(app).apig_resource_visible_column_ids@ == old(app).apig_resource_visible_column_ids@,
        final(app).apig_route_visible_column_ids@ == old(app).apig_route_visible_column_ids@,
        final(app).apig_api_column_ids@ == old(app).apig_api_column_ids@,
        final(app).apig_resource_column_ids@ == old(app).apig_resource_column_ids@,
        final(app).apig_route_column_ids@ == old(app).apig_route_column_ids@,
{
    app.apig_state.apis.reset();
}

/// Whether the pagination control has the focus.
pub fn is_pagination_focused(app: &App) -> (r: bool)
    ensures
        r == (app.apig_state.input_focus == InputFocus::Pagination),
{
    app.apig_state.input_focus.is(&InputFocus::Pagination)
}

/// Whether typed characters go to the route filter: an API is open on its
/// routes tab and the filter has the focus.
pub fn filter_char_allowed(app: &App) -> (r: bool)
    ensures
        r == (on_routes_tab(app.apig_state) && app.apig_state.input_focus == InputFocus::Filter),
{
    app.apig_state.current_api.is_some() && app.apig_state.detail_tab == ApiDetailTab::Routes
        && app.apig_state.input_focus.is(&InputFocus::Filter)
}

/// Puts the focus on the filter.
pub fn start_filter(app: &mut App)
    ensures
        final(app).apig_state == (State { input_focus: InputFocus::Filter, ..old(app).apig_state }),
        final(app).unchanged_except(*old(app), Service::ApiGateway),
        final(app).keeps_shell(*old(app)),
{
    app.apig_state.input_focus = InputFocus::Filter;
}

/// Moves the focus to the next control of the filter bar.
pub fn next_filter_focus(app: &mut App)
    ensures
        final(app).apig_state == (State {
            input_focus: cycle_next(filter_controls(), old(app).apig_state.input_focus),
            ..old(app).apig_state
        }),
        final(app).unchanged_except(*old(app), Service::ApiGateway),
        final(app).keeps_shell(*old(app)),
{
    let controls = filter_control_list();
    app.apig_state.input_focus = app.apig_state.input_focus.next(controls.as_slice());
}

/// Moves the focus to the previous control of the filter bar.
pub fn prev_filter_focus(app: &mut App)
    ensures
        final(app).apig_state == (State {
            input_focus: cycle_prev(filter_controls(), old(app).apig_state.input_focus),
            ..old(app).apig_state
        }),
        final(app).unchanged_except(*old(app), Service::ApiGateway),
        final(app).keeps_shell(*old(app)),
{
    let controls = filter_control_list();
    app.apig_state.input_focus = app.apig_state.input_focus.prev(controls.as_slice());
}

// ── Navigation ───────────────────────────────────────────────────────────────

/// `s` with `t` as its resources table.
pub open spec fn with_resources(s: State, t: TableState<Resource>) -> State {
    State { resources: t, ..s }
}

/// `s` with `t` as its routes table.
pub open spec fn with_routes(s: State, t: TableState<Route>) -> State {
    State { routes: t, ..s }
}

/// Row `sel + 1` of `n` rows, staying on the last one.
pub open spec fn row_below(sel: int, n: int) -> int {
    if sel + 1 < n { sel + 1 } else { n - 1 }
}

/// What selecting the next row does: on the routes tab of an open API the
/// next row of its resource tree (REST) or route tree, among all of its rows
/// on screen; nothing on its other tabs; in the list the next filtered API.
pub open spec fn next_item_done(new: State, old: State) -> bool {
    match old.current_api {
        Some(api) => if old.detail_tab == ApiDetailTab::Routes {
            if is_rest(api) {
                let n = visible_resources(old.resources.items@, old.expanded_resources@, old.resource_children@).len() as int;
                if n > 0 {
                    new == with_resources(old, TableState { selected: row_below(old.resources.selected as int, n) as usize, ..old.resources })
                } else {
                    new == old
                }
            } else {
                let n = visible_routes(old.routes.items@, old.expanded_routes@, old.route_children@).len() as int;
                if n > 0 {
                    new == with_routes(old, TableState { selected: row_below(old.routes.selected as int, n) as usize, ..old.routes })
                } else {
                    new == old
                }
            }
        } else {
            new == old
        },
        None => new == State { apis: new.apis, ..old } && new.apis.moved_down(old.apis, filtered_api_rows(old).len() as int),
    }
}

/// Selects the next row of the table or tree on screen.
pub fn next_item(app: &mut App)
    requires
        trees_finite(old(app).apig_state),
    ensures
        next_item_done(final(app).apig_state, old(app).apig_state),
        final(app).unchanged_except(*old(app), Service::ApiGateway),
        final(app).keeps_shell(*old(app)),
{
    match &app.apig_state.current_api {
        Some(api) => {
            if app.apig_state.detail_tab == ApiDetailTab::Routes {
                if api_is_rest(api) {
                    let total = count_resource_rows(
                        &app.apig_state.expanded_resources,
                        &app.apig_state.resource_children,
                        app.apig_state.resources.items.as_slice(),
                    );
                    if total > 0 {
                        let next = if app.apig_state.resources.selected < total - 1 {
                            app.apig_state.resources.selected + 1
                        } else {
                            total - 1
                        };
                        app.apig_state.resources.selected = next;
                    }
                } else {
                    let total = count_route_rows(
                        &app.apig_state.expanded_routes,
                        &app.apig_state.route_children,
                        app.apig_state.routes.items.as_slice(),
                    );
                    if total > 0 {
                        let next = if app.apig_state.routes.selected < total - 1 {
                            app.apig_state.routes.selected + 1
                        } else {
                            total - 1
                        };
                        app.apig_state.routes.selected = next;
                    }
                }
            }
        },
        None => {
            let filtered = filtered_apis(&app.apig_state);
            app.apig_state.apis.next_item(filtered.len());
        },
    }
}

/// What selecting the previous row does: on the routes tab of an open API
/// the row above in its resource or route tree, stopping at the first; nothing
/// on its other tabs; in the list the previous API.
pub open spec fn prev_item_done(new: State, old: State) -> bool {
    match old.current_api {
        Some(api) => if old.detail_tab == ApiDetailTab::Routes {
            if is_rest(api) {
                new == with_resources(old, TableState {
                    selected: if old.resources.selected > 0 { (old.resources.selected - 1) as usize } else { 0 },
                    ..old.resources
                })
            } else {
                new == with_routes(old, TableState {
                    selected: if old.routes.selected > 0 { (old.routes.selected - 1) as usize } else { 0 },
                    ..old.routes
                })
            }
        } else {
            new == old
        },
        None => new == State { apis: new.apis, ..old } && new.apis.moved_up(old.apis),
    }
}

/// Selects the previous row of the table or tree on screen.
pub fn prev_item(app: &mut App)
    ensures
        prev_item_done(final(app).apig_state, old(app).apig_state),
        final(app).unchanged_except(*old(app), Service::ApiGateway),
        final(app).keeps_shell(*old(app)),
{
    match &app.apig_state.current_api {
        Some(api) => {
            if app.apig_state.detail_tab == ApiDetailTab::Routes {
                if api_is_rest(api) {
                    if app.apig_state.resources.selected > 0 {
                        app.apig_state.resources.selected = app.apig_state.resources.selected - 1;
                    }
                } else {
                    if app.apig_state.routes.selected > 0 {
                        app.apig_state.routes.selected = app.apig_state.routes.selected - 1;
                    }
                }
            }
        },
        None => {
            app.apig_state.apis.prev_item();
        },
    }
}

/// Moves to the next detail tab.
pub fn next_detail_tab(app: &mut App)
    ensures
        final(app).apig_state == (State { detail_tab: old(app).apig_state.detail_tab.following(), ..old(app).apig_state }),
        final(app).unchanged_except(*old(app), Service::ApiGateway),
        final(app).keeps_shell(*old(app)),
{
    app.apig_state.detail_tab = app.apig_state.detail_tab.next();
}

/// Moves to the previous detail tab.
pub fn prev_detail_tab(app: &mut App)
    ensures
        final(app).apig_state == (State { detail_tab: old(app).apig_state.detail_tab.preceding(), ..old(app).apig_state }),
        final(app).unchanged_except(*old(app), Service::ApiGateway),
        final(app).keeps_shell(*old(app)),
{
    app.apig_state.detail_tab = app.apig_state.detail_tab.prev();
}

/// Closes the expanded row of the API list.
pub fn prev_pane(app: &mut App)
    ensures
        final(app).apig_state == (State { apis: final(app).apig_state.apis, ..old(app).apig_state }),
        final(app).apig_state.apis.expanded_item is None,
        final(app).apig_state.apis.selected == old(app).apig_state.apis.selected,
        final(app).apig_state.apis.scroll_offset == old(app).apig_state.apis.scroll_offset,
        final(app).apig_state.apis.same_content(old(app).apig_state.apis),
        final(app).unchanged_except(*old(app), Service::ApiGateway),
        final(app).keeps_shell(*old(app)),
{
    app.apig_state.apis.collapse();
}

// ── Select / go back ─────────────────────────────────────────────────────────

fn copy_api(a: &RestApi) -> (r: RestApi)
    ensures
        r == *a,
{
    RestApi {
        id: a.id.clone(),
        name: a.name.clone(),
        description: a.description.clone(),
        created_date: a.created_date.clone(),
        api_key_source: a.api_key_source.clone(),
        endpoint_configuration: a.endpoint_configuration.clone(),
        protocol_type: a.protocol_type.clone(),
        disable_execute_api_endpoint: a.disable_execute_api_endpoint,
        status: a.status.clone(),
    }
}

/// Opens the selected API (among the filtered ones): its resources are asked
/// for when it is a REST API, its routes otherwise; the tab title follows.
pub fn select_item(app: &mut App)
    ensures
        ({
            let s = old(app).apig_state;
            let t = final(app).apig_state;
            let f = filtered_api_rows(s);
            if s.current_api is None && s.apis.selected < f.len() {
                let api = s.apis.items@[f[s.apis.selected as int] as int];
                &&& t.current_api == Some(api)
                &&& if is_rest(api) {
                    t == (State {
                        current_api: Some(api),
                        resources: TableState { loading: true, ..s.resources },
                        ..s
                    })
                } else {
                    t == (State { current_api: Some(api), routes: TableState { loading: true, ..s.routes }, ..s })
                }
                &&& crate::columns::string_names(final(app).tab_breadcrumb@) == final(app).current_breadcrumb()
            } else {
                *final(app) == *old(app)
            }
        }),
        final(app).unchanged_except(*old(app), Service::ApiGateway),
        final(app).view_mode == old(app).view_mode,
        final(app).column_selector_index == old(app).column_selector_index,
        final(app).current_service == old(app).current_service,
{
    if app.apig_state.current_api.is_none() {
        let filtered = filtered_apis(&app.apig_state);
        match app.apig_state.apis.get_selected(&filtered) {
            Some(idx) => {
                proof {
                    crate::table::lemma_kept_indices_bounded(
                        app.apig_state.apis.items@.len(),
                        |k: int| crate::apig::api_kept(app.apig_state.apis.items@[k], app.apig_state.apis.filter@),
                    );
                }
                let api = copy_api(&app.apig_state.apis.items[idx]);
                let rest = api_is_rest(&api);
                app.apig_state.current_api = Some(api);
                if rest {
                    app.apig_state.resources.loading = true;
                } else {
                    app.apig_state.routes.loading = true;
                }
                let ghost mid = *app;
                app.update_current_tab_breadcrumb();
                assert(app.current_breadcrumb() == mid.current_breadcrumb());
            },
            None => {},
        }
    }
}

/// Leaves the API: its routes are dropped, the routes tab is the one to come
/// back to, and the tab title follows.
pub fn go_back(app: &mut App)
    ensures
        ({
            let s = old(app).apig_state;
            let t = final(app).apig_state;
            &&& t == (State {
                current_api: None,
                routes: TableState { items: t.routes.items, ..s.routes },
                detail_tab: ApiDetailTab::Routes,
                ..s
            })
            &&& t.routes.items@.len() == 0
            &&& crate::columns::string_names(final(app).tab_breadcrumb@) == final(app).current_breadcrumb()
        }),
        final(app).unchanged_except(*old(app), Service::ApiGateway),
        final(app).view_mode == old(app).view_mode,
        final(app).column_selector_index == old(app).column_selector_index,
        final(app).current_service == old(app).current_service,
{
    app.apig_state.current_api = None;
    app.apig_state.routes.items.clear();
    app.apig_state.detail_tab = ApiDetailTab::Routes;
    let ghost mid = *app;
    app.update_current_tab_breadcrumb();
    assert(app.current_breadcrumb() == mid.current_breadcrumb());
}

// ── Breadcrumb ───────────────────────────────────────────────────────────────

/// The breadcrumb of the view: `API Gateway`, then the open API's name or `APIs`.
pub open spec fn breadcrumb_of(s: State) -> Seq<Seq<char>> {
    seq![
        "API Gateway"@,
        match s.current_api {
            Some(api) => api.name@,
            None => "APIs"@,
        },
    ]
}

/// The breadcrumb of the view.
pub fn breadcrumb(app: &App) -> (r: Vec<String>)
    ensures
        string_names(r@) == breadcrumb_of(app.apig_state),
{
    let second = match &app.apig_state.current_api {
        Some(api) => api.name.clone(),
        None => String::from_str("APIs"),
    };
    let r = vec![String::from_str("API Gateway"), second];
    assert(string_names(r@) =~= breadcrumb_of(app.apig_state));
    r
}

// ── Column preferences ───────────────────────────────────────────────────────

/// The last row of the preferences panel: the API columns, then the page sizes.
pub fn column_selector_max(app: &App) -> (r: usize)
    requires
        app.apig_api_column_ids@.len() + 6 <= usize::MAX,
    ensures
        r == app.apig_api_column_ids@.len() + 6,
{
    app.apig_api_column_ids.len() + 6
}

/// The number of API columns.
pub fn column_count(app: &App) -> (r: usize)
    ensures
        r == app.apig_api_column_ids@.len(),
{
    app.apig_api_column_ids.len()
}

/// Moves the preferences cursor between the columns section and the page-size
/// section (row `columns + 2`).
pub fn next_preferences(app: &mut App)
    requires
        old(app).apig_api_column_ids@.len() + 2 <= usize::MAX,
    ensures
        ({
            let p = old(app).apig_api_column_ids@.len() + 2;
            final(app).column_selector_index == (if old(app).column_selector_index < p { p } else { 0 })
        }),
        final(app).apig_state == old(app).apig_state,
        final(app).unchanged_except(*old(app), Service::Other),
        final(app).view_mode == old(app).view_mode,
        final(app).current_service == old(app).current_service,
        final(app).tab_breadcrumb@ == old(app).tab_breadcrumb@,
{
    let page_size_idx = app.apig_api_column_ids.len() + 2;
    if app.column_selector_index < page_size_idx {
        app.column_selector_index = page_size_idx;
    } else {
        app.column_selector_index = 0;
    }
}

/// Moves the preferences cursor the other way.
pub fn prev_preferences(app: &mut App)
    requires
        old(app).apig_api_column_ids@.len() + 2 <= usize::MAX,
    ensures
        ({
            let p = old(app).apig_api_column_ids@.len() + 2;
            final(app).column_selector_index == (if old(app).column_selector_index == 0 { p } else { 0 })
        }),
        final(app).apig_state == old(app).apig_state,
        final(app).unchanged_except(*old(app), Service::Other),
        final(app).view_mode == old(app).view_mode,
        final(app).current_service == old(app).current_service,
        final(app).tab_breadcrumb@ == old(app).tab_breadcrumb@,
{
    let page_size_idx = app.apig_api_column_ids.len() + 2;
    if app.column_selector_index == 0 {
        app.column_selector_index = page_size_idx;
    } else {
        app.column_selector_index = 0;
    }
}

/// The page size on preferences row `idx` after `n` column rows: 10, 25, 50
/// and 100 on rows `n + 3` to `n + 6`.
pub open spec fn api_page_size_row(idx: int, n: int) -> Option<PageSize> {
    if idx == n + 3 {
        Some(PageSize::Ten)
    } else if idx == n + 4 {
        Some(PageSize::TwentyFive)
    } else if idx == n + 5 {
        Some(PageSize::Fifty)
    } else if idx == n + 6 {
        Some(PageSize::OneHundred)
    } else {
        None
    }
}

/// What applying the preferences row under the cursor does. On the routes tab
/// of an open API it shows or hides the resource columns (REST) or the route
/// columns, the first of which stays; nothing on its other tabs. In the list
/// it shows or hides an API column, or picks the page size.
pub open spec fn toggle_column_done(new: App, old: App) -> bool {
    let s = old.apig_state;
    let idx = old.column_selector_index as int;
    let same_lists = new.apig_api_visible_column_ids@ == old.apig_api_visible_column_ids@
        && new.apig_resource_visible_column_ids@ == old.apig_resource_visible_column_ids@
        && new.apig_route_visible_column_ids@ == old.apig_route_visible_column_ids@;
    match s.current_api {
        Some(api) => {
            &&& new.apig_state == s
            &&& new.apig_api_visible_column_ids@ == old.apig_api_visible_column_ids@
            &&& if s.detail_tab == ApiDetailTab::Routes && is_rest(api) {
                &&& new.apig_route_visible_column_ids@ == old.apig_route_visible_column_ids@
                &&& id_names(new.apig_resource_visible_column_ids@) == (if idx > 1 {
                    toggled_at(id_names(old.apig_resource_visible_column_ids@), id_names(old.apig_resource_column_ids@), idx, false)
                } else {
                    id_names(old.apig_resource_visible_column_ids@)
                })
            } else if s.detail_tab == ApiDetailTab::Routes {
                &&& new.apig_resource_visible_column_ids@ == old.apig_resource_visible_column_ids@
                &&& id_names(new.apig_route_visible_column_ids@) == (if idx > 1 {
                    toggled_at(id_names(old.apig_route_visible_column_ids@), id_names(old.apig_route_column_ids@), idx, false)
                } else {
                    id_names(old.apig_route_visible_column_ids@)
                })
            } else {
                same_lists
            }
        },
        None => {
            let n = old.apig_api_column_ids@.len() as int;
            &&& new.apig_resource_visible_column_ids@ == old.apig_resource_visible_column_ids@
            &&& new.apig_route_visible_column_ids@ == old.apig_route_visible_column_ids@
            &&& id_names(new.apig_api_visible_column_ids@) == toggled_at(
                id_names(old.apig_api_visible_column_ids@), id_names(old.apig_api_column_ids@), idx, false)
            &&& new.apig_state == (match api_page_size_row(idx, n) {
                Some(p) => State { apis: TableState { page_size: p, ..s.apis }, ..s },
                None => s,
            })
        },
    }
}

/// Applies the preferences row under the cursor (see `toggle_column_done`).
pub fn toggle_column(app: &mut App)
    requires
        old(app).apig_api_column_ids@.len() + 6 <= usize::MAX,
    ensures
        toggle_column_done(*final(app), *old(app)),
        final(app).apig_api_column_ids@ == old(app).apig_api_column_ids@,
        final(app).apig_resource_column_ids@ == old(app).apig_resource_column_ids@,
        final(app).apig_route_column_ids@ == old(app).apig_route_column_ids@,
        final(app).unchanged_except(*old(app), Service::ApiGateway),
        final(app).keeps_shell(*old(app)),
{
    let idx = app.column_selector_index;
    match &app.apig_state.current_api {
        Some(api) => {
            if app.apig_state.detail_tab == ApiDetailTab::Routes {
                if api_is_rest(api) {
                    if idx > 1 {
                        toggle_visible(&mut app.apig_resource_visible_column_ids, &app.apig_resource_column_ids, idx, false);
                    }
                } else {
                    if idx > 1 {
                        toggle_visible(&mut app.apig_route_visible_column_ids, &app.apig_route_column_ids, idx, false);
                    }
                }
            }
        },
        None => {
            let n = app.apig_api_column_ids.len();
            if idx > 0 && idx <= n {
                toggle_visible(&mut app.apig_api_visible_column_ids, &app.apig_api_column_ids, idx, false);
            } else {
                assert(id_names(app.apig_api_visible_column_ids@) == toggled_at(
                    id_names(app.apig_api_visible_column_ids@), id_names(app.apig_api_column_ids@), idx as int, false));
                if idx == n + 3 {
                    app.apig_state.apis.page_size = PageSize::Ten;
                } else if idx == n + 4 {
                    app.apig_state.apis.page_size = PageSize::TwentyFive;
                } else if idx == n + 5 {
                    app.apig_state.apis.page_size = PageSize::Fifty;
                } else if idx == n + 6 {
                    app.apig_state.apis.page_size = PageSize::OneHundred;
                }
            }
        },
    }
}

// ── Tree rows ────────────────────────────────────────────────────────────────

/// The route key at row `target_row` of the routes on screen, counting rows
/// from `*current_row` on, the open keys and the lists of routes under them
/// being the view's; when the row is not among them, none, with
/// `*current_row` moved past them.
pub fn find_route_at_row(app: &App, routes: &[Route], target_row: usize, current_row: &mut usize) -> (r: Option<String>)
    requires
        route_tree_finite(routes@, app.apig_state.expanded_routes@, app.apig_state.route_children@),
        *old(current_row) + visible_routes(routes@, app.apig_state.expanded_routes@, app.apig_state.route_children@).len()
            <= usize::MAX,
    ensures
        ({
            let rows = visible_routes(routes@, app.apig_state.expanded_routes@, app.apig_state.route_children@);
            let c = *old(current_row);
            if c <= target_row < c + rows.len() {
                r is Some && r.unwrap()@ == rows[target_row - c].route_key@ && *final(current_row) == target_row
            } else {
                r is None && *final(current_row) == c + rows.len()
            }
        }),
{
    route_key_at_row(&app.apig_state.expanded_routes, &app.apig_state.route_children, routes, target_row, current_row)
}

/// The id of the route at row `target_row` as the routes page addresses it,
/// the lists of routes under each key being `children_map` (see
/// `route_id_scan`).
pub fn find_route_id_at_row_with_children(
    app: &App,
    routes: &[Route],
    children_map: &Vec<(String, Vec<Route>)>,
    target_row: usize,
    current_row: &mut usize,
) -> (r: Option<String>)
    requires
        route_tree_finite(routes@, app.apig_state.expanded_routes@, children_map@),
        *old(current_row) + visible_routes(routes@, app.apig_state.expanded_routes@, children_map@).len() <= usize::MAX,
    ensures
        ({
            let scan = route_id_scan(routes@, app.apig_state.expanded_routes@, children_map@, target_row as int,
                *old(current_row) as int, route_depth(routes@, app.apig_state.expanded_routes@, children_map@));
            &&& match r {
                Some(id) => scan.0 == Some(id@),
                None => scan.0 is None,
            }
            &&& *final(current_row) == scan.1
        }),
{
    route_id_at_row(&app.apig_state.expanded_routes, children_map, routes, target_row, current_row)
}

/// The row of the first route on screen that opens and lists the route of
/// key `child_key`, if any.
pub fn find_parent_row(app: &App, routes: &[Route], child_key: &str) -> (r: Option<usize>)
    requires
        route_tree_finite(routes@, app.apig_state.expanded_routes@, app.apig_state.route_children@),
        visible_routes(routes@, app.apig_state.expanded_routes@, app.apig_state.route_children@).len() <= usize::MAX,
    ensures
        ({
            let rows = visible_routes(routes@, app.apig_state.expanded_routes@, app.apig_state.route_children@);
            let ex = app.apig_state.expanded_routes@;
            let ch = app.apig_state.route_children@;
            match r {
                Some(p) => p < rows.len() && route_parent_of(rows[p as int], ex, ch, child_key@)
                    && forall|j: int| 0 <= j < p ==> !route_parent_of(#[trigger] rows[j], ex, ch, child_key@),
                None => forall|j: int| 0 <= j < rows.len() ==> !route_parent_of(#[trigger] rows[j], ex, ch, child_key@),
            }
        }),
{
    route_parent_row(&app.apig_state.expanded_routes, &app.apig_state.route_children, routes, child_key)
}

/// The resource id at row `target_row` of the resources on screen, counting
/// rows from `*current_row` on; when the row is not among them, none, with
/// `*current_row` moved past them.
pub fn find_resource_at_row(app: &App, resources: &[Resource], target_row: usize, current_row: &mut usize) -> (r: Option<String>)
    requires
        resource_tree_finite(resources@, app.apig_state.expanded_resources@, app.apig_state.resource_children@),
        *old(current_row) + visible_resources(resources@, app.apig_state.expanded_resources@, app.apig_state.resource_children@).len()
            <= usize::MAX,
    ensures
        ({
            let rows = visible_resources(resources@, app.apig_state.expanded_resources@, app.apig_state.resource_children@);
            let c = *old(current_row);
            if c <= target_row < c + rows.len() {
                r is Some && r.unwrap()@ == rows[target_row - c].id@ && *final(current_row) == target_row
            } else {
                r is None && *final(current_row) == c + rows.len()
            }
        }),
{
    resource_id_at_row(&app.apig_state.expanded_resources, &app.apig_state.resource_children, resources, target_row, current_row)
}

/// The row of the first resource on screen that opens and lists the resource
/// of id `child_id`, if any.
pub fn find_resource_parent_row(app: &App, resources: &[Resource], child_id: &str) -> (r: Option<usize>)
    requires
        resource_tree_finite(resources@, app.apig_state.expanded_resources@, app.apig_state.resource_children@),
        visible_resources(resources@, app.apig_state.expanded_resources@, app.apig_state.resource_children@).len() <= usize::MAX,
    ensures
        ({
            let rows = visible_resources(resources@, app.apig_state.expanded_resources@, app.apig_state.resource_children@);
            let ex = app.apig_state.expanded_resources@;
            let ch = app.apig_state.resource_children@;
            match r {
                Some(p) => p < rows.len() && resource_parent_of(rows[p as int], ex, ch, child_id@)
                    && forall|j: int| 0 <= j < p ==> !resource_parent_of(#[trigger] rows[j], ex, ch, child_id@),
                None => forall|j: int| 0 <= j < rows.len() ==> !resource_parent_of(#[trigger] rows[j], ex, ch, child_id@),
            }
        }),
{
    resource_parent_row(&app.apig_state.expanded_resources, &app.apig_state.resource_children, resources, child_id)
}

/// The resources that pass the route filter, as copied out, take the same rows
/// on screen as the resources of the state that pass it.
proof fn lemma_filtered_resources(v: Seq<Resource>, s: State)
    requires
        same_resources(v, shown_resources(s)),
        trees_finite(s),
    ensures
        resource_tree_finite(v, s.expanded_resources@, s.resource_children@),
        same_resources(
            visible_resources(v, s.expanded_resources@, s.resource_children@),
            visible_resources(shown_resources(s), s.expanded_resources@, s.resource_children@),
        ),
{
    let ex = s.expanded_resources@;
    let ch = s.resource_children@;
    let shown = shown_resources(s);
    let d = resource_depth(shown, ex, ch);
    lemma_resource_rows_same(v, shown, ex, ch, d);
    assert(resource_rows(v, ex, ch, d) is Some);
    let d2 = resource_depth(v, ex, ch);
    lemma_resource_rows_same(v, shown, ex, ch, d2);
    crate::apig::tree::lemma_resource_rows_depth(shown, ex, ch, d2, d);
}

/// `keys` with `key` added at the end.
pub open spec fn with_key(keys: Seq<Seq<char>>, key: Seq<char>) -> Seq<Seq<char>> {
    keys.push(key)
}

/// `keys` without any occurrence of `key`.
pub open spec fn without_key(keys: Seq<Seq<char>>, key: Seq<char>) -> Seq<Seq<char>>
    decreases keys.len(),
{
    if keys.len() == 0 {
        keys
    } else {
        let before = without_key(keys.drop_last(), key);
        if keys.last() == key { before } else { before.push(keys.last()) }
    }
}

/// Drops every occurrence of `key`.
fn remove_key(keys: &mut Vec<String>, key: &str)
    ensures
        string_names(final(keys)@) == without_key(string_names(old(keys)@), key@),
{
    let mut out: Vec<String> = Vec::new();
    let mut i: usize = 0;
    assert(string_names(keys@).take(0) =~= Seq::<Seq<char>>::empty());
    while i < keys.len()
        invariant
            i <= keys@.len(),
            string_names(out@) == without_key(string_names(keys@).take(i as int), key@),
        decreases keys@.len() - i,
    {
        assert(string_names(keys@).take(i + 1).drop_last() =~= string_names(keys@).take(i as int));
        if !str_eq(keys[i].as_str(), key) {
            out.push(keys[i].clone());
            assert(string_names(out@) =~= without_key(string_names(keys@).take(i as int), key@).push(keys@[i as int]@));
        }
        i = i + 1;
    }
    assert(string_names(keys@).take(keys@.len() as int) =~= string_names(keys@));
    *keys = out;
}

/// What opening the selected row does. On the routes tab of an open API: the
/// row of the tree on screen (its filtered resources for a REST API, its
/// filtered routes otherwise) opens when it is closed, and the cursor goes one
/// row down when it is open. Nothing on the other tabs; in the list the
/// selected API's row expands.
pub open spec fn expand_row_done(new: State, old: State) -> bool {
    match old.current_api {
        Some(api) => if old.detail_tab == ApiDetailTab::Routes {
            if is_rest(api) {
                let rows = visible_resources(shown_resources(old), old.expanded_resources@, old.resource_children@);
                let sel = old.resources.selected as int;
                if sel < rows.len() {
                    let key = rows[sel].id@;
                    if holds_key(old.expanded_resources@, key) {
                        new == with_resources(old, TableState {
                            selected: if sel + 1 < rows.len() { (sel + 1) as usize } else { sel as usize },
                            ..old.resources
                        })
                    } else {
                        &&& new == State { expanded_resources: new.expanded_resources, ..old }
                        &&& string_names(new.expanded_resources@) == with_key(string_names(old.expanded_resources@), key)
                    }
                } else {
                    new == old
                }
            } else {
                let rows = visible_routes(shown_routes(old), old.expanded_routes@, old.route_children@);
                let sel = old.routes.selected as int;
                if sel < rows.len() {
                    let key = rows[sel].route_key@;
                    if holds_key(old.expanded_routes@, key) {
                        new == with_routes(old, TableState {
                            selected: if sel + 1 < rows.len() { (sel + 1) as usize } else { sel as usize },
                            ..old.routes
                        })
                    } else {
                        &&& new == State { expanded_routes: new.expanded_routes, ..old }
                        &&& string_names(new.expanded_routes@) == with_key(string_names(old.expanded_routes@), key)
                    }
                } else {
                    new == old
                }
            }
        } else {
            new == old
        },
        None => {
            &&& new == State { apis: new.apis, ..old }
            &&& new.apis.expanded_item == Some(old.apis.selected)
            &&& new.apis.selected == old.apis.selected
            &&& new.apis.scroll_offset == old.apis.scroll_offset
            &&& new.apis.same_content(old.apis)
        },
    }
}

/// Opens the selected row (see `expand_row_done`).
pub fn expand_row(app: &mut App)
    requires
        trees_finite(old(app).apig_state),
    ensures
        expand_row_done(final(app).apig_state, old(app).apig_state),
        final(app).unchanged_except(*old(app), Service::ApiGateway),
        final(app).keeps_shell(*old(app)),
{
    let ghost s = app.apig_state;
    match &app.apig_state.current_api {
        Some(api) => {
            if app.apig_state.detail_tab == ApiDetailTab::Routes {
                if api_is_rest(api) {
                    let filtered = filter_resources(&app.apig_state.resources.items, app.apig_state.route_filter.as_str());
                    proof {
                        lemma_filtered_resources(filtered@, s);
                    }
                    let selected_row = app.apig_state.resources.selected;
                    let mut current_row: usize = 0;
                    if let Some(resource_id) = find_resource_at_row(app, filtered.as_slice(), selected_row, &mut current_row) {
                        if contains_key(&app.apig_state.expanded_resources, resource_id.as_str()) {
                            let total = count_resource_rows(
                                &app.apig_state.expanded_resources,
                                &app.apig_state.resource_children,
                                filtered.as_slice(),
                            );
                            if selected_row < total - 1 {
                                app.apig_state.resources.selected = selected_row + 1;
                            }
                        } else {
                            app.apig_state.expanded_resources.push(resource_id);
                            assert(string_names(app.apig_state.expanded_resources@) =~= with_key(string_names(s.expanded_resources@), resource_id@));
                        }
                    }
                } else {
                    let filtered = filter_routes(&app.apig_state.routes.items, app.apig_state.route_filter.as_str());
                    let selected_row = app.apig_state.routes.selected;
                    let mut current_row: usize = 0;
                    if let Some(route_key) = find_route_at_row(app, filtered.as_slice(), selected_row, &mut current_row) {
                        if contains_key(&app.apig_state.expanded_routes, route_key.as_str()) {
                            let total = count_route_rows(
                                &app.apig_state.expanded_routes,
                                &app.apig_state.route_children,
                                filtered.as_slice(),
                            );
                            if selected_row < total - 1 {
                                app.apig_state.routes.selected = selected_row + 1;
                            }
                        } else {
                            app.apig_state.expanded_routes.push(route_key);
                            assert(string_names(app.apig_state.expanded_routes@) =~= with_key(string_names(s.expanded_routes@), route_key@));
                        }
                    }
                }
            }
        },
        None => {
            app.apig_state.apis.expand();
        },
    }
}

/// Row `p` is the first of `rows` whose resource opens and lists `key`.
pub open spec fn first_resource_parent(rows: Seq<Resource>, ex: Seq<String>, ch: Seq<(String, Vec<Resource>)>, key: Seq<char>, p: int) -> bool {
    &&& 0 <= p < rows.len()
    &&& resource_parent_of(rows[p], ex, ch, key)
    &&& forall|j: int| 0 <= j < p ==> !resource_parent_of(#[trigger] rows[j], ex, ch, key)
}

/// Row `p` is the first of `rows` whose route opens and lists `key`.
pub open spec fn first_route_parent(rows: Seq<Route>, ex: Seq<String>, ch: Seq<(String, Vec<Route>)>, key: Seq<char>, p: int) -> bool {
    &&& 0 <= p < rows.len()
    &&& route_parent_of(rows[p], ex, ch, key)
    &&& forall|j: int| 0 <= j < p ==> !route_parent_of(#[trigger] rows[j], ex, ch, key)
}

/// What closing the selected row does. On the routes tab of an open API: the
/// row of the tree on screen closes when it is open; when it is closed, the
/// cursor goes to the first row on screen that lists it, if any. Nothing on
/// the other tabs; in the list the expanded API row closes.
pub open spec fn collapse_row_done(new: State, old: State) -> bool {
    match old.current_api {
        Some(api) => if old.detail_tab == ApiDetailTab::Routes {
            if is_rest(api) {
                let ex = old.expanded_resources@;
                let ch = old.resource_children@;
                let rows = visible_resources(shown_resources(old), ex, ch);
                let sel = old.resources.selected as int;
                if sel < rows.len() {
                    let key = rows[sel].id@;
                    if holds_key(ex, key) {
                        &&& new == State { expanded_resources: new.expanded_resources, ..old }
                        &&& string_names(new.expanded_resources@) == without_key(string_names(ex), key)
                    } else if exists|p: int| first_resource_parent(rows, ex, ch, key, p) {
                        exists|p: int| first_resource_parent(rows, ex, ch, key, p)
                            && new == with_resources(old, TableState { selected: p as usize, ..old.resources })
                    } else {
                        new == old
                    }
                } else {
                    new == old
                }
            } else {
                let ex = old.expanded_routes@;
                let ch = old.route_children@;
                let rows = visible_routes(shown_routes(old), ex, ch);
                let sel = old.routes.selected as int;
                if sel < rows.len() {
                    let key = rows[sel].route_key@;
                    if holds_key(ex, key) {
                        &&& new == State { expanded_routes: new.expanded_routes, ..old }
                        &&& string_names(new.expanded_routes@) == without_key(string_names(ex), key)
                    } else if exists|p: int| first_route_parent(rows, ex, ch, key, p) {
                        exists|p: int| first_route_parent(rows, ex, ch, key, p)
                            && new == with_routes(old, TableState { selected: p as usize, ..old.routes })
                    } else {
                        new == old
                    }
                } else {
                    new == old
                }
            }
        } else {
            new == old
        },
        None => {
            &&& new == State { apis: new.apis, ..old }
            &&& new.apis.expanded_item is None
            &&& new.apis.selected == old.apis.selected
            &&& new.apis.scroll_offset == old.apis.scroll_offset
            &&& new.apis.same_content(old.apis)
        },
    }
}

/// Closes the selected row (see `collapse_row_done`).
pub fn collapse_row(app: &mut App)
    requires
        trees_finite(old(app).apig_state),
    ensures
        collapse_row_done(final(app).apig_state, old(app).apig_state),
        final(app).unchanged_except(*old(app), Service::ApiGateway),
        final(app).keeps_shell(*old(app)),
{
    let ghost s = app.apig_state;
    match &app.apig_state.current_api {
        Some(api) => {
            if app.apig_state.detail_tab == ApiDetailTab::Routes {
                if api_is_rest(api) {
                    let filtered = filter_resources(&app.apig_state.resources.items, app.apig_state.route_filter.as_str());
                    proof {
                        lemma_filtered_resources(filtered@, s);
                    }
                    let ghost rows = visible_resources(shown_resources(s), s.expanded_resources@, s.resource_children@);
                    let ghost frows = visible_resources(filtered@, s.expanded_resources@, s.resource_children@);
                    let selected_row = app.apig_state.resources.selected;
                    let mut current_row: usize = 0;
                    if let Some(resource_id) = find_resource_at_row(app, filtered.as_slice(), selected_row, &mut current_row) {
                        assert(frows[selected_row as int].id == rows[selected_row as int].id);
                        if contains_key(&app.apig_state.expanded_resources, resource_id.as_str()) {
                            remove_key(&mut app.apig_state.expanded_resources, resource_id.as_str());
                        } else {
                            let parent = find_resource_parent_row(app, filtered.as_slice(), resource_id.as_str());
                            assert forall|j: int| 0 <= j < rows.len() implies
                                resource_parent_of(#[trigger] rows[j], s.expanded_resources@, s.resource_children@, resource_id@)
                                    == resource_parent_of(frows[j], s.expanded_resources@, s.resource_children@, resource_id@) by {
                                assert(crate::apig::tree::same_resource(frows[j], rows[j]));
                            }
                            if let Some(parent_row) = parent {
                                assert(first_resource_parent(rows, s.expanded_resources@, s.resource_children@, resource_id@, parent_row as int));
                                app.apig_state.resources.selected = parent_row;
                            }
                        }
                    }
                } else {
                    let filtered = filter_routes(&app.apig_state.routes.items, app.apig_state.route_filter.as_str());
                    let ghost rows = visible_routes(shown_routes(s), s.expanded_routes@, s.route_children@);
                    let selected_row = app.apig_state.routes.selected;
                    let mut current_row: usize = 0;
                    if let Some(route_key) = find_route_at_row(app, filtered.as_slice(), selected_row, &mut current_row) {
                        if contains_key(&app.apig_state.expanded_routes, route_key.as_str()) {
                            remove_key(&mut app.apig_state.expanded_routes, route_key.as_str());
                        } else {
                            let parent = find_parent_row(app, filtered.as_slice(), route_key.as_str());
                            if let Some(parent_row) = parent {
                                assert(first_route_parent(rows, s.expanded_routes@, s.route_children@, route_key@, parent_row as int));
                                app.apig_state.routes.selected = parent_row;
                            }
                        }
                    }
                }
            }
        },
        None => {
            app.apig_state.apis.collapse();
        },
    }
}

/// The address of the view in the AWS console. On the routes tab of an open
/// REST API, its resources page anchored at the resource of the selected row
/// (when the row number is below the number of filtered resources and on
/// screen); of another open API, its routes page with the route found for the
/// selected row (see `route_id_scan`); on other tabs the API's page; in the
/// list the APIs page.
pub open spec fn console_address(app: App) -> Seq<char> {
    let s = app.apig_state;
    let region = app.config.region@;
    match s.current_api {
        Some(api) => if s.detail_tab == ApiDetailTab::Routes {
            if is_rest(api) {
                let rows = visible_resources(shown_resources(s), s.expanded_resources@, s.resource_children@);
                let sel = s.resources.selected as int;
                resources_address(region, api.id@, if sel < shown_resources(s).len() && sel < rows.len() {
                    Some(rows[sel].id@)
                } else {
                    None
                })
            } else {
                let shown = shown_routes(s);
                let rows = visible_routes(shown, s.expanded_routes@, s.route_children@);
                let sel = s.routes.selected as int;
                routes_address(region, api.id@, if sel < rows.len() {
                    route_id_scan(shown, s.expanded_routes@, s.route_children@, sel, 0,
                        route_depth(shown, s.expanded_routes@, s.route_children@)).0
                } else {
                    None
                })
            }
        } else {
            api_address(region, api.id@)
        },
        None => apis_address(region),
    }
}

/// The address of the view in the AWS console (see `console_address`).
pub fn console_url(app: &App) -> (r: String)
    requires
        trees_finite(app.apig_state),
    ensures
        r@ == console_address(*app),
{
    let ghost s = app.apig_state;
    let region = app.config.region.as_str();
    match &app.apig_state.current_api {
        Some(api) => {
            if app.apig_state.detail_tab == ApiDetailTab::Routes {
                if api_is_rest(api) {
                    let filtered = filter_resources(&app.apig_state.resources.items, app.apig_state.route_filter.as_str());
                    proof {
                        lemma_filtered_resources(filtered@, s);
                    }
                    let resource_id = if app.apig_state.resources.selected < filtered.len() {
                        let mut current_row: usize = 0;
                        find_resource_at_row(app, filtered.as_slice(), app.apig_state.resources.selected, &mut current_row)
                    } else {
                        None
                    };
                    match &resource_id {
                        Some(rid) => console_url_resources(region, api.id.as_str(), Some(rid.as_str())),
                        None => console_url_resources(region, api.id.as_str(), None),
                    }
                } else {
                    let filtered = filter_routes(&app.apig_state.routes.items, app.apig_state.route_filter.as_str());
                    let total = count_route_rows(&app.apig_state.expanded_routes, &app.apig_state.route_children, filtered.as_slice());
                    let route_id = if app.apig_state.routes.selected < total {
                        let mut current_row: usize = 0;
                        find_route_id_at_row_with_children(
                            app,
                            filtered.as_slice(),
                            &app.apig_state.route_children,
                            app.apig_state.routes.selected,
                            &mut current_row,
                        )
                    } else {
                        None
                    };
                    match &route_id {
                        Some(rid) => console_url_routes(region, api.id.as_str(), Some(rid.as_str())),
                        None => console_url_routes(region, api.id.as_str(), None),
                    }
                }
            } else {
                console_url_api(region, api.id.as_str())
            }
        },
        None => console_url_apis(region),
    }
}

/// The text to copy: on the routes tab of an open API, the ARN of the
/// selected route among the filtered ones, when it has one.
pub open spec fn yank_text(s: State) -> Option<Seq<char>> {
    let shown = shown_routes(s);
    let sel = s.routes.selected as int;
    if on_routes_tab(s) && sel < shown.len() && shown[sel].arn@.len() > 0 {
        Some(shown[sel].arn@)
    } else {
        None
    }
}

/// The text to copy (see `yank_text`).
pub fn yank(app: &App) -> (r: Option<String>)
    ensures
        match r {
            Some(t) => yank_text(app.apig_state) == Some(t@),
            None => yank_text(app.apig_state) is None,
        },
{
    if app.apig_state.current_api.is_some() && app.apig_state.detail_tab == ApiDetailTab::Routes {
        let filtered = filter_routes(&app.apig_state.routes.items, app.apig_state.route_filter.as_str());
        if app.apig_state.routes.selected < filtered.len() {
            let route = &filtered[app.apig_state.routes.selected];
            if route.arn.unicode_len() > 0 {
                return Some(route.arn.clone());
            }
        }
    }
    None
}

/// The filter that typed characters edit: the route filter when an API is
/// open on its routes tab, else the API list's filter.
pub fn get_active_filter_mut(app: &mut App) -> (r: Option<&mut String>)
    ensures
        r is Some,
        on_routes_tab(old(app).apig_state) ==> {
            &&& *r.unwrap() == old(app).apig_state.route_filter
            &&& *final(app) == (App {
                apig_state: State { route_filter: *final(r.unwrap()), ..old(app).apig_state },
                ..*old(app)
            })
        },
        !on_routes_tab(old(app).apig_state) ==> {
            &&& *r.unwrap() == old(app).apig_state.apis.filter
            &&& *final(app) == (App {
                apig_state: State {
                    apis: TableState { filter: *final(r.unwrap()), ..old(app).apig_state.apis },
                    ..old(app).apig_state
                },
                ..*old(app)
            })
        },
{
    if app.apig_state.current_api.is_some() && app.apig_state.detail_tab == ApiDetailTab::Routes {
        Some(&mut app.apig_state.route_filter)
    } else {
        Some(&mut app.apig_state.apis.filter)
    }
}

} // verus!

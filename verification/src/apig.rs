//! API Gateway view: the status label, console addresses, the view's state and
//! which APIs and tree rows pass its filter.
use vstd::prelude::*;
use vstd::string::*;
use crate::common::{lookup, with_defaults, InputFocus, Translations};
use crate::table::{kept_indices, TableState};
use crate::text::{filter_keeps, filter_matches, owned, str_eq, to_upper, upper_case};

pub mod actions;
pub mod api;
pub mod resource;
pub mod route;
pub mod tree;

pub use crate::cloud::apig::RestApi;
use crate::apig::resource::Resource;
use crate::apig::route::Route;

use crate::common::{cyclic_next, cyclic_prev, lemma_cyclic_law, CyclicEnum};

verus! {

/// Gives the API columns their default labels, unless they already have a
/// translation.
pub fn init(tr: &mut Translations)
    ensures
        forall|k: Seq<char>| #[trigger] lookup(final(tr).entries@, k) == with_defaults(
            lookup(old(tr).entries@, k), api::default_labels().0, api::default_labels().1, k),
{
    api::init(tr);
}

/// The colour an API status is drawn in.
#[derive(Clone, Copy, Debug, PartialEq, Eq, Structural)]
pub enum StatusColor {
    Green,
    White,
}

/// The label and colour of an API status, given the status and its
/// upper-cased form: a check mark and `Available` in green when the
/// upper-cased form is `AVAILABLE`; else the status itself in white.
pub open spec fn status_label_for(status: Seq<char>, upper: Seq<char>) -> (Seq<char>, StatusColor) {
    if upper == "AVAILABLE"@ {
        ("✅ Available"@, StatusColor::Green)
    } else {
        (status, StatusColor::White)
    }
}

/// The label and colour of an API status: a check mark and `Available` in
/// green when the status, upper-cased, is `AVAILABLE`; else the status itself
/// in white.
pub open spec fn status_label(status: Seq<char>) -> (Seq<char>, StatusColor) {
    status_label_for(status, upper_case(status))
}

/// The label and colour of an API status, given the status and its
/// upper-cased form.
pub fn status_label_from(status: &str, upper: &str) -> (r: (String, StatusColor))
    ensures
        (r.0@, r.1) == status_label_for(status@, upper@),
{
    if str_eq(upper, "AVAILABLE") {
        (String::from_str("✅ Available"), StatusColor::Green)
    } else {
        (owned(status), StatusColor::White)
    }
}

/// The label and colour of an API status.
pub fn format_status(status: &str) -> (r: (String, StatusColor))
    ensures
        (r.0@, r.1) == status_label(status@),
{
    let upper = to_upper(status);
    status_label_from(status, upper.as_str())
}

/// The console address of the APIs of `region`.
pub open spec fn apis_address(region: Seq<char>) -> Seq<char> {
    "https://"@ + region + ".console.aws.amazon.com/apigateway/main/apis?region="@ + region
}

/// The console address of the APIs of `region`.
pub fn console_url_apis(region: &str) -> (r: String)
    ensures
        r@ == apis_address(region@),
{
    let mut s = String::from_str("https://");
    s.append(region);
    s.append(".console.aws.amazon.com/apigateway/main/apis?region=");
    s.append(region);
    s
}

/// The console address of one API.
pub open spec fn api_address(region: Seq<char>, api_id: Seq<char>) -> Seq<char> {
    "https://"@ + region + ".console.aws.amazon.com/apigateway/main/api-detail?api="@ + api_id + "&region="@
        + region
}

/// The console address of one API.
pub fn console_url_api(region: &str, api_id: &str) -> (r: String)
    ensures
        r@ == api_address(region@, api_id@),
{
    let mut s = String::from_str("https://");
    s.append(region);
    s.append(".console.aws.amazon.com/apigateway/main/api-detail?api=");
    s.append(api_id);
    s.append("&region=");
    s.append(region);
    s
}

/// The console address of the resources of a REST API, with the resource as
/// anchor when one is given.
pub open spec fn resources_address(region: Seq<char>, api_id: Seq<char>, resource_id: Option<Seq<char>>) -> Seq<char> {
    let base = "https://"@ + region + ".console.aws.amazon.com/apigateway/main/apis/"@ + api_id
        + "/resources?api="@ + api_id + "&region="@ + region;
    match resource_id {
        Some(rid) => base + "#"@ + rid,
        None => base,
    }
}

/// The console address of the resources of a REST API.
pub fn console_url_resources(region: &str, api_id: &str, resource_id: Option<&str>) -> (r: String)
    ensures
        r@ == resources_address(region@, api_id@, match resource_id {
            Some(rid) => Some(rid@),
            None => None,
        }),
{
    let mut s = String::from_str("https://");
    s.append(region);
    s.append(".console.aws.amazon.com/apigateway/main/apis/");
    s.append(api_id);
    s.append("/resources?api=");
    s.append(api_id);
    s.append("&region=");
    s.append(region);
    if let Some(rid) = resource_id {
        s.append("#");
        s.append(rid);
    }
    s
}

/// The console address of the routes of an HTTP or WebSocket API, with the
/// route selected when one is given.
pub open spec fn routes_address(region: Seq<char>, api_id: Seq<char>, route_id: Option<Seq<char>>) -> Seq<char> {
    let base = "https://"@ + region + ".console.aws.amazon.com/apigateway/main/develop/routes?api="@ + api_id
        + "&region="@ + region;
    match route_id {
        Some(rid) => base + "&routes="@ + rid,
        None => base,
    }
}

/// The console address of the routes of an HTTP or WebSocket API.
pub fn console_url_routes(region: &str, api_id: &str, route_id: Option<&str>) -> (r: String)
    ensures
        r@ == routes_address(region@, api_id@, match route_id {
            Some(rid) => Some(rid@),
            None => None,
        }),
{
    let mut s = String::from_str("https://");
    s.append(region);
    s.append(".console.aws.amazon.com/apigateway/main/develop/routes?api=");
    s.append(api_id);
    s.append("&region=");
    s.append(region);
    if let Some(rid) = route_id {
        s.append("&routes=");
        s.append(rid);
    }
    s
}

/// Tabs of the API detail view: its routes (or resources) and its details.
#[derive(Clone, Copy, Debug, PartialEq, Eq, Structural)]
pub enum ApiDetailTab {
    Routes,
    Details,
}

impl ApiDetailTab {
    /// The tab after this one, wrapping around.
    pub open spec fn following(self) -> ApiDetailTab {
        match self {
            ApiDetailTab::Routes => ApiDetailTab::Details,
            ApiDetailTab::Details => ApiDetailTab::Routes,
        }
    }

    /// The tab before this one, wrapping around.
    pub open spec fn preceding(self) -> ApiDetailTab {
        match self {
            ApiDetailTab::Routes => ApiDetailTab::Details,
            ApiDetailTab::Details => ApiDetailTab::Routes,
        }
    }

    /// The tab after this one, wrapping around.
    pub fn next(&self) -> (r: ApiDetailTab)
        ensures
            r == self.following(),
    {
        match self {
            ApiDetailTab::Routes => ApiDetailTab::Details,
            ApiDetailTab::Details => ApiDetailTab::Routes,
        }
    }

    /// The tab before this one, wrapping around.
    pub fn prev(&self) -> (r: ApiDetailTab)
        ensures
            r == self.preceding(),
    {
        match self {
            ApiDetailTab::Routes => ApiDetailTab::Details,
            ApiDetailTab::Details => ApiDetailTab::Routes,
        }
    }

    /// Going forward one and back one (or back, then forward) returns to
    /// where it started.
    pub proof fn lemma_cycle(t: ApiDetailTab)
        ensures
            t.following().preceding() == t,
            t.preceding().following() == t,
            <ApiDetailTab as CyclicEnum>::all_values().no_duplicates(),
            t.following() == cyclic_next(<ApiDetailTab as CyclicEnum>::all_values(), t),
            t.preceding() == cyclic_prev(<ApiDetailTab as CyclicEnum>::all_values(), t),
    {
        let all = <ApiDetailTab as CyclicEnum>::all_values();
        assert(all.no_duplicates()) by {
            assert forall|a: int, b: int| 0 <= a < all.len() && 0 <= b < all.len() && a != b implies all[a] != all[b] by {
            }
        }
        match t {
            ApiDetailTab::Routes => lemma_cyclic_law(all, 0),
            ApiDetailTab::Details => lemma_cyclic_law(all, 1),
        }
    }
}

/// The controls of the filter bar, in focus order.
pub open spec fn filter_controls() -> Seq<InputFocus> {
    seq![InputFocus::Filter, InputFocus::Pagination]
}

/// The controls of the filter bar, in focus order.
pub fn filter_control_list() -> (r: Vec<InputFocus>)
    ensures
        r@ == filter_controls(),
{
    let r = vec![InputFocus::Filter, InputFocus::Pagination];
    assert(r@ =~= filter_controls());
    r
}

/// State of the API Gateway view: the API list, the open API (if any), its
/// routes (HTTP and WebSocket APIs) or resources (REST APIs) as trees whose
/// rows open under their key, and the keys of the open rows.
pub struct State {
    pub apis: TableState<RestApi>,
    pub current_api: Option<RestApi>,
    pub detail_tab: ApiDetailTab,
    pub input_focus: InputFocus,
    pub route_filter: String,
    pub routes: TableState<Route>,
    pub resources: TableState<Resource>,
    pub expanded_routes: Vec<String>,
    pub expanded_resources: Vec<String>,
    pub route_children: Vec<(String, Vec<Route>)>,
    pub resource_children: Vec<(String, Vec<Resource>)>,
}

/// An API passes the list's filter when the filter occurs in its name.
pub open spec fn api_kept(a: RestApi, filter: Seq<char>) -> bool {
    filter_keeps(filter, a.name@)
}

/// Indices of the APIs that pass the list's filter.
pub open spec fn filtered_api_rows(s: State) -> Seq<usize> {
    kept_indices(s.apis.items@.len(), |k: int| api_kept(s.apis.items@[k], s.apis.filter@))
}

/// Indices of the APIs that pass the list's filter.
pub fn filtered_apis(s: &State) -> (r: Vec<usize>)
    ensures
        r@ == filtered_api_rows(*s),
{
    let n = s.apis.items.len();
    let mut out: Vec<usize> = Vec::new();
    let mut i: usize = 0;
    while i < n
        invariant
            n == s.apis.items@.len(),
            i <= n,
            out@ == kept_indices(i as nat, |k: int| api_kept(s.apis.items@[k], s.apis.filter@)),
        decreases n - i,
    {
        if filter_matches(s.apis.filter.as_str(), s.apis.items[i].name.as_str()) {
            out.push(i);
        }
        i = i + 1;
    }
    out
}


impl CyclicEnum for ApiDetailTab {
    open spec fn all_values() -> Seq<ApiDetailTab> {
        seq![ApiDetailTab::Routes, ApiDetailTab::Details]
    }

    fn all() -> (r: Vec<ApiDetailTab>) {
        let r = vec![ApiDetailTab::Routes, ApiDetailTab::Details];
        assert(r@ =~= Self::all_values());
        r
    }

    fn next(&self) -> (r: ApiDetailTab) {
        proof {
            ApiDetailTab::lemma_cycle(*self);
        }
        ApiDetailTab::next(self)
    }

    fn prev(&self) -> (r: ApiDetailTab) {
        proof {
            ApiDetailTab::lemma_cycle(*self);
        }
        ApiDetailTab::prev(self)
    }

    proof fn lemma_values_listed() {
        let all = Self::all_values();
        ApiDetailTab::lemma_cycle(ApiDetailTab::Routes);
        assert forall|x: ApiDetailTab| all.contains(x) by {
            match x {
                ApiDetailTab::Routes => assert(all[0] == x),
                ApiDetailTab::Details => assert(all[1] == x),
            }
        }
    }
}

} // verus!

//! API Gateway: the records the console shows and the client that reads them.
use vstd::prelude::*;
use vstd::string::*;
use crate::cloud::config::AwsConfig;
use crate::cloud::fsx::{owned_or_empty, text_of};
use crate::cloud::sqs::{after_last, text_after_last};
use crate::text::{contains_seq, owned, str_contains, str_eq};

verus! {

/// A REST, HTTP or WebSocket API.
#[derive(Clone, Debug)]
pub struct RestApi {
    pub id: String,
    pub name: String,
    pub description: String,
    pub created_date: String,
    pub api_key_source: String,
    pub endpoint_configuration: String,
    pub protocol_type: String,
    pub disable_execute_api_endpoint: bool,
    pub status: String,
}

/// A route of an HTTP or WebSocket API.
#[derive(Clone, Debug)]
pub struct Route {
    pub route_id: String,
    pub route_key: String,
    pub target: String,
    pub authorization_type: String,
    pub api_key_required: bool,
    pub arn: String,
}

/// A resource (path) of a REST API.
#[derive(Clone, Debug)]
pub struct Resource {
    pub id: String,
    pub path: String,
    pub parent_id: Option<String>,
    pub methods: Vec<String>,
    pub display_name: String,
    pub arn: String,
}

/// Items joined by a separator.
pub open spec fn joined(items: Seq<Seq<char>>, sep: Seq<char>) -> Seq<char>
    decreases items.len(),
{
    if items.len() == 0 {
        Seq::empty()
    } else if items.len() == 1 {
        items[0]
    } else {
        joined(items.drop_last(), sep) + sep + items.last()
    }
}

/// The character sequences of a list of strings.
pub open spec fn views(items: Seq<String>) -> Seq<Seq<char>> {
    items.map_values(|s: String| s@)
}

/// The strings `items` joined by `sep`.
pub fn join_strings(items: &Vec<String>, sep: &str) -> (r: String)
    ensures
        r@ == joined(views(items@), sep@),
{
    let n = items.len();
    let mut s = String::new();
    let mut i: usize = 0;
    while i < n
        invariant
            n == items@.len(),
            i <= n,
            s@ == joined(views(items@.subrange(0, i as int)), sep@),
        decreases n - i,
    {
        let ghost prev = views(items@.subrange(0, i as int));
        if i > 0 {
            s.append(sep);
        }
        s.append(items[i].as_str());
        proof {
            let next = views(items@.subrange(0, i + 1));
            assert(next.drop_last() =~= prev);
            assert(next.last() == items@[i as int]@);
            if i == 0 {
                assert(next.len() == 1);
            }
        }
        i = i + 1;
    }
    assert(items@.subrange(0, n as int) =~= items@);
    s
}

impl Resource {
    /// The HTTP methods of the resource, separated by `, ` (empty when it has none).
    pub fn methods_display(&self) -> (r: String)
        ensures
            r@ == joined(views(self.methods@), ", "@),
    {
        join_strings(&self.methods, ", ")
    }
}

/// Client of API Gateway for one session.
pub struct ApiGatewayClient {
    config: AwsConfig,
}

impl ApiGatewayClient {
    /// A client for the session `config`.
    pub fn new(config: AwsConfig) -> (r: Self)
        ensures
            r.session() == config,
    {
        ApiGatewayClient { config }
    }

    /// The session of the client.
    pub closed spec fn session(&self) -> AwsConfig {
        self.config
    }

    /// The session of the client.
    pub fn config(&self) -> (r: &AwsConfig)
        ensures
            *r == self.session(),
    {
        &self.config
    }
}

/// A REST API as API Gateway (version 1) describes it; enumerations by name,
/// its creation date written out as a date and time.
pub struct RestApiV1Description {
    pub id: Option<String>,
    pub name: Option<String>,
    pub description: Option<String>,
    pub created_date: Option<String>,
    pub api_key_source: Option<String>,
    pub endpoint_types: Option<Vec<String>>,
    pub disable_execute_api_endpoint: bool,
}

/// An HTTP or WebSocket API as API Gateway (version 2) describes it.
pub struct RestApiV2Description {
    pub api_id: Option<String>,
    pub name: Option<String>,
    pub description: Option<String>,
    pub created_date: Option<String>,
    pub api_endpoint: Option<String>,
    pub protocol_type: Option<String>,
    pub disable_execute_api_endpoint: Option<bool>,
}

/// `a` is the REST API described as `d`: its endpoint types joined by `, `,
/// protocol `REST`, status `AVAILABLE`.
pub open spec fn is_v1_api_of(a: RestApi, d: RestApiV1Description) -> bool {
    &&& a.id@ == text_of(d.id)
    &&& a.name@ == text_of(d.name)
    &&& a.description@ == text_of(d.description)
    &&& a.created_date@ == text_of(d.created_date)
    &&& a.api_key_source@ == text_of(d.api_key_source)
    &&& a.endpoint_configuration@ == (match d.endpoint_types {
        Some(t) => joined(views(t@), ", "@),
        None => Seq::empty(),
    })
    &&& a.protocol_type@ == "REST"@
    &&& a.disable_execute_api_endpoint == d.disable_execute_api_endpoint
    &&& a.status@ == "AVAILABLE"@
}

/// The REST API described as `d`.
pub fn api_from_v1(d: &RestApiV1Description) -> (r: RestApi)
    ensures
        is_v1_api_of(r, *d),
{
    RestApi {
        id: owned_or_empty(&d.id),
        name: owned_or_empty(&d.name),
        description: owned_or_empty(&d.description),
        created_date: owned_or_empty(&d.created_date),
        api_key_source: owned_or_empty(&d.api_key_source),
        endpoint_configuration: match &d.endpoint_types {
            Some(t) => join_strings(t, ", "),
            None => String::new(),
        },
        protocol_type: String::from_str("REST"),
        disable_execute_api_endpoint: d.disable_execute_api_endpoint,
        status: String::from_str("AVAILABLE"),
    }
}

/// `a` is the HTTP or WebSocket API described as `d`: no key source (`N/A`),
/// a `REGIONAL` endpoint when its address is an `execute-api` one and
/// `CUSTOM` otherwise, status `AVAILABLE`.
pub open spec fn is_v2_api_of(a: RestApi, d: RestApiV2Description) -> bool {
    &&& a.id@ == text_of(d.api_id)
    &&& a.name@ == text_of(d.name)
    &&& a.description@ == text_of(d.description)
    &&& a.created_date@ == text_of(d.created_date)
    &&& a.api_key_source@ == "N/A"@
    &&& a.endpoint_configuration@ == (match d.api_endpoint {
        Some(ep) => if contains_seq(ep@, "execute-api"@) { "REGIONAL"@ } else { "CUSTOM"@ },
        None => Seq::empty(),
    })
    &&& a.protocol_type@ == text_of(d.protocol_type)
    &&& a.disable_execute_api_endpoint == (d.disable_execute_api_endpoint == Some(true))
    &&& a.status@ == "AVAILABLE"@
}

/// The HTTP or WebSocket API described as `d`.
pub fn api_from_v2(d: &RestApiV2Description) -> (r: RestApi)
    ensures
        is_v2_api_of(r, *d),
{
    RestApi {
        id: owned_or_empty(&d.api_id),
        name: owned_or_empty(&d.name),
        description: owned_or_empty(&d.description),
        created_date: owned_or_empty(&d.created_date),
        api_key_source: String::from_str("N/A"),
        endpoint_configuration: match &d.api_endpoint {
            Some(ep) => if str_contains(ep.as_str(), "execute-api") {
                String::from_str("REGIONAL")
            } else {
                String::from_str("CUSTOM")
            },
            None => String::new(),
        },
        protocol_type: owned_or_empty(&d.protocol_type),
        disable_execute_api_endpoint: match d.disable_execute_api_endpoint {
            Some(true) => true,
            _ => false,
        },
        status: String::from_str("AVAILABLE"),
    }
}

/// The APIs of both versions, the REST APIs first, each in the order listed.
pub fn apis_from(v1: &Vec<RestApiV1Description>, v2: &Vec<RestApiV2Description>) -> (r: Vec<RestApi>)
    ensures
        r@.len() == v1@.len() + v2@.len(),
        forall|i: int| 0 <= i < v1@.len() ==> is_v1_api_of(#[trigger] r@[i], v1@[i]),
        forall|i: int| 0 <= i < v2@.len() ==> is_v2_api_of(#[trigger] r@[v1@.len() + i], v2@[i]),
{
    let mut out: Vec<RestApi> = Vec::new();
    let mut i: usize = 0;
    while i < v1.len()
        invariant
            i <= v1@.len(),
            out@.len() == i,
            forall|k: int| 0 <= k < i ==> is_v1_api_of(#[trigger] out@[k], v1@[k]),
        decreases v1@.len() - i,
    {
        out.push(api_from_v1(&v1[i]));
        i = i + 1;
    }
    let mut j: usize = 0;
    while j < v2.len()
        invariant
            j <= v2@.len(),
            out@.len() == v1@.len() + j,
            forall|k: int| 0 <= k < v1@.len() ==> is_v1_api_of(#[trigger] out@[k], v1@[k]),
            forall|k: int| 0 <= k < j ==> is_v2_api_of(#[trigger] out@[v1@.len() + k], v2@[k]),
        decreases v2@.len() - j,
    {
        out.push(api_from_v2(&v2[j]));
        j = j + 1;
    }
    out
}

/// A route as API Gateway describes it; its authorization type by name.
pub struct RouteDescription {
    pub route_id: Option<String>,
    pub route_key: Option<String>,
    pub target: Option<String>,
    pub authorization_type: Option<String>,
    pub api_key_required: Option<bool>,
}

/// The ARN of a route of an HTTP or WebSocket API.
pub open spec fn route_arn(region: Seq<char>, api_id: Seq<char>, route_id: Seq<char>) -> Seq<char> {
    "arn:aws:apigateway:"@ + region + "::/apis/"@ + api_id + "/routes/"@ + route_id
}

/// `r` is the route described as `d` of API `api_id` in `region`: no
/// authorization reads `NONE`.
pub open spec fn is_route_of(r: Route, d: RouteDescription, region: Seq<char>, api_id: Seq<char>) -> bool {
    &&& r.route_id@ == text_of(d.route_id)
    &&& r.route_key@ == text_of(d.route_key)
    &&& r.target@ == text_of(d.target)
    &&& r.authorization_type@ == (match d.authorization_type {
        Some(t) => t@,
        None => "NONE"@,
    })
    &&& r.api_key_required == (d.api_key_required == Some(true))
    &&& r.arn@ == route_arn(region, api_id, text_of(d.route_id))
}

/// The route described as `d` of API `api_id` in `region`.
pub fn route_from(region: &str, api_id: &str, d: &RouteDescription) -> (r: Route)
    ensures
        is_route_of(r, *d, region@, api_id@),
{
    let route_id = owned_or_empty(&d.route_id);
    let mut arn = String::from_str("arn:aws:apigateway:");
    arn.append(region);
    arn.append("::/apis/");
    arn.append(api_id);
    arn.append("/routes/");
    arn.append(route_id.as_str());
    Route {
        route_id,
        route_key: owned_or_empty(&d.route_key),
        target: owned_or_empty(&d.target),
        authorization_type: match &d.authorization_type {
            Some(t) => t.clone(),
            None => String::from_str("NONE"),
        },
        api_key_required: match d.api_key_required {
            Some(true) => true,
            _ => false,
        },
        arn,
    }
}

/// A resource as API Gateway describes it, with the names of its methods.
pub struct ResourceDescription {
    pub id: Option<String>,
    pub path: Option<String>,
    pub parent_id: Option<String>,
    pub methods: Vec<String>,
}

/// The name the tree shows for a resource path: `/` for the root, else `/`
/// and the last part of the path.
pub open spec fn path_display(path: Seq<char>) -> Seq<char> {
    if path == "/"@ { "/"@ } else { "/"@ + after_last(path, '/') }
}

/// The ARN of a resource of a REST API.
pub open spec fn resource_arn(region: Seq<char>, api_id: Seq<char>, id: Seq<char>) -> Seq<char> {
    "arn:aws:apigateway:"@ + region + "::/restapis/"@ + api_id + "/resources/"@ + id
}

/// `r` is the resource described as `d` of API `api_id` in `region`.
pub open spec fn is_resource_of(r: Resource, d: ResourceDescription, region: Seq<char>, api_id: Seq<char>) -> bool {
    &&& r.id@ == text_of(d.id)
    &&& r.path@ == text_of(d.path)
    &&& r.parent_id == d.parent_id
    &&& r.methods@ == d.methods@
    &&& r.display_name@ == path_display(text_of(d.path))
    &&& r.arn@ == resource_arn(region, api_id, text_of(d.id))
}

/// The resource described as `d` of API `api_id` in `region`.
pub fn resource_from(region: &str, api_id: &str, d: ResourceDescription) -> (r: Resource)
    ensures
        is_resource_of(r, d, region@, api_id@),
{
    let id = owned_or_empty(&d.id);
    let path = owned_or_empty(&d.path);
    let display_name = if str_eq(path.as_str(), "/") {
        String::from_str("/")
    } else {
        let mut t = String::from_str("/");
        let last = text_after_last(path.as_str(), '/');
        t.append(last.as_str());
        t
    };
    let mut arn = String::from_str("arn:aws:apigateway:");
    arn.append(region);
    arn.append("::/restapis/");
    arn.append(api_id);
    arn.append("/resources/");
    arn.append(id.as_str());
    Resource { id, path, parent_id: d.parent_id, methods: d.methods, display_name, arn }
}

} // verus!

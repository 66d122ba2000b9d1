//! Routes of HTTP and WebSocket APIs as rows of a tree, and the columns of the
//! routes table.
use vstd::prelude::*;
use vstd::string::*;
use crate::common::ColumnId;
use crate::text::str_eq;

verus! {

/// A route of an HTTP or WebSocket API. A route without an integration target
/// stands for a path prefix that holds other routes.
#[derive(Clone, Debug)]
pub struct Route {
    pub route_id: String,
    pub route_key: String,
    pub target: String,
    pub authorization_type: String,
    pub api_key_required: bool,
    pub display_name: String,
    pub arn: String,
}

/// The three routes WebSocket APIs define for themselves.
pub open spec fn is_websocket_route(key: Seq<char>) -> bool {
    key == "$default"@ || key == "$connect"@ || key == "$disconnect"@
}

impl Route {
    /// The key the tree knows the route by: its route key.
    pub fn id(&self) -> (r: &str)
        ensures
            r@ == self.route_key@,
    {
        self.route_key.as_str()
    }

    /// The name the tree shows for the route.
    pub fn display_name(&self) -> (r: &str)
        ensures
            r@ == self.display_name@,
    {
        self.display_name.as_str()
    }

    /// A route opens in the tree when it has no integration target: such a
    /// route only holds other routes.
    pub fn is_expandable(&self) -> (r: bool)
        ensures
            r == (self.target@.len() == 0),
    {
        self.target.unicode_len() == 0
    }

    /// The icon of the route: a plug for the WebSocket routes, none otherwise.
    pub fn icon(&self) -> (r: &'static str)
        ensures
            r@ == (if is_websocket_route(self.route_key@) { "🔌"@ } else { ""@ }),
    {
        let key = self.route_key.as_str();
        if str_eq(key, "$default") || str_eq(key, "$connect") || str_eq(key, "$disconnect") {
            "🔌"
        } else {
            ""
        }
    }
}

/// A column of the routes table.
#[derive(Clone, Copy, Debug, PartialEq, Eq, Structural)]
pub enum Column {
    RouteKey,
    RouteId,
    Arn,
    AuthorizationType,
    Target,
}

impl Column {
    /// The translation key of the column.
    pub open spec fn key(self) -> Seq<char> {
        match self {
            Column::RouteKey => "route_key"@,
            Column::RouteId => "route_id"@,
            Column::Arn => "arn"@,
            Column::AuthorizationType => "authorization_type"@,
            Column::Target => "target"@,
        }
    }

    /// The label of the column when no translation replaces it.
    pub open spec fn default_label(self) -> Seq<char> {
        match self {
            Column::RouteKey => "Route"@,
            Column::RouteId => "ID"@,
            Column::Arn => "ARN"@,
            Column::AuthorizationType => "Authorization"@,
            Column::Target => "Integration"@,
        }
    }

    /// The column whose key is `id`, if any.
    pub open spec fn with_key(id: Seq<char>) -> Option<Self> {
        if id == "route_key"@ {
            Some(Column::RouteKey)
        } else if id == "route_id"@ {
            Some(Column::RouteId)
        } else if id == "arn"@ {
            Some(Column::Arn)
        } else if id == "authorization_type"@ {
            Some(Column::AuthorizationType)
        } else if id == "target"@ {
            Some(Column::Target)
        } else {
            None
        }
    }

    /// Reading a column back from its key gives the column: no two columns
    /// share a key.
    pub proof fn lemma_key_roundtrip(c: Self)
        ensures
            Self::with_key(c.key()) == Some(c),
    {
        reveal_strlit("route_key");
        reveal_strlit("route_id");
        reveal_strlit("arn");
        reveal_strlit("authorization_type");
        reveal_strlit("target");
        assert("route_key"@.len() == 9);
        assert("route_id"@.len() == 8);
        assert("arn"@.len() == 3);
        assert("authorization_type"@.len() == 18);
        assert("target"@.len() == 6);
    }

    /// Every column, in display order.
    pub open spec fn every() -> Seq<Self> {
        seq![Column::RouteKey, Column::RouteId, Column::Arn, Column::AuthorizationType, Column::Target]
    }

    /// The translation key of the column.
    pub fn id(&self) -> (r: ColumnId)
        ensures
            r@ == self.key(),
    {
        match self {
            Column::RouteKey => "route_key",
            Column::RouteId => "route_id",
            Column::Arn => "arn",
            Column::AuthorizationType => "authorization_type",
            Column::Target => "target",
        }
    }

    /// The label of the column when no translation replaces it.
    pub fn name(&self) -> (r: &'static str)
        ensures
            r@ == self.default_label(),
    {
        match self {
            Column::RouteKey => "Route",
            Column::RouteId => "ID",
            Column::Arn => "ARN",
            Column::AuthorizationType => "Authorization",
            Column::Target => "Integration",
        }
    }

    /// The column whose key is `id`, if any.
    pub fn from_id(id: &str) -> (r: Option<Self>)
        ensures
            r == Self::with_key(id@),
    {
        if str_eq(id, "route_key") {
            Some(Column::RouteKey)
        } else if str_eq(id, "route_id") {
            Some(Column::RouteId)
        } else if str_eq(id, "arn") {
            Some(Column::Arn)
        } else if str_eq(id, "authorization_type") {
            Some(Column::AuthorizationType)
        } else if str_eq(id, "target") {
            Some(Column::Target)
        } else {
            None
        }
    }

    /// Every column, in display order.
    pub fn all() -> (r: [Self; 5])
        ensures
            r@ == Self::every(),
    {
        let r = [Column::RouteKey, Column::RouteId, Column::Arn, Column::AuthorizationType, Column::Target];
        assert(r@ =~= Self::every());
        r
    }

    /// The display width of the column.
    pub fn width(&self) -> (r: u16)
        ensures
            r == (match self {
                Column::RouteKey => 30u16,
                Column::RouteId => 15u16,
                Column::Arn => 50u16,
                Column::AuthorizationType => 15u16,
                Column::Target => 30u16,
            }),
    {
        match self {
            Column::RouteKey => 30,
            Column::RouteId => 15,
            Column::Arn => 50,
            Column::AuthorizationType => 15,
            Column::Target => 30,
        }
    }

    /// The text of the column's cell for `item`.
    pub open spec fn cell(self, item: Route) -> Seq<char> {
        match self {
            Column::RouteKey => item.route_key@,
            Column::RouteId => item.route_id@,
            Column::Arn => item.arn@,
            Column::AuthorizationType => item.authorization_type@,
            Column::Target => item.target@,
        }
    }

    /// The text of the column's cell for `item`.
    pub fn render(&self, item: &Route) -> (r: String)
        ensures
            r@ == self.cell(*item),
    {
        match self {
            Column::RouteKey => item.route_key.clone(),
            Column::RouteId => item.route_id.clone(),
            Column::Arn => item.arn.clone(),
            Column::AuthorizationType => item.authorization_type.clone(),
            Column::Target => item.target.clone(),
        }
    }
}

} // verus!

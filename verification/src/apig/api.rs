//! The columns of the APIs table.
use vstd::prelude::*;
use vstd::string::*;
use crate::common::{
    column_width, label_width, lookup, translated_label, with_defaults, ColumnId, Translations,
    UTC_TIMESTAMP_WIDTH,
};
use crate::apig::StatusColor;
use crate::text::{owned, str_eq, to_upper, upper_case};
use crate::timestamp::{format_iso_timestamp, iso_label};

pub use crate::cloud::apig::RestApi;

verus! {

/// The column keys and default labels that `init` lays down, in order.
pub open spec fn default_labels() -> (Seq<Seq<char>>, Seq<Seq<char>>) {
    (
        seq!["column.apig.api.name"@, "column.apig.api.description"@, "column.apig.api.id"@, "column.apig.api.protocol"@, "column.apig.api.endpoint_type"@, "column.apig.api.created"@, "column.apig.api.security_policy"@, "column.apig.api.api_status"@],
        seq!["Name"@, "Description"@, "ID"@, "Protocol"@, "API endpoint type"@, "Created"@, "Security policy"@, "API status"@],
    )
}

/// Gives every column key its default label, unless it already has a translation.
pub fn init(tr: &mut Translations)
    ensures
        forall|k: Seq<char>| #[trigger] lookup(final(tr).entries@, k) == with_defaults(
            lookup(old(tr).entries@, k), default_labels().0, default_labels().1, k),
{
    let keys: Vec<ColumnId> = vec!["column.apig.api.name", "column.apig.api.description", "column.apig.api.id", "column.apig.api.protocol", "column.apig.api.endpoint_type", "column.apig.api.created", "column.apig.api.security_policy", "column.apig.api.api_status"];
    let labels: Vec<&'static str> = vec!["Name", "Description", "ID", "Protocol", "API endpoint type", "Created", "Security policy", "API status"];
    assert(keys@.map_values(|s: &str| s@) =~= default_labels().0);
    assert(labels@.map_values(|s: &str| s@) =~= default_labels().1);
    tr.set_defaults(&keys, &labels);
}

/// The label of a protocol, given the protocol and its upper-cased form: the
/// upper-cased form when it is HTTP, WEBSOCKET or REST; the protocol as it is
/// otherwise.
pub open spec fn protocol_label_for(p: Seq<char>, u: Seq<char>) -> Seq<char> {
    if u == "HTTP"@ || u == "WEBSOCKET"@ || u == "REST"@ { u } else { p }
}

/// The label of a protocol: HTTP, WEBSOCKET and REST in capitals, whatever
/// case the protocol is written in; any other protocol as it is.
pub open spec fn protocol_label(p: Seq<char>) -> Seq<char> {
    protocol_label_for(p, upper_case(p))
}

/// The label of a protocol, given the protocol and its upper-cased form.
pub fn protocol_label_from(p: &str, upper: &str) -> (r: String)
    ensures
        r@ == protocol_label_for(p@, upper@),
{
    if str_eq(upper, "HTTP") || str_eq(upper, "WEBSOCKET") || str_eq(upper, "REST") {
        owned(upper)
    } else {
        owned(p)
    }
}

/// The label of a protocol.
pub fn format_protocol(p: &str) -> (r: String)
    ensures
        r@ == protocol_label(p@),
{
    let u = to_upper(p);
    protocol_label_from(p, u.as_str())
}

/// The label of an endpoint type, given the type and its upper-cased form:
/// `Regional`, `Edge-optimized` or `Private` for REGIONAL, EDGE and PRIVATE;
/// the type as it is otherwise.
pub open spec fn endpoint_label_for(e: Seq<char>, u: Seq<char>) -> Seq<char> {
    if u == "REGIONAL"@ {
        "Regional"@
    } else if u == "EDGE"@ {
        "Edge-optimized"@
    } else if u == "PRIVATE"@ {
        "Private"@
    } else {
        e
    }
}

/// The label of an endpoint type, whatever case it is written in: `Regional`,
/// `Edge-optimized` or `Private`; any other type as it is.
pub open spec fn endpoint_label(e: Seq<char>) -> Seq<char> {
    endpoint_label_for(e, upper_case(e))
}

/// The label of an endpoint type, given the type and its upper-cased form.
pub fn endpoint_label_from(e: &str, upper: &str) -> (r: String)
    ensures
        r@ == endpoint_label_for(e@, upper@),
{
    if str_eq(upper, "REGIONAL") {
        String::from_str("Regional")
    } else if str_eq(upper, "EDGE") {
        String::from_str("Edge-optimized")
    } else if str_eq(upper, "PRIVATE") {
        String::from_str("Private")
    } else {
        owned(e)
    }
}

/// The label of an endpoint type.
pub fn format_endpoint_type(e: &str) -> (r: String)
    ensures
        r@ == endpoint_label(e@),
{
    let u = to_upper(e);
    endpoint_label_from(e, u.as_str())
}

/// The security policy shown for an API whose protocol, upper-cased, is `u`:
/// `-` for REST, `TLS 1.2` for the others.
pub open spec fn security_policy_for(u: Seq<char>) -> Seq<char> {
    if u == "REST"@ { "-"@ } else { "TLS 1.2"@ }
}

/// The security policy shown for an API of protocol `p`: `-` for REST APIs,
/// whose policy belongs to their custom domain, `TLS 1.2` for the others.
pub open spec fn security_policy_label(p: Seq<char>) -> Seq<char> {
    security_policy_for(upper_case(p))
}

/// The security policy shown for an API whose protocol, upper-cased, is
/// `upper`.
pub fn security_policy_from(upper: &str) -> (r: String)
    ensures
        r@ == security_policy_for(upper@),
{
    if str_eq(upper, "REST") {
        String::from_str("-")
    } else {
        String::from_str("TLS 1.2")
    }
}

/// The security policy shown for an API of protocol `p`.
pub fn format_security_policy(p: &str) -> (r: String)
    ensures
        r@ == security_policy_label(p@),
{
    let u = to_upper(p);
    security_policy_from(u.as_str())
}

/// A column of the APIs table.
#[derive(Clone, Copy, Debug, PartialEq, Eq, Structural)]
pub enum Column {
    Name,
    Description,
    Id,
    Protocol,
    EndpointType,
    Created,
    SecurityPolicy,
    ApiStatus,
}

impl Column {
    /// The translation key of the column.
    pub open spec fn key(self) -> Seq<char> {
        match self {
            Column::Name => "column.apig.api.name"@,
            Column::Description => "column.apig.api.description"@,
            Column::Id => "column.apig.api.id"@,
            Column::Protocol => "column.apig.api.protocol"@,
            Column::EndpointType => "column.apig.api.endpoint_type"@,
            Column::Created => "column.apig.api.created"@,
            Column::SecurityPolicy => "column.apig.api.security_policy"@,
            Column::ApiStatus => "column.apig.api.api_status"@,
        }
    }

    /// The label of the column when no translation replaces it.
    pub open spec fn default_label(self) -> Seq<char> {
        match self {
            Column::Name => "Name"@,
            Column::Description => "Description"@,
            Column::Id => "ID"@,
            Column::Protocol => "Protocol"@,
            Column::EndpointType => "API endpoint type"@,
            Column::Created => "Created"@,
            Column::SecurityPolicy => "Security policy"@,
            Column::ApiStatus => "API status"@,
        }
    }

    /// The column whose key is `id`, if any.
    pub open spec fn with_key(id: Seq<char>) -> Option<Self> {
        if id == "column.apig.api.name"@ {
            Some(Column::Name)
        } else if id == "column.apig.api.description"@ {
            Some(Column::Description)
        } else if id == "column.apig.api.id"@ {
            Some(Column::Id)
        } else if id == "column.apig.api.protocol"@ {
            Some(Column::Protocol)
        } else if id == "column.apig.api.endpoint_type"@ {
            Some(Column::EndpointType)
        } else if id == "column.apig.api.created"@ {
            Some(Column::Created)
        } else if id == "column.apig.api.security_policy"@ {
            Some(Column::SecurityPolicy)
        } else if id == "column.apig.api.api_status"@ {
            Some(Column::ApiStatus)
        } else {
            None
        }
    }

    /// Reading a column back from its key gives the column: no two columns
    /// share a key.
    pub proof fn lemma_key_roundtrip(c: Self)
        ensures
            Self::with_key(c.key()) == Some(c),
    {
        reveal_strlit("column.apig.api.name");
        reveal_strlit("column.apig.api.description");
        reveal_strlit("column.apig.api.id");
        reveal_strlit("column.apig.api.protocol");
        reveal_strlit("column.apig.api.endpoint_type");
        reveal_strlit("column.apig.api.created");
        reveal_strlit("column.apig.api.security_policy");
        reveal_strlit("column.apig.api.api_status");
        assert("column.apig.api.name"@.len() == 20);
        assert("column.apig.api.description"@.len() == 27);
        assert("column.apig.api.id"@.len() == 18);
        assert("column.apig.api.protocol"@.len() == 24);
        assert("column.apig.api.endpoint_type"@.len() == 29);
        assert("column.apig.api.created"@.len() == 23);
        assert("column.apig.api.security_policy"@.len() == 31);
        assert("column.apig.api.api_status"@.len() == 26);
    }

    /// Every column, in display order.
    pub open spec fn every() -> Seq<Self> {
        seq![Column::Name, Column::Description, Column::Id, Column::Protocol, Column::EndpointType, Column::Created, Column::SecurityPolicy, Column::ApiStatus]
    }

    /// The translation key of the column.
    pub fn id(&self) -> (r: ColumnId)
        ensures
            r@ == self.key(),
    {
        match self {
            Column::Name => "column.apig.api.name",
            Column::Description => "column.apig.api.description",
            Column::Id => "column.apig.api.id",
            Column::Protocol => "column.apig.api.protocol",
            Column::EndpointType => "column.apig.api.endpoint_type",
            Column::Created => "column.apig.api.created",
            Column::SecurityPolicy => "column.apig.api.security_policy",
            Column::ApiStatus => "column.apig.api.api_status",
        }
    }

    /// The label of the column when no translation replaces it.
    pub fn default_name(&self) -> (r: &'static str)
        ensures
            r@ == self.default_label(),
    {
        match self {
            Column::Name => "Name",
            Column::Description => "Description",
            Column::Id => "ID",
            Column::Protocol => "Protocol",
            Column::EndpointType => "API endpoint type",
            Column::Created => "Created",
            Column::SecurityPolicy => "Security policy",
            Column::ApiStatus => "API status",
        }
    }

    /// The label of the column: its translation, else its default label.
    pub fn name(&self, tr: &Translations) -> (r: String)
        ensures
            r@ == translated_label(tr.entries@, self.key(), self.default_label()),
    {
        tr.translate_column(self.id(), self.default_name())
    }

    /// The column whose key is `id`, if any.
    pub fn from_id(id: &str) -> (r: Option<Self>)
        ensures
            r == Self::with_key(id@),
    {
        if str_eq(id, "column.apig.api.name") {
            Some(Column::Name)
        } else if str_eq(id, "column.apig.api.description") {
            Some(Column::Description)
        } else if str_eq(id, "column.apig.api.id") {
            Some(Column::Id)
        } else if str_eq(id, "column.apig.api.protocol") {
            Some(Column::Protocol)
        } else if str_eq(id, "column.apig.api.endpoint_type") {
            Some(Column::EndpointType)
        } else if str_eq(id, "column.apig.api.created") {
            Some(Column::Created)
        } else if str_eq(id, "column.apig.api.security_policy") {
            Some(Column::SecurityPolicy)
        } else if str_eq(id, "column.apig.api.api_status") {
            Some(Column::ApiStatus)
        } else {
            None
        }
    }

    /// Every column, in display order.
    pub fn all() -> (r: [Self; 8])
        ensures
            r@ == Self::every(),
    {
        let r = [Column::Name, Column::Description, Column::Id, Column::Protocol, Column::EndpointType, Column::Created, Column::SecurityPolicy, Column::ApiStatus];
        assert(r@ =~= Self::every());
        r
    }

    /// The keys of every column, in display order.
    pub fn ids() -> (r: Vec<ColumnId>)
        ensures
            r@.len() == Self::every().len(),
            forall|i: int| 0 <= i < r@.len() ==> (#[trigger] r@[i])@ == Self::every()[i].key(),
    {
        let r: Vec<ColumnId> = vec!["column.apig.api.name", "column.apig.api.description", "column.apig.api.id", "column.apig.api.protocol", "column.apig.api.endpoint_type", "column.apig.api.created", "column.apig.api.security_policy", "column.apig.api.api_status"];
        assert forall|i: int| 0 <= i < r@.len() implies (#[trigger] r@[i])@ == Self::every()[i].key() by {
            assert(r@ =~= seq!["column.apig.api.name", "column.apig.api.description", "column.apig.api.id", "column.apig.api.protocol", "column.apig.api.endpoint_type", "column.apig.api.created", "column.apig.api.security_policy", "column.apig.api.api_status"]);
        }
        r
    }

    /// The least display width of the column.
    pub open spec fn base_width(self) -> usize {
        match self {
            Column::Name => 30,
            Column::Description => 40,
            Column::Id => 15,
            Column::Protocol => 10,
            Column::EndpointType => 20,
            Column::Created => UTC_TIMESTAMP_WIDTH as usize,
            Column::SecurityPolicy => 18,
            Column::ApiStatus => 15,
        }
    }

    /// The display width of the column: its label's byte length, at least its base width.
    pub fn width(&self, tr: &Translations) -> (r: u16)
        ensures
            r == label_width(translated_label(tr.entries@, self.key(), self.default_label()), self.base_width()),
    {
        let base: usize = match self {
            Column::Name => 30,
            Column::Description => 40,
            Column::Id => 15,
            Column::Protocol => 10,
            Column::EndpointType => 20,
            Column::Created => UTC_TIMESTAMP_WIDTH as usize,
            Column::SecurityPolicy => 18,
            Column::ApiStatus => 15,
        };
        column_width(tr, self.id(), self.default_name(), base)
    }

    /// The text of the column's cell for `item`, and the colour it is drawn in
    /// where the column gives it one.
    pub open spec fn cell(self, item: RestApi) -> (Seq<char>, Option<StatusColor>) {
        match self {
            Column::Name => (item.name@, None),
            Column::Description => (item.description@, None),
            Column::Id => (item.id@, None),
            Column::Protocol => (protocol_label(item.protocol_type@), None),
            Column::EndpointType => (endpoint_label(item.endpoint_configuration@), None),
            Column::Created => (iso_label(item.created_date@), None),
            Column::SecurityPolicy => (security_policy_label(item.protocol_type@), None),
            Column::ApiStatus => (if item.disable_execute_api_endpoint { ("Disabled"@, None) } else { ("✅ Available"@, Some(StatusColor::Green)) }),
        }
    }

    /// The cell of the column for `item`, with its colour where it has one.
    pub fn render(&self, item: &RestApi) -> (r: (String, Option<StatusColor>))
        ensures
            (r.0@, r.1) == self.cell(*item),
    {
        match self {
            Column::Name => (item.name.clone(), None),
            Column::Description => (item.description.clone(), None),
            Column::Id => (item.id.clone(), None),
            Column::Protocol => (format_protocol(item.protocol_type.as_str()), None),
            Column::EndpointType => (format_endpoint_type(item.endpoint_configuration.as_str()), None),
            Column::Created => (format_iso_timestamp(item.created_date.as_str()), None),
            Column::SecurityPolicy => (format_security_policy(item.protocol_type.as_str()), None),
            Column::ApiStatus => {
                if item.disable_execute_api_endpoint {
                    (String::from_str("Disabled"), None)
                } else {
                    (String::from_str("✅ Available"), Some(StatusColor::Green))
                }
            },
        }
    }

}

} // verus!

//! CloudTrail event history: the event record and the columns of its table.
use vstd::prelude::*;
use crate::common::{
    first_value, lookup, translated_label, with_defaults, ColumnId, Translations, UTC_TIMESTAMP_WIDTH,
};
use crate::text::str_eq;

verus! {

/// One event of the CloudTrail event history.
#[derive(Clone, Debug)]
pub struct CloudTrailEvent {
    pub event_time: String,
    pub event_name: String,
    pub username: String,
    pub event_source: String,
    pub resource_type: String,
    pub resource_name: String,
    pub read_only: String,
    pub aws_region: String,
    pub event_id: String,
    pub access_key_id: String,
    pub source_ip_address: String,
    pub error_code: String,
    pub request_id: String,
    pub event_type: String,
    pub cloud_trail_event_json: String,
}

/// Gives every event column key its default label, unless it already has a translation.
pub fn init(tr: &mut Translations)
    ensures
        forall|k: Seq<char>| #[trigger] lookup(final(tr).entries@, k) == with_defaults(
            lookup(old(tr).entries@, k), CloudTrailEventColumn::default_pairs().0, CloudTrailEventColumn::default_pairs().1, k),
{
    let keys: Vec<ColumnId> = vec!["column.cloudtrail.event.event_name", "column.cloudtrail.event.event_time", "column.cloudtrail.event.username", "column.cloudtrail.event.event_source", "column.cloudtrail.event.resource_type", "column.cloudtrail.event.resource_name", "column.cloudtrail.event.read_only", "column.cloudtrail.event.aws_region", "column.cloudtrail.event.event_id", "column.cloudtrail.event.access_key_id", "column.cloudtrail.event.source_ip_address", "column.cloudtrail.event.error_code", "column.cloudtrail.event.request_id", "column.cloudtrail.event.event_type"];
    let labels: Vec<&'static str> = vec!["Event name", "Event time", "User name", "Event source", "Resource type", "Resource name", "Read-only", "AWS region", "Event ID", "AWS access key", "Source IP address", "Error code", "Request ID", "Event type"];
    assert(keys@.map_values(|s: &str| s@) =~= CloudTrailEventColumn::default_pairs().0);
    assert(labels@.map_values(|s: &str| s@) =~= CloudTrailEventColumn::default_pairs().1);
    tr.set_defaults(&keys, &labels);
}

/// A column of the event history table.
#[derive(Clone, Copy, Debug, PartialEq, Eq, Structural)]
pub enum CloudTrailEventColumn {
    EventName,
    EventTime,
    Username,
    EventSource,
    ResourceType,
    ResourceName,
    ReadOnly,
    AwsRegion,
    EventId,
    AccessKeyId,
    SourceIpAddress,
    ErrorCode,
    RequestId,
    EventType,
}

impl CloudTrailEventColumn {
    /// The translation key of the column.
    pub open spec fn key(self) -> Seq<char> {
        match self {
            CloudTrailEventColumn::EventName => "column.cloudtrail.event.event_name"@,
            CloudTrailEventColumn::EventTime => "column.cloudtrail.event.event_time"@,
            CloudTrailEventColumn::Username => "column.cloudtrail.event.username"@,
            CloudTrailEventColumn::EventSource => "column.cloudtrail.event.event_source"@,
            CloudTrailEventColumn::ResourceType => "column.cloudtrail.event.resource_type"@,
            CloudTrailEventColumn::ResourceName => "column.cloudtrail.event.resource_name"@,
            CloudTrailEventColumn::ReadOnly => "column.cloudtrail.event.read_only"@,
            CloudTrailEventColumn::AwsRegion => "column.cloudtrail.event.aws_region"@,
            CloudTrailEventColumn::EventId => "column.cloudtrail.event.event_id"@,
            CloudTrailEventColumn::AccessKeyId => "column.cloudtrail.event.access_key_id"@,
            CloudTrailEventColumn::SourceIpAddress => "column.cloudtrail.event.source_ip_address"@,
            CloudTrailEventColumn::ErrorCode => "column.cloudtrail.event.error_code"@,
            CloudTrailEventColumn::RequestId => "column.cloudtrail.event.request_id"@,
            CloudTrailEventColumn::EventType => "column.cloudtrail.event.event_type"@,
        }
    }

    /// The label of the column when no translation replaces it.
    pub open spec fn default_label(self) -> Seq<char> {
        match self {
            CloudTrailEventColumn::EventName => "Event name"@,
            CloudTrailEventColumn::EventTime => "Event time"@,
            CloudTrailEventColumn::Username => "User name"@,
            CloudTrailEventColumn::EventSource => "Event source"@,
            CloudTrailEventColumn::ResourceType => "Resource type"@,
            CloudTrailEventColumn::ResourceName => "Resource name"@,
            CloudTrailEventColumn::ReadOnly => "Read-only"@,
            CloudTrailEventColumn::AwsRegion => "AWS region"@,
            CloudTrailEventColumn::EventId => "Event ID"@,
            CloudTrailEventColumn::AccessKeyId => "AWS access key"@,
            CloudTrailEventColumn::SourceIpAddress => "Source IP address"@,
            CloudTrailEventColumn::ErrorCode => "Error code"@,
            CloudTrailEventColumn::RequestId => "Request ID"@,
            CloudTrailEventColumn::EventType => "Event type"@,
        }
    }

    /// The display width of the column.
    pub open spec fn width_of(self) -> u16 {
        match self {
            CloudTrailEventColumn::EventName => 35,
            CloudTrailEventColumn::EventTime => UTC_TIMESTAMP_WIDTH,
            CloudTrailEventColumn::Username => 25,
            CloudTrailEventColumn::EventSource => 30,
            CloudTrailEventColumn::ResourceType => 25,
            CloudTrailEventColumn::ResourceName => 40,
            CloudTrailEventColumn::ReadOnly => 12,
            CloudTrailEventColumn::AwsRegion => 15,
            CloudTrailEventColumn::EventId => 40,
            CloudTrailEventColumn::AccessKeyId => 25,
            CloudTrailEventColumn::SourceIpAddress => 18,
            CloudTrailEventColumn::ErrorCode => 20,
            CloudTrailEventColumn::RequestId => 40,
            CloudTrailEventColumn::EventType => 20,
        }
    }

    /// The column whose key is `id`, if any.
    pub open spec fn with_key(id: Seq<char>) -> Option<Self> {
        if id == "column.cloudtrail.event.event_name"@ {
            Some(CloudTrailEventColumn::EventName)
        } else if id == "column.cloudtrail.event.event_time"@ {
            Some(CloudTrailEventColumn::EventTime)
        } else if id == "column.cloudtrail.event.username"@ {
            Some(CloudTrailEventColumn::Username)
        } else if id == "column.cloudtrail.event.event_source"@ {
            Some(CloudTrailEventColumn::EventSource)
        } else if id == "column.cloudtrail.event.resource_type"@ {
            Some(CloudTrailEventColumn::ResourceType)
        } else if id == "column.cloudtrail.event.resource_name"@ {
            Some(CloudTrailEventColumn::ResourceName)
        } else if id == "column.cloudtrail.event.read_only"@ {
            Some(CloudTrailEventColumn::ReadOnly)
        } else if id == "column.cloudtrail.event.aws_region"@ {
            Some(CloudTrailEventColumn::AwsRegion)
        } else if id == "column.cloudtrail.event.event_id"@ {
            Some(CloudTrailEventColumn::EventId)
        } else if id == "column.cloudtrail.event.access_key_id"@ {
            Some(CloudTrailEventColumn::AccessKeyId)
        } else if id == "column.cloudtrail.event.source_ip_address"@ {
            Some(CloudTrailEventColumn::SourceIpAddress)
        } else if id == "column.cloudtrail.event.error_code"@ {
            Some(CloudTrailEventColumn::ErrorCode)
        } else if id == "column.cloudtrail.event.request_id"@ {
            Some(CloudTrailEventColumn::RequestId)
        } else if id == "column.cloudtrail.event.event_type"@ {
            Some(CloudTrailEventColumn::EventType)
        } else {
            None
        }
    }

    /// Only a column's own key reads back as a column: any other text reads
    /// back as none.
    pub proof fn lemma_key_only(id: Seq<char>)
        ensures
            Self::with_key(id) matches Some(c) ==> c.key() == id,
    {
    }

    /// Reading a column back from its key gives the column: no two columns
    /// share a key.
    pub proof fn lemma_key_roundtrip(c: Self)
        ensures
            Self::with_key(c.key()) == Some(c),
    {
        reveal_strlit("column.cloudtrail.event.event_name");
        reveal_strlit("column.cloudtrail.event.event_time");
        reveal_strlit("column.cloudtrail.event.username");
        reveal_strlit("column.cloudtrail.event.event_source");
        reveal_strlit("column.cloudtrail.event.resource_type");
        reveal_strlit("column.cloudtrail.event.resource_name");
        reveal_strlit("column.cloudtrail.event.read_only");
        reveal_strlit("column.cloudtrail.event.aws_region");
        reveal_strlit("column.cloudtrail.event.event_id");
        reveal_strlit("column.cloudtrail.event.access_key_id");
        reveal_strlit("column.cloudtrail.event.source_ip_address");
        reveal_strlit("column.cloudtrail.event.error_code");
        reveal_strlit("column.cloudtrail.event.request_id");
        reveal_strlit("column.cloudtrail.event.event_type");
        assert("column.cloudtrail.event.event_name"@.len() == 34);
        assert("column.cloudtrail.event.event_time"@.len() == 34);
        assert("column.cloudtrail.event.username"@.len() == 32);
        assert("column.cloudtrail.event.event_source"@.len() == 36);
        assert("column.cloudtrail.event.resource_type"@.len() == 37);
        assert("column.cloudtrail.event.resource_name"@.len() == 37);
        assert("column.cloudtrail.event.read_only"@.len() == 33);
        assert("column.cloudtrail.event.aws_region"@.len() == 34);
        assert("column.cloudtrail.event.event_id"@.len() == 32);
        assert("column.cloudtrail.event.access_key_id"@.len() == 37);
        assert("column.cloudtrail.event.source_ip_address"@.len() == 41);
        assert("column.cloudtrail.event.error_code"@.len() == 34);
        assert("column.cloudtrail.event.request_id"@.len() == 34);
        assert("column.cloudtrail.event.event_type"@.len() == 34);
        assert("column.cloudtrail.event.event_time"@[30] != "column.cloudtrail.event.event_name"@[30]);
        assert("column.cloudtrail.event.resource_name"@[33] != "column.cloudtrail.event.resource_type"@[33]);
        assert("column.cloudtrail.event.aws_region"@[24] != "column.cloudtrail.event.event_name"@[24]);
        assert("column.cloudtrail.event.aws_region"@[24] != "column.cloudtrail.event.event_time"@[24]);
        assert("column.cloudtrail.event.event_id"@[24] != "column.cloudtrail.event.username"@[24]);
        assert("column.cloudtrail.event.access_key_id"@[24] != "column.cloudtrail.event.resource_type"@[24]);
        assert("column.cloudtrail.event.access_key_id"@[24] != "column.cloudtrail.event.resource_name"@[24]);
        assert("column.cloudtrail.event.error_code"@[25] != "column.cloudtrail.event.event_name"@[25]);
        assert("column.cloudtrail.event.error_code"@[25] != "column.cloudtrail.event.event_time"@[25]);
        assert("column.cloudtrail.event.error_code"@[24] != "column.cloudtrail.event.aws_region"@[24]);
        assert("column.cloudtrail.event.request_id"@[24] != "column.cloudtrail.event.event_name"@[24]);
        assert("column.cloudtrail.event.request_id"@[24] != "column.cloudtrail.event.event_time"@[24]);
        assert("column.cloudtrail.event.request_id"@[24] != "column.cloudtrail.event.aws_region"@[24]);
        assert("column.cloudtrail.event.request_id"@[24] != "column.cloudtrail.event.error_code"@[24]);
        assert("column.cloudtrail.event.event_type"@[30] != "column.cloudtrail.event.event_name"@[30]);
        assert("column.cloudtrail.event.event_type"@[31] != "column.cloudtrail.event.event_time"@[31]);
        assert("column.cloudtrail.event.event_type"@[24] != "column.cloudtrail.event.aws_region"@[24]);
        assert("column.cloudtrail.event.event_type"@[25] != "column.cloudtrail.event.error_code"@[25]);
        assert("column.cloudtrail.event.event_type"@[24] != "column.cloudtrail.event.request_id"@[24]);
    }

    /// Every column, in display order.
    pub open spec fn every() -> Seq<Self> {
        seq![CloudTrailEventColumn::EventName, CloudTrailEventColumn::EventTime, CloudTrailEventColumn::Username, CloudTrailEventColumn::EventSource, CloudTrailEventColumn::ResourceType, CloudTrailEventColumn::ResourceName, CloudTrailEventColumn::ReadOnly, CloudTrailEventColumn::AwsRegion, CloudTrailEventColumn::EventId, CloudTrailEventColumn::AccessKeyId, CloudTrailEventColumn::SourceIpAddress, CloudTrailEventColumn::ErrorCode, CloudTrailEventColumn::RequestId, CloudTrailEventColumn::EventType]
    }

    /// The translation key of the column.
    pub fn id(&self) -> (r: ColumnId)
        ensures
            r@ == self.key(),
    {
        match self {
            CloudTrailEventColumn::EventName => "column.cloudtrail.event.event_name",
            CloudTrailEventColumn::EventTime => "column.cloudtrail.event.event_time",
            CloudTrailEventColumn::Username => "column.cloudtrail.event.username",
            CloudTrailEventColumn::EventSource => "column.cloudtrail.event.event_source",
            CloudTrailEventColumn::ResourceType => "column.cloudtrail.event.resource_type",
            CloudTrailEventColumn::ResourceName => "column.cloudtrail.event.resource_name",
            CloudTrailEventColumn::ReadOnly => "column.cloudtrail.event.read_only",
            CloudTrailEventColumn::AwsRegion => "column.cloudtrail.event.aws_region",
            CloudTrailEventColumn::EventId => "column.cloudtrail.event.event_id",
            CloudTrailEventColumn::AccessKeyId => "column.cloudtrail.event.access_key_id",
            CloudTrailEventColumn::SourceIpAddress => "column.cloudtrail.event.source_ip_address",
            CloudTrailEventColumn::ErrorCode => "column.cloudtrail.event.error_code",
            CloudTrailEventColumn::RequestId => "column.cloudtrail.event.request_id",
            CloudTrailEventColumn::EventType => "column.cloudtrail.event.event_type",
        }
    }

    /// The label of the column when no translation replaces it.
    pub fn default_name(&self) -> (r: &'static str)
        ensures
            r@ == self.default_label(),
    {
        match self {
            CloudTrailEventColumn::EventName => "Event name",
            CloudTrailEventColumn::EventTime => "Event time",
            CloudTrailEventColumn::Username => "User name",
            CloudTrailEventColumn::EventSource => "Event source",
            CloudTrailEventColumn::ResourceType => "Resource type",
            CloudTrailEventColumn::ResourceName => "Resource name",
            CloudTrailEventColumn::ReadOnly => "Read-only",
            CloudTrailEventColumn::AwsRegion => "AWS region",
            CloudTrailEventColumn::EventId => "Event ID",
            CloudTrailEventColumn::AccessKeyId => "AWS access key",
            CloudTrailEventColumn::SourceIpAddress => "Source IP address",
            CloudTrailEventColumn::ErrorCode => "Error code",
            CloudTrailEventColumn::RequestId => "Request ID",
            CloudTrailEventColumn::EventType => "Event type",
        }
    }

    /// The label of the column: its translation, else its default label.
    pub fn name(&self, tr: &Translations) -> (r: String)
        ensures
            r@ == translated_label(tr.entries@, self.key(), self.default_label()),
    {
        tr.translate_column(self.id(), self.default_name())
    }

    /// The display width of the column.
    pub fn width(&self) -> (r: u16)
        ensures
            r == self.width_of(),
    {
        match self {
            CloudTrailEventColumn::EventName => 35,
            CloudTrailEventColumn::EventTime => UTC_TIMESTAMP_WIDTH,
            CloudTrailEventColumn::Username => 25,
            CloudTrailEventColumn::EventSource => 30,
            CloudTrailEventColumn::ResourceType => 25,
            CloudTrailEventColumn::ResourceName => 40,
            CloudTrailEventColumn::ReadOnly => 12,
            CloudTrailEventColumn::AwsRegion => 15,
            CloudTrailEventColumn::EventId => 40,
            CloudTrailEventColumn::AccessKeyId => 25,
            CloudTrailEventColumn::SourceIpAddress => 18,
            CloudTrailEventColumn::ErrorCode => 20,
            CloudTrailEventColumn::RequestId => 40,
            CloudTrailEventColumn::EventType => 20,
        }
    }

    /// The column whose key is `id`, if any.
    pub fn from_id(id: &str) -> (r: Option<Self>)
        ensures
            r == Self::with_key(id@),
    {
        if str_eq(id, "column.cloudtrail.event.event_name") {
            Some(CloudTrailEventColumn::EventName)
        } else if str_eq(id, "column.cloudtrail.event.event_time") {
            Some(CloudTrailEventColumn::EventTime)
        } else if str_eq(id, "column.cloudtrail.event.username") {
            Some(CloudTrailEventColumn::Username)
        } else if str_eq(id, "column.cloudtrail.event.event_source") {
            Some(CloudTrailEventColumn::EventSource)
        } else if str_eq(id, "column.cloudtrail.event.resource_type") {
            Some(CloudTrailEventColumn::ResourceType)
        } else if str_eq(id, "column.cloudtrail.event.resource_name") {
            Some(CloudTrailEventColumn::ResourceName)
        } else if str_eq(id, "column.cloudtrail.event.read_only") {
            Some(CloudTrailEventColumn::ReadOnly)
        } else if str_eq(id, "column.cloudtrail.event.aws_region") {
            Some(CloudTrailEventColumn::AwsRegion)
        } else if str_eq(id, "column.cloudtrail.event.event_id") {
            Some(CloudTrailEventColumn::EventId)
        } else if str_eq(id, "column.cloudtrail.event.access_key_id") {
            Some(CloudTrailEventColumn::AccessKeyId)
        } else if str_eq(id, "column.cloudtrail.event.source_ip_address") {
            Some(CloudTrailEventColumn::SourceIpAddress)
        } else if str_eq(id, "column.cloudtrail.event.error_code") {
            Some(CloudTrailEventColumn::ErrorCode)
        } else if str_eq(id, "column.cloudtrail.event.request_id") {
            Some(CloudTrailEventColumn::RequestId)
        } else if str_eq(id, "column.cloudtrail.event.event_type") {
            Some(CloudTrailEventColumn::EventType)
        } else {
            None
        }
    }

    /// Every column, in display order.
    pub fn all() -> (r: [Self; 14])
        ensures
            r@ == Self::every(),
    {
        let r = [CloudTrailEventColumn::EventName, CloudTrailEventColumn::EventTime, CloudTrailEventColumn::Username, CloudTrailEventColumn::EventSource, CloudTrailEventColumn::ResourceType, CloudTrailEventColumn::ResourceName, CloudTrailEventColumn::ReadOnly, CloudTrailEventColumn::AwsRegion, CloudTrailEventColumn::EventId, CloudTrailEventColumn::AccessKeyId, CloudTrailEventColumn::SourceIpAddress, CloudTrailEventColumn::ErrorCode, CloudTrailEventColumn::RequestId, CloudTrailEventColumn::EventType];
        assert(r@ =~= Self::every());
        r
    }

    /// The keys of every column, in display order.
    pub fn ids() -> (r: Vec<ColumnId>)
        ensures
            r@.len() == Self::every().len(),
            forall|i: int| 0 <= i < r@.len() ==> (#[trigger] r@[i])@ == Self::every()[i].key(),
    {
        let r: Vec<ColumnId> = vec!["column.cloudtrail.event.event_name", "column.cloudtrail.event.event_time", "column.cloudtrail.event.username", "column.cloudtrail.event.event_source", "column.cloudtrail.event.resource_type", "column.cloudtrail.event.resource_name", "column.cloudtrail.event.read_only", "column.cloudtrail.event.aws_region", "column.cloudtrail.event.event_id", "column.cloudtrail.event.access_key_id", "column.cloudtrail.event.source_ip_address", "column.cloudtrail.event.error_code", "column.cloudtrail.event.request_id", "column.cloudtrail.event.event_type"];
        assert forall|i: int| 0 <= i < r@.len() implies (#[trigger] r@[i])@ == Self::every()[i].key() by {
            assert(r@ =~= seq!["column.cloudtrail.event.event_name", "column.cloudtrail.event.event_time", "column.cloudtrail.event.username", "column.cloudtrail.event.event_source", "column.cloudtrail.event.resource_type", "column.cloudtrail.event.resource_name", "column.cloudtrail.event.read_only", "column.cloudtrail.event.aws_region", "column.cloudtrail.event.event_id", "column.cloudtrail.event.access_key_id", "column.cloudtrail.event.source_ip_address", "column.cloudtrail.event.error_code", "column.cloudtrail.event.request_id", "column.cloudtrail.event.event_type"]);
        }
        r
    }

    /// The keys of every column paired with their default labels.
    pub open spec fn default_pairs() -> (Seq<Seq<char>>, Seq<Seq<char>>) {
        (Self::every().map_values(|c: Self| c.key()), Self::every().map_values(|c: Self| c.default_label()))
    }

}

} // verus!

//! CloudWatch Logs view: the columns of the log group, stream and event
//! tables and the console addresses of groups and streams.
use vstd::prelude::*;
use vstd::string::*;
use crate::common::{first_value, lookup, with_defaults, ColumnId, Translations};
use crate::text::str_eq;
use crate::url::{encode, url_encoded};

verus! {

/// The column keys and default labels that `init` lays down, in order.
pub open spec fn default_labels() -> (Seq<Seq<char>>, Seq<Seq<char>>) {
    (
        seq!["column.cw.stream.log_stream"@, "column.cw.stream.arn"@, "column.cw.stream.creation_time"@, "column.cw.stream.first_event_time"@, "column.cw.stream.last_event_time"@, "column.cw.stream.last_ingestion_time"@, "column.cw.stream.upload_sequence_token"@, "column.cw.event.timestamp"@, "column.cw.event.message"@, "column.cw.group.log_group"@, "column.cw.group.log_class"@, "column.cw.group.retention"@, "column.cw.group.stored_bytes"@, "column.cw.group.creation_time"@, "column.cw.group.arn"@],
        seq!["Log stream"@, "ARN"@, "Creation time"@, "First event time"@, "Last event time"@, "Last ingestion time"@, "Upload sequence token"@, "Timestamp"@, "Message"@, "Log group"@, "Log class"@, "Retention"@, "Stored bytes"@, "Creation time"@, "ARN"@],
    )
}

/// Gives the stream columns, the timestamp and message event columns and the log group columns their default labels, unless they already have a translation.
pub fn init(tr: &mut Translations)
    ensures
        forall|k: Seq<char>| #[trigger] lookup(final(tr).entries@, k) == with_defaults(
            lookup(old(tr).entries@, k), default_labels().0, default_labels().1, k),
{
    let keys: Vec<ColumnId> = vec!["column.cw.stream.log_stream", "column.cw.stream.arn", "column.cw.stream.creation_time", "column.cw.stream.first_event_time", "column.cw.stream.last_event_time", "column.cw.stream.last_ingestion_time", "column.cw.stream.upload_sequence_token", "column.cw.event.timestamp", "column.cw.event.message", "column.cw.group.log_group", "column.cw.group.log_class", "column.cw.group.retention", "column.cw.group.stored_bytes", "column.cw.group.creation_time", "column.cw.group.arn"];
    let labels: Vec<&'static str> = vec!["Log stream", "ARN", "Creation time", "First event time", "Last event time", "Last ingestion time", "Upload sequence token", "Timestamp", "Message", "Log group", "Log class", "Retention", "Stored bytes", "Creation time", "ARN"];
    assert(keys@.map_values(|s: &str| s@) =~= default_labels().0);
    assert(labels@.map_values(|s: &str| s@) =~= default_labels().1);
    tr.set_defaults(&keys, &labels);
}

/// The console address of the log groups of `region`.
pub open spec fn log_groups_address(region: Seq<char>) -> Seq<char> {
    "https://"@ + region + ".console.aws.amazon.com/cloudwatch/home?region="@ + region + "#logsV2:log-groups"@
}

/// The console address of one log group, its name percent-encoded.
pub open spec fn log_group_address(region: Seq<char>, group: Seq<char>) -> Seq<char> {
    log_groups_address(region) + "/log-group/"@ + url_encoded(group)
}

/// The console address of one stream of a log group, both names percent-encoded.
pub open spec fn log_stream_address(region: Seq<char>, group: Seq<char>, stream: Seq<char>) -> Seq<char> {
    log_group_address(region, group) + "/log-events/"@ + url_encoded(stream)
}

/// The console address of the log groups of `region`.
pub fn console_url_list(region: &str) -> (r: String)
    ensures
        r@ == log_groups_address(region@),
{
    let mut s = String::from_str("https://");
    s.append(region);
    s.append(".console.aws.amazon.com/cloudwatch/home?region=");
    s.append(region);
    s.append("#logsV2:log-groups");
    s
}

/// The console address of one log group.
pub fn console_url_detail(region: &str, group_name: &str) -> (r: String)
    ensures
        r@ == log_group_address(region@, group_name@),
{
    let encoded_group = encode(group_name);
    let mut s = console_url_list(region);
    s.append("/log-group/");
    s.append(encoded_group.as_str());
    s
}

/// The console address of one stream of a log group.
pub fn console_url_stream(region: &str, group_name: &str, stream_name: &str) -> (r: String)
    ensures
        r@ == log_stream_address(region@, group_name@, stream_name@),
{
    let encoded_stream = encode(stream_name);
    let mut s = console_url_detail(region, group_name);
    s.append("/log-events/");
    s.append(encoded_stream.as_str());
    s
}

/// A column of the log group table.
#[derive(Clone, Copy, Debug, PartialEq, Eq, Structural)]
pub enum LogGroupColumn {
    LogGroup,
    LogClass,
    Retention,
    StoredBytes,
    CreationTime,
    ARN,
}

impl LogGroupColumn {
    /// The translation key of the column.
    pub open spec fn key(self) -> Seq<char> {
        match self {
            LogGroupColumn::LogGroup => "column.cw.group.log_group"@,
            LogGroupColumn::LogClass => "column.cw.group.log_class"@,
            LogGroupColumn::Retention => "column.cw.group.retention"@,
            LogGroupColumn::StoredBytes => "column.cw.group.stored_bytes"@,
            LogGroupColumn::CreationTime => "column.cw.group.creation_time"@,
            LogGroupColumn::ARN => "column.cw.group.arn"@,
        }
    }

    /// The label of the column when no translation replaces it.
    pub open spec fn default_label(self) -> Seq<char> {
        match self {
            LogGroupColumn::LogGroup => "Log group"@,
            LogGroupColumn::LogClass => "Log class"@,
            LogGroupColumn::Retention => "Retention"@,
            LogGroupColumn::StoredBytes => "Stored bytes"@,
            LogGroupColumn::CreationTime => "Creation time"@,
            LogGroupColumn::ARN => "ARN"@,
        }
    }

    /// The column whose key is `id`, if any.
    pub open spec fn with_key(id: Seq<char>) -> Option<Self> {
        if id == "column.cw.group.log_group"@ {
            Some(LogGroupColumn::LogGroup)
        } else if id == "column.cw.group.log_class"@ {
            Some(LogGroupColumn::LogClass)
        } else if id == "column.cw.group.retention"@ {
            Some(LogGroupColumn::Retention)
        } else if id == "column.cw.group.stored_bytes"@ {
            Some(LogGroupColumn::StoredBytes)
        } else if id == "column.cw.group.creation_time"@ {
            Some(LogGroupColumn::CreationTime)
        } else if id == "column.cw.group.arn"@ {
            Some(LogGroupColumn::ARN)
        } else {
            None
        }
    }

    /// Reading a column back from its key gives the column: no two columns
    /// share a key.
    pub proof fn lemma_key_roundtrip(c: Self)
        ensures
            Self::with_key(c.key()) == Some(c),
    {
        reveal_strlit("column.cw.group.log_group");
        reveal_strlit("column.cw.group.log_class");
        reveal_strlit("column.cw.group.retention");
        reveal_strlit("column.cw.group.stored_bytes");
        reveal_strlit("column.cw.group.creation_time");
        reveal_strlit("column.cw.group.arn");
        assert("column.cw.group.log_group"@.len() == 25);
        assert("column.cw.group.log_class"@.len() == 25);
        assert("column.cw.group.retention"@.len() == 25);
        assert("column.cw.group.stored_bytes"@.len() == 28);
        assert("column.cw.group.creation_time"@.len() == 29);
        assert("column.cw.group.arn"@.len() == 19);
        assert("column.cw.group.log_class"@[20] != "column.cw.group.log_group"@[20]);
        assert("column.cw.group.retention"@[16] != "column.cw.group.log_group"@[16]);
        assert("column.cw.group.retention"@[16] != "column.cw.group.log_class"@[16]);
    }

    /// Every column, in display order.
    pub open spec fn every() -> Seq<Self> {
        seq![LogGroupColumn::LogGroup, LogGroupColumn::LogClass, LogGroupColumn::Retention, LogGroupColumn::StoredBytes, LogGroupColumn::CreationTime, LogGroupColumn::ARN]
    }

    /// The translation key of the column.
    pub fn id(&self) -> (r: ColumnId)
        ensures
            r@ == self.key(),
    {
        match self {
            LogGroupColumn::LogGroup => "column.cw.group.log_group",
            LogGroupColumn::LogClass => "column.cw.group.log_class",
            LogGroupColumn::Retention => "column.cw.group.retention",
            LogGroupColumn::StoredBytes => "column.cw.group.stored_bytes",
            LogGroupColumn::CreationTime => "column.cw.group.creation_time",
            LogGroupColumn::ARN => "column.cw.group.arn",
        }
    }

    /// The label of the column when no translation replaces it.
    pub fn default_name(&self) -> (r: &'static str)
        ensures
            r@ == self.default_label(),
    {
        match self {
            LogGroupColumn::LogGroup => "Log group",
            LogGroupColumn::LogClass => "Log class",
            LogGroupColumn::Retention => "Retention",
            LogGroupColumn::StoredBytes => "Stored bytes",
            LogGroupColumn::CreationTime => "Creation time",
            LogGroupColumn::ARN => "ARN",
        }
    }

    /// The column whose key is `id`, if any.
    pub fn from_id(id: &str) -> (r: Option<Self>)
        ensures
            r == Self::with_key(id@),
    {
        if str_eq(id, "column.cw.group.log_group") {
            Some(LogGroupColumn::LogGroup)
        } else if str_eq(id, "column.cw.group.log_class") {
            Some(LogGroupColumn::LogClass)
        } else if str_eq(id, "column.cw.group.retention") {
            Some(LogGroupColumn::Retention)
        } else if str_eq(id, "column.cw.group.stored_bytes") {
            Some(LogGroupColumn::StoredBytes)
        } else if str_eq(id, "column.cw.group.creation_time") {
            Some(LogGroupColumn::CreationTime)
        } else if str_eq(id, "column.cw.group.arn") {
            Some(LogGroupColumn::ARN)
        } else {
            None
        }
    }

    /// Every column, in display order.
    pub fn all() -> (r: [Self; 6])
        ensures
            r@ == Self::every(),
    {
        let r = [LogGroupColumn::LogGroup, LogGroupColumn::LogClass, LogGroupColumn::Retention, LogGroupColumn::StoredBytes, LogGroupColumn::CreationTime, LogGroupColumn::ARN];
        assert(r@ =~= Self::every());
        r
    }

    /// The keys of every column, in display order.
    pub fn ids() -> (r: Vec<ColumnId>)
        ensures
            r@.len() == Self::every().len(),
            forall|i: int| 0 <= i < r@.len() ==> (#[trigger] r@[i])@ == Self::every()[i].key(),
    {
        let r: Vec<ColumnId> = vec!["column.cw.group.log_group", "column.cw.group.log_class", "column.cw.group.retention", "column.cw.group.stored_bytes", "column.cw.group.creation_time", "column.cw.group.arn"];
        assert forall|i: int| 0 <= i < r@.len() implies (#[trigger] r@[i])@ == Self::every()[i].key() by {
            assert(r@ =~= seq!["column.cw.group.log_group", "column.cw.group.log_class", "column.cw.group.retention", "column.cw.group.stored_bytes", "column.cw.group.creation_time", "column.cw.group.arn"]);
        }
        r
    }

}

impl LogGroupColumn {
    /// The keys of the columns shown until the user picks others.
    pub fn default_visible() -> (r: Vec<ColumnId>)
        ensures
            r@.map_values(|s: &str| s@) == seq!["column.cw.group.log_group"@, "column.cw.group.stored_bytes"@],
    {
        let r: Vec<ColumnId> = vec!["column.cw.group.log_group", "column.cw.group.stored_bytes"];
        assert(r@.map_values(|s: &str| s@) =~= seq!["column.cw.group.log_group"@, "column.cw.group.stored_bytes"@]);
        r
    }
}

/// A column of the log stream table.
#[derive(Clone, Copy, Debug, PartialEq, Eq, Structural)]
pub enum StreamColumn {
    LogStream,
    ARN,
    CreationTime,
    FirstEventTime,
    LastEventTime,
    LastIngestionTime,
    UploadSequenceToken,
}

impl StreamColumn {
    /// The translation key of the column.
    pub open spec fn key(self) -> Seq<char> {
        match self {
            StreamColumn::LogStream => "column.cw.stream.log_stream"@,
            StreamColumn::ARN => "column.cw.stream.arn"@,
            StreamColumn::CreationTime => "column.cw.stream.creation_time"@,
            StreamColumn::FirstEventTime => "column.cw.stream.first_event_time"@,
            StreamColumn::LastEventTime => "column.cw.stream.last_event_time"@,
            StreamColumn::LastIngestionTime => "column.cw.stream.last_ingestion_time"@,
            StreamColumn::UploadSequenceToken => "column.cw.stream.upload_sequence_token"@,
        }
    }

    /// The label of the column when no translation replaces it.
    pub open spec fn default_label(self) -> Seq<char> {
        match self {
            StreamColumn::LogStream => "Log stream"@,
            StreamColumn::ARN => "ARN"@,
            StreamColumn::CreationTime => "Creation time"@,
            StreamColumn::FirstEventTime => "First event time"@,
            StreamColumn::LastEventTime => "Last event time"@,
            StreamColumn::LastIngestionTime => "Last ingestion time"@,
            StreamColumn::UploadSequenceToken => "Upload sequence token"@,
        }
    }

    /// The column whose key is `id`, if any.
    pub open spec fn with_key(id: Seq<char>) -> Option<Self> {
        if id == "column.cw.stream.log_stream"@ {
            Some(StreamColumn::LogStream)
        } else if id == "column.cw.stream.arn"@ {
            Some(StreamColumn::ARN)
        } else if id == "column.cw.stream.creation_time"@ {
            Some(StreamColumn::CreationTime)
        } else if id == "column.cw.stream.first_event_time"@ {
            Some(StreamColumn::FirstEventTime)
        } else if id == "column.cw.stream.last_event_time"@ {
            Some(StreamColumn::LastEventTime)
        } else if id == "column.cw.stream.last_ingestion_time"@ {
            Some(StreamColumn::LastIngestionTime)
        } else if id == "column.cw.stream.upload_sequence_token"@ {
            Some(StreamColumn::UploadSequenceToken)
        } else {
            None
        }
    }

    /// Reading a column back from its key gives the column: no two columns
    /// share a key.
    pub proof fn lemma_key_roundtrip(c: Self)
        ensures
            Self::with_key(c.key()) == Some(c),
    {
        reveal_strlit("column.cw.stream.log_stream");
        reveal_strlit("column.cw.stream.arn");
        reveal_strlit("column.cw.stream.creation_time");
        reveal_strlit("column.cw.stream.first_event_time");
        reveal_strlit("column.cw.stream.last_event_time");
        reveal_strlit("column.cw.stream.last_ingestion_time");
        reveal_strlit("column.cw.stream.upload_sequence_token");
        assert("column.cw.stream.log_stream"@.len() == 27);
        assert("column.cw.stream.arn"@.len() == 20);
        assert("column.cw.stream.creation_time"@.len() == 30);
        assert("column.cw.stream.first_event_time"@.len() == 33);
        assert("column.cw.stream.last_event_time"@.len() == 32);
        assert("column.cw.stream.last_ingestion_time"@.len() == 36);
        assert("column.cw.stream.upload_sequence_token"@.len() == 38);
    }

    /// Every column, in display order.
    pub open spec fn every() -> Seq<Self> {
        seq![StreamColumn::LogStream, StreamColumn::ARN, StreamColumn::CreationTime, StreamColumn::FirstEventTime, StreamColumn::LastEventTime, StreamColumn::LastIngestionTime, StreamColumn::UploadSequenceToken]
    }

    /// The translation key of the column.
    pub fn id(&self) -> (r: ColumnId)
        ensures
            r@ == self.key(),
    {
        match self {
            StreamColumn::LogStream => "column.cw.stream.log_stream",
            StreamColumn::ARN => "column.cw.stream.arn",
            StreamColumn::CreationTime => "column.cw.stream.creation_time",
            StreamColumn::FirstEventTime => "column.cw.stream.first_event_time",
            StreamColumn::LastEventTime => "column.cw.stream.last_event_time",
            StreamColumn::LastIngestionTime => "column.cw.stream.last_ingestion_time",
            StreamColumn::UploadSequenceToken => "column.cw.stream.upload_sequence_token",
        }
    }

    /// The label of the column when no translation replaces it.
    pub fn default_name(&self) -> (r: &'static str)
        ensures
            r@ == self.default_label(),
    {
        match self {
            StreamColumn::LogStream => "Log stream",
            StreamColumn::ARN => "ARN",
            StreamColumn::CreationTime => "Creation time",
            StreamColumn::FirstEventTime => "First event time",
            StreamColumn::LastEventTime => "Last event time",
            StreamColumn::LastIngestionTime => "Last ingestion time",
            StreamColumn::UploadSequenceToken => "Upload sequence token",
        }
    }

    /// The column whose key is `id`, if any.
    pub fn from_id(id: &str) -> (r: Option<Self>)
        ensures
            r == Self::with_key(id@),
    {
        if str_eq(id, "column.cw.stream.log_stream") {
            Some(StreamColumn::LogStream)
        } else if str_eq(id, "column.cw.stream.arn") {
            Some(StreamColumn::ARN)
        } else if str_eq(id, "column.cw.stream.creation_time") {
            Some(StreamColumn::CreationTime)
        } else if str_eq(id, "column.cw.stream.first_event_time") {
            Some(StreamColumn::FirstEventTime)
        } else if str_eq(id, "column.cw.stream.last_event_time") {
            Some(StreamColumn::LastEventTime)
        } else if str_eq(id, "column.cw.stream.last_ingestion_time") {
            Some(StreamColumn::LastIngestionTime)
        } else if str_eq(id, "column.cw.stream.upload_sequence_token") {
            Some(StreamColumn::UploadSequenceToken)
        } else {
            None
        }
    }

    /// Every column, in display order.
    pub fn all() -> (r: [Self; 7])
        ensures
            r@ == Self::every(),
    {
        let r = [StreamColumn::LogStream, StreamColumn::ARN, StreamColumn::CreationTime, StreamColumn::FirstEventTime, StreamColumn::LastEventTime, StreamColumn::LastIngestionTime, StreamColumn::UploadSequenceToken];
        assert(r@ =~= Self::every());
        r
    }

    /// The keys of every column, in display order.
    pub fn ids() -> (r: Vec<ColumnId>)
        ensures
            r@.len() == Self::every().len(),
            forall|i: int| 0 <= i < r@.len() ==> (#[trigger] r@[i])@ == Self::every()[i].key(),
    {
        let r: Vec<ColumnId> = vec!["column.cw.stream.log_stream", "column.cw.stream.arn", "column.cw.stream.creation_time", "column.cw.stream.first_event_time", "column.cw.stream.last_event_time", "column.cw.stream.last_ingestion_time", "column.cw.stream.upload_sequence_token"];
        assert forall|i: int| 0 <= i < r@.len() implies (#[trigger] r@[i])@ == Self::every()[i].key() by {
            assert(r@ =~= seq!["column.cw.stream.log_stream", "column.cw.stream.arn", "column.cw.stream.creation_time", "column.cw.stream.first_event_time", "column.cw.stream.last_event_time", "column.cw.stream.last_ingestion_time", "column.cw.stream.upload_sequence_token"]);
        }
        r
    }

}

impl StreamColumn {
    /// The keys of the columns shown until the user picks others.
    pub fn default_visible() -> (r: Vec<ColumnId>)
        ensures
            r@.map_values(|s: &str| s@) == seq!["column.cw.stream.log_stream"@, "column.cw.stream.creation_time"@, "column.cw.stream.last_event_time"@],
    {
        let r: Vec<ColumnId> = vec!["column.cw.stream.log_stream", "column.cw.stream.creation_time", "column.cw.stream.last_event_time"];
        assert(r@.map_values(|s: &str| s@) =~= seq!["column.cw.stream.log_stream"@, "column.cw.stream.creation_time"@, "column.cw.stream.last_event_time"@]);
        r
    }
}

/// A column of the log event table.
#[derive(Clone, Copy, Debug, PartialEq, Eq, Structural)]
pub enum EventColumn {
    Timestamp,
    IngestionTime,
    Message,
    EventId,
    LogStreamName,
}

impl EventColumn {
    /// The translation key of the column.
    pub open spec fn key(self) -> Seq<char> {
        match self {
            EventColumn::Timestamp => "column.cw.event.timestamp"@,
            EventColumn::IngestionTime => "column.cw.event.ingestion_time"@,
            EventColumn::Message => "column.cw.event.message"@,
            EventColumn::EventId => "column.cw.event.event_id"@,
            EventColumn::LogStreamName => "column.cw.event.log_stream_name"@,
        }
    }

    /// The label of the column when no translation replaces it.
    pub open spec fn default_label(self) -> Seq<char> {
        match self {
            EventColumn::Timestamp => "Timestamp"@,
            EventColumn::IngestionTime => "Ingestion time"@,
            EventColumn::Message => "Message"@,
            EventColumn::EventId => "Event ID"@,
            EventColumn::LogStreamName => "Log stream name"@,
        }
    }

    /// The column whose key is `id`, if any.
    pub open spec fn with_key(id: Seq<char>) -> Option<Self> {
        if id == "column.cw.event.timestamp"@ {
            Some(EventColumn::Timestamp)
        } else if id == "column.cw.event.ingestion_time"@ {
            Some(EventColumn::IngestionTime)
        } else if id == "column.cw.event.message"@ {
            Some(EventColumn::Message)
        } else if id == "column.cw.event.event_id"@ {
            Some(EventColumn::EventId)
        } else if id == "column.cw.event.log_stream_name"@ {
            Some(EventColumn::LogStreamName)
        } else {
            None
        }
    }

    /// Reading a column back from its key gives the column: no two columns
    /// share a key.
    pub proof fn lemma_key_roundtrip(c: Self)
        ensures
            Self::with_key(c.key()) == Some(c),
    {
        reveal_strlit("column.cw.event.timestamp");
        reveal_strlit("column.cw.event.ingestion_time");
        reveal_strlit("column.cw.event.message");
        reveal_strlit("column.cw.event.event_id");
        reveal_strlit("column.cw.event.log_stream_name");
        assert("column.cw.event.timestamp"@.len() == 25);
        assert("column.cw.event.ingestion_time"@.len() == 30);
        assert("column.cw.event.message"@.len() == 23);
        assert("column.cw.event.event_id"@.len() == 24);
        assert("column.cw.event.log_stream_name"@.len() == 31);
    }

    /// Every column, in display order.
    pub open spec fn every() -> Seq<Self> {
        seq![EventColumn::Timestamp, EventColumn::IngestionTime, EventColumn::Message, EventColumn::EventId, EventColumn::LogStreamName]
    }

    /// The translation key of the column.
    pub fn id(&self) -> (r: ColumnId)
        ensures
            r@ == self.key(),
    {
        match self {
            EventColumn::Timestamp => "column.cw.event.timestamp",
            EventColumn::IngestionTime => "column.cw.event.ingestion_time",
            EventColumn::Message => "column.cw.event.message",
            EventColumn::EventId => "column.cw.event.event_id",
            EventColumn::LogStreamName => "column.cw.event.log_stream_name",
        }
    }

    /// The label of the column when no translation replaces it.
    pub fn default_name(&self) -> (r: &'static str)
        ensures
            r@ == self.default_label(),
    {
        match self {
            EventColumn::Timestamp => "Timestamp",
            EventColumn::IngestionTime => "Ingestion time",
            EventColumn::Message => "Message",
            EventColumn::EventId => "Event ID",
            EventColumn::LogStreamName => "Log stream name",
        }
    }

    /// The column whose key is `id`, if any.
    pub fn from_id(id: &str) -> (r: Option<Self>)
        ensures
            r == Self::with_key(id@),
    {
        if str_eq(id, "column.cw.event.timestamp") {
            Some(EventColumn::Timestamp)
        } else if str_eq(id, "column.cw.event.ingestion_time") {
            Some(EventColumn::IngestionTime)
        } else if str_eq(id, "column.cw.event.message") {
            Some(EventColumn::Message)
        } else if str_eq(id, "column.cw.event.event_id") {
            Some(EventColumn::EventId)
        } else if str_eq(id, "column.cw.event.log_stream_name") {
            Some(EventColumn::LogStreamName)
        } else {
            None
        }
    }

    /// Every column, in display order.
    pub fn all() -> (r: [Self; 5])
        ensures
            r@ == Self::every(),
    {
        let r = [EventColumn::Timestamp, EventColumn::IngestionTime, EventColumn::Message, EventColumn::EventId, EventColumn::LogStreamName];
        assert(r@ =~= Self::every());
        r
    }

    /// The keys of every column, in display order.
    pub fn ids() -> (r: Vec<ColumnId>)
        ensures
            r@.len() == Self::every().len(),
            forall|i: int| 0 <= i < r@.len() ==> (#[trigger] r@[i])@ == Self::every()[i].key(),
    {
        let r: Vec<ColumnId> = vec!["column.cw.event.timestamp", "column.cw.event.ingestion_time", "column.cw.event.message", "column.cw.event.event_id", "column.cw.event.log_stream_name"];
        assert forall|i: int| 0 <= i < r@.len() implies (#[trigger] r@[i])@ == Self::every()[i].key() by {
            assert(r@ =~= seq!["column.cw.event.timestamp", "column.cw.event.ingestion_time", "column.cw.event.message", "column.cw.event.event_id", "column.cw.event.log_stream_name"]);
        }
        r
    }

}

impl EventColumn {
    /// The keys of the columns shown until the user picks others.
    pub fn default_visible() -> (r: Vec<ColumnId>)
        ensures
            r@.map_values(|s: &str| s@) == seq!["column.cw.event.timestamp"@, "column.cw.event.message"@],
    {
        let r: Vec<ColumnId> = vec!["column.cw.event.timestamp", "column.cw.event.message"];
        assert(r@.map_values(|s: &str| s@) =~= seq!["column.cw.event.timestamp"@, "column.cw.event.message"@]);
        r
    }
}

} // verus!

//! CloudTrail: the records the console shows and the client that reads them.
use vstd::prelude::*;
use vstd::string::*;
use crate::cloud::config::AwsConfig;
use crate::cloud::fsx::{owned_or_empty, text_of};
use crate::cloudtrail::events::CloudTrailEvent;
use crate::json::{json_pretty, json_string_member, member_text, pretty_text};
use crate::timestamp::{civil_from_rfc3339, format_timestamp, rfc3339_civil, timestamp_text, UtcTime};

verus! {

/// Client of CloudTrail for one session.
pub struct CloudTrailClient {
    config: AwsConfig,
}

impl CloudTrailClient {
    /// A client for the session `config`.
    pub fn new(config: AwsConfig) -> (r: Self)
        ensures
            r.session() == config,
    {
        CloudTrailClient { config }
    }

    /// The session of the client.
    pub closed spec fn session(&self) -> AwsConfig {
        self.config
    }

    /// The session of the client.
    pub fn config(&self) -> (r: &AwsConfig)
        ensures
            *r == self.session(),
    {
        &self.config
    }
}

/// An event as CloudTrail returns it: its time written out in RFC 3339, its
/// resources as optional types and names, its record as JSON text.
pub struct CloudTrailEventDescription {
    pub event_name: Option<String>,
    pub event_time: Option<String>,
    pub username: Option<String>,
    pub resources: Vec<(Option<String>, Option<String>)>,
    pub read_only: Option<String>,
    pub event_id: Option<String>,
    pub access_key_id: Option<String>,
    pub cloud_trail_event: Option<String>,
}

/// The member `field` of the event's record, as text (empty when the record,
/// or the member, is missing or no text).
pub open spec fn record_member(record: Option<String>, field: Seq<char>) -> Seq<char> {
    match record {
        Some(j) => match json_string_member(j@, field) {
            Some(v) => v,
            None => Seq::empty(),
        },
        None => Seq::empty(),
    }
}

fn record_member_text(record: &Option<String>, field: &str) -> (r: String)
    ensures
        r@ == record_member(*record, field@),
{
    match record {
        Some(j) => member_or_empty(member_text(j.as_str(), field)),
        None => String::new(),
    }
}

/// A member read from an event record: its text, empty when there is none.
pub fn member_or_empty(member: Option<String>) -> (r: String)
    ensures
        r@ == (match member {
            Some(v) => v@,
            None => Seq::<char>::empty(),
        }),
{
    match member {
        Some(v) => v,
        None => String::new(),
    }
}

/// The time of an event once its text was read: the time read, or `now` when
/// the text did not parse.
pub fn event_time_from(parsed: Option<UtcTime>, now: &UtcTime) -> (r: String)
    ensures
        r@ == (match parsed {
            Some(c) => timestamp_text(c),
            None => timestamp_text(*now),
        }),
{
    match parsed {
        Some(c) => format_timestamp(&c),
        None => format_timestamp(now),
    }
}

/// An event's record as shown, once laid out: the laid-out JSON, or `{}`
/// when it was no JSON.
pub fn event_json_from(pretty: Result<String, String>) -> (r: String)
    ensures
        r@ == (match pretty {
            Ok(p) => p@,
            Err(_) => "{}"@,
        }),
{
    match pretty {
        Ok(p) => p,
        Err(_) => String::from_str("{}"),
    }
}

/// The time of an event as `YYYY-MM-DD HH:MM:SS (UTC)`; a time that does not
/// parse reads as `now`; empty when there is none.
pub open spec fn event_time_text(t: Option<String>, now: UtcTime) -> Seq<char> {
    match t {
        Some(s) => match rfc3339_civil(s@) {
            Some(c) => timestamp_text(c),
            None => timestamp_text(now),
        },
        None => Seq::empty(),
    }
}

/// The type (`.0`) or name (`.1`) of the first resource, empty when missing.
pub open spec fn first_resource(resources: Seq<(Option<String>, Option<String>)>, name: bool) -> Seq<char> {
    if resources.len() == 0 {
        Seq::empty()
    } else if name {
        text_of(resources[0].1)
    } else {
        text_of(resources[0].0)
    }
}

/// `e` is the event CloudTrail returned as `d`, its time read at `now` when
/// it does not parse: the source, region, source address, error code,
/// request id and type come from its record, which is shown laid out (`{}`
/// when there is none or it is no JSON).
pub open spec fn is_event_of(e: CloudTrailEvent, d: CloudTrailEventDescription, now: UtcTime) -> bool {
    &&& e.event_name@ == text_of(d.event_name)
    &&& e.event_time@ == event_time_text(d.event_time, now)
    &&& e.username@ == text_of(d.username)
    &&& e.event_source@ == record_member(d.cloud_trail_event, "eventSource"@)
    &&& e.resource_type@ == first_resource(d.resources@, false)
    &&& e.resource_name@ == first_resource(d.resources@, true)
    &&& e.read_only@ == text_of(d.read_only)
    &&& e.aws_region@ == record_member(d.cloud_trail_event, "awsRegion"@)
    &&& e.event_id@ == text_of(d.event_id)
    &&& e.access_key_id@ == text_of(d.access_key_id)
    &&& e.source_ip_address@ == record_member(d.cloud_trail_event, "sourceIPAddress"@)
    &&& e.error_code@ == record_member(d.cloud_trail_event, "errorCode"@)
    &&& e.request_id@ == record_member(d.cloud_trail_event, "requestID"@)
    &&& e.event_type@ == record_member(d.cloud_trail_event, "eventType"@)
    &&& e.cloud_trail_event_json@ == (match d.cloud_trail_event {
        Some(j) => match json_pretty(j@) {
            Ok(p) => p,
            Err(_) => "{}"@,
        },
        None => "{}"@,
    })
}

/// The event CloudTrail returned as `d`; `now` stands for a time that does
/// not parse.
pub fn event_from(d: &CloudTrailEventDescription, now: &UtcTime) -> (r: CloudTrailEvent)
    ensures
        is_event_of(r, *d, *now),
{
    let event_time = match &d.event_time {
        Some(t) => event_time_from(civil_from_rfc3339(t.as_str()), now),
        None => String::new(),
    };
    let (resource_type, resource_name) = if d.resources.len() > 0 {
        (owned_or_empty(&d.resources[0].0), owned_or_empty(&d.resources[0].1))
    } else {
        (String::new(), String::new())
    };
    let json = match &d.cloud_trail_event {
        Some(j) => event_json_from(pretty_text(j.as_str())),
        None => String::from_str("{}"),
    };
    CloudTrailEvent {
        event_time,
        event_name: owned_or_empty(&d.event_name),
        username: owned_or_empty(&d.username),
        event_source: record_member_text(&d.cloud_trail_event, "eventSource"),
        resource_type,
        resource_name,
        read_only: owned_or_empty(&d.read_only),
        aws_region: record_member_text(&d.cloud_trail_event, "awsRegion"),
        event_id: owned_or_empty(&d.event_id),
        access_key_id: owned_or_empty(&d.access_key_id),
        source_ip_address: record_member_text(&d.cloud_trail_event, "sourceIPAddress"),
        error_code: record_member_text(&d.cloud_trail_event, "errorCode"),
        request_id: record_member_text(&d.cloud_trail_event, "requestID"),
        event_type: record_member_text(&d.cloud_trail_event, "eventType"),
        cloud_trail_event_json: json,
    }
}

/// The events CloudTrail returned, in the order it returned them.
pub fn events_from(descriptions: &Vec<CloudTrailEventDescription>, now: &UtcTime) -> (r: Vec<CloudTrailEvent>)
    ensures
        r@.len() == descriptions@.len(),
        forall|i: int| 0 <= i < r@.len() ==> is_event_of(#[trigger] r@[i], descriptions@[i], *now),
{
    let mut out: Vec<CloudTrailEvent> = Vec::new();
    let mut i: usize = 0;
    while i < descriptions.len()
        invariant
            i <= descriptions@.len(),
            out@.len() == i,
            forall|k: int| 0 <= k < i ==> is_event_of(#[trigger] out@[k], descriptions@[k], *now),
        decreases descriptions@.len() - i,
    {
        out.push(event_from(&descriptions[i], now));
        i = i + 1;
    }
    out
}

} // verus!

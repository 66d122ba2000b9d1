//! SQS: the records the console shows and the client that reads them.
use vstd::prelude::*;
use vstd::string::*;
use crate::cloud::config::AwsConfig;
use crate::cloud::fsx::{owned_or_empty, text_of};
use crate::json::{json_string_member, member_text};
use crate::sort::{stable_reorder, TextKey, sort_by_text_key, lemma_seq_lt_asymmetric, lemma_seq_lt_transitive, seq_lt, str_lt};
use crate::text::{owned, str_eq};

verus! {

/// An SQS queue.
#[derive(Clone, Debug)]
pub struct SqsQueue {
    pub name: String,
    pub url: String,
    pub queue_type: String,
    pub created_timestamp: String,
    pub messages_available: String,
    pub messages_in_flight: String,
    pub encryption: String,
    pub content_based_deduplication: String,
    pub last_modified_timestamp: String,
    pub visibility_timeout: String,
    pub message_retention_period: String,
    pub maximum_message_size: String,
    pub delivery_delay: String,
    pub receive_message_wait_time: String,
    pub high_throughput_fifo: String,
    pub deduplication_scope: String,
    pub fifo_throughput_limit: String,
    pub dead_letter_queue: String,
    pub messages_delayed: String,
    pub redrive_allow_policy: String,
    pub redrive_policy: String,
}

/// A Lambda function triggered by a queue.
#[derive(Clone, Debug)]
pub struct LambdaTrigger {
    pub uuid: String,
    pub arn: String,
    pub status: String,
    pub last_modified: String,
}

/// An EventBridge pipe reading a queue.
#[derive(Clone, Debug)]
pub struct EventBridgePipe {
    pub name: String,
    pub status: String,
    pub target: String,
    pub last_modified: String,
}

/// A tag of a queue.
#[derive(Clone, Debug)]
pub struct QueueTag {
    pub key: String,
    pub value: String,
}

/// Client of SQS for one session.
pub struct SqsClient {
    config: AwsConfig,
}

impl SqsClient {
    /// A client for the session `config`.
    pub fn new(config: AwsConfig) -> (r: Self)
        ensures
            r.session() == config,
    {
        SqsClient { config }
    }

    /// The session of the client.
    pub closed spec fn session(&self) -> AwsConfig {
        self.config
    }

    /// The session of the client.
    pub fn config(&self) -> (r: &AwsConfig)
        ensures
            *r == self.session(),
    {
        &self.config
    }
}

/// The text of `s` after its last `c` (all of `s` when it holds no `c`).
pub open spec fn after_last(s: Seq<char>, c: char) -> Seq<char>
    decreases s.len(),
{
    if s.len() == 0 {
        s
    } else if s.last() == c {
        Seq::empty()
    } else {
        after_last(s.drop_last(), c).push(s.last())
    }
}

/// The text of `s` after its last `c`.
pub fn text_after_last(s: &str, c: char) -> (r: String)
    ensures
        r@ == after_last(s@, c),
{
    let n = s.unicode_len();
    let mut i: usize = n;
    assert(s@.take(n as int) =~= s@);
    assert(s@.skip(n as int) =~= Seq::<char>::empty());
    while i > 0
        invariant
            i <= n,
            n == s@.len(),
            after_last(s@, c) == after_last(s@.take(i as int), c) + s@.skip(i as int),
            forall|k: int| i <= k < n ==> s@[k] != c,
        decreases i,
    {
        let x = s.get_char(i - 1);
        assert(s@.take(i as int).last() == x);
        assert(s@.take(i as int).drop_last() =~= s@.take(i - 1));
        if x == c {
            return owned(s.substring_char(i, n));
        }
        assert(s@.skip(i - 1) =~= seq![x] + s@.skip(i as int));
        assert(after_last(s@.take(i as int), c) == after_last(s@.take(i - 1), c).push(x));
        assert(after_last(s@.take(i - 1), c).push(x) + s@.skip(i as int) =~= after_last(s@.take(i - 1), c) + s@.skip(i - 1));
        i = i - 1;
    }
    assert(s@.take(0) =~= Seq::<char>::empty());
    assert(s@.skip(0) =~= s@);
    owned(s)
}

/// The attributes of a queue as SQS gives them, by attribute.
pub struct SqsAttributes {
    pub created_timestamp: Option<String>,
    pub approximate_number_of_messages: Option<String>,
    pub approximate_number_of_messages_not_visible: Option<String>,
    pub approximate_number_of_messages_delayed: Option<String>,
    pub kms_master_key_id: Option<String>,
    pub content_based_deduplication: Option<String>,
    pub last_modified_timestamp: Option<String>,
    pub visibility_timeout: Option<String>,
    pub message_retention_period: Option<String>,
    pub maximum_message_size: Option<String>,
    pub delay_seconds: Option<String>,
    pub receive_message_wait_time_seconds: Option<String>,
    pub fifo_throughput_limit: Option<String>,
    pub deduplication_scope: Option<String>,
    pub redrive_policy: Option<String>,
    pub redrive_allow_policy: Option<String>,
}

/// The text of an optional string, or `default` when absent.
pub open spec fn text_or(o: Option<String>, default: Seq<char>) -> Seq<char> {
    match o {
        Some(s) => s@,
        None => default,
    }
}

/// The text of an optional string, or `default` when absent.
pub fn owned_or(o: &Option<String>, default: &str) -> (r: String)
    ensures
        r@ == text_or(*o, default@),
{
    match o {
        Some(s) => s.clone(),
        None => owned(default),
    }
}

/// The dead-letter queue a redrive policy names: the last part of the ARN in
/// its `deadLetterTargetArn` member; `-` when there is no policy or no such
/// member.
pub open spec fn dead_letter_of(policy: Option<String>) -> Seq<char> {
    match policy {
        Some(p) => match json_string_member(p@, "deadLetterTargetArn"@) {
            Some(arn) => after_last(arn, ':'),
            None => "-"@,
        },
        None => "-"@,
    }
}

/// What a redrive-allow policy permits: its `redrivePermission` member, the
/// policy itself when it has none, `-` when there is no policy.
pub open spec fn redrive_permission_of(policy: Option<String>) -> Seq<char> {
    match policy {
        Some(p) => match json_string_member(p@, "redrivePermission"@) {
            Some(perm) => perm,
            None => p@,
        },
        None => "-"@,
    }
}

/// `r` is the row of the queue at `url` with attributes `a`: its name is the
/// last part of the address, a `.fifo` name makes a FIFO queue, counts
/// default to 0, flags read `Enabled` or `Disabled`, and FIFO settings `-`
/// when absent.
pub open spec fn is_queue_of(r: SqsQueue, url: Seq<char>, a: SqsAttributes) -> bool {
    let name = after_last(url, '/');
    &&& r.name@ == name
    &&& r.url@ == url
    &&& r.queue_type@ == (if name.len() >= 5 && name.subrange(name.len() - 5, name.len() as int) == ".fifo"@ {
        "FIFO"@
    } else {
        "Standard"@
    })
    &&& r.created_timestamp@ == text_of(a.created_timestamp)
    &&& r.messages_available@ == text_or(a.approximate_number_of_messages, "0"@)
    &&& r.messages_in_flight@ == text_or(a.approximate_number_of_messages_not_visible, "0"@)
    &&& r.encryption@ == (if a.kms_master_key_id is Some { "Enabled"@ } else { "Disabled"@ })
    &&& r.content_based_deduplication@ == (match a.content_based_deduplication {
        Some(v) => if v@ == "true"@ { "Enabled"@ } else { "Disabled"@ },
        None => "Disabled"@,
    })
    &&& r.last_modified_timestamp@ == text_of(a.last_modified_timestamp)
    &&& r.visibility_timeout@ == text_of(a.visibility_timeout)
    &&& r.message_retention_period@ == text_of(a.message_retention_period)
    &&& r.maximum_message_size@ == (match a.maximum_message_size {
        Some(v) => v@ + " bytes"@,
        None => Seq::empty(),
    })
    &&& r.delivery_delay@ == text_of(a.delay_seconds)
    &&& r.receive_message_wait_time@ == text_of(a.receive_message_wait_time_seconds)
    &&& r.high_throughput_fifo@ == (match a.fifo_throughput_limit {
        Some(v) => if v@ == "perMessageGroupId"@ { "Disabled"@ } else { "Enabled"@ },
        None => "-"@,
    })
    &&& r.deduplication_scope@ == text_or(a.deduplication_scope, "-"@)
    &&& r.fifo_throughput_limit@ == text_or(a.fifo_throughput_limit, "-"@)
    &&& r.dead_letter_queue@ == dead_letter_of(a.redrive_policy)
    &&& r.messages_delayed@ == text_or(a.approximate_number_of_messages_delayed, "0"@)
    &&& r.redrive_allow_policy@ == redrive_permission_of(a.redrive_allow_policy)
    &&& r.redrive_policy@ == text_of(a.redrive_policy)
}

/// The row of the queue at `url`, from its attributes.
pub fn queue_from(url: &str, a: &SqsAttributes) -> (r: SqsQueue)
    ensures
        is_queue_of(r, url@, *a),
{
    let name = text_after_last(url, '/');
    let n = name.unicode_len();
    proof {
        reveal_strlit(".fifo");
    }
    let fifo = n >= 5 && str_eq(name.as_str().substring_char(n - 5, n), ".fifo");
    let dead_letter_queue = match &a.redrive_policy {
        Some(p) => match member_text(p.as_str(), "deadLetterTargetArn") {
            Some(arn) => text_after_last(arn.as_str(), ':'),
            None => String::from_str("-"),
        },
        None => String::from_str("-"),
    };
    let redrive_allow_policy = match &a.redrive_allow_policy {
        Some(p) => match member_text(p.as_str(), "redrivePermission") {
            Some(perm) => perm,
            None => p.clone(),
        },
        None => String::from_str("-"),
    };
    SqsQueue {
        name,
        url: owned(url),
        queue_type: if fifo { String::from_str("FIFO") } else { String::from_str("Standard") },
        created_timestamp: owned_or_empty(&a.created_timestamp),
        messages_available: owned_or(&a.approximate_number_of_messages, "0"),
        messages_in_flight: owned_or(&a.approximate_number_of_messages_not_visible, "0"),
        encryption: if a.kms_master_key_id.is_some() { String::from_str("Enabled") } else { String::from_str("Disabled") },
        content_based_deduplication: match &a.content_based_deduplication {
            Some(v) => if str_eq(v.as_str(), "true") { String::from_str("Enabled") } else { String::from_str("Disabled") },
            None => String::from_str("Disabled"),
        },
        last_modified_timestamp: owned_or_empty(&a.last_modified_timestamp),
        visibility_timeout: owned_or_empty(&a.visibility_timeout),
        message_retention_period: owned_or_empty(&a.message_retention_period),
        maximum_message_size: match &a.maximum_message_size {
            Some(v) => {
                let mut t = v.clone();
                t.append(" bytes");
                t
            },
            None => String::new(),
        },
        delivery_delay: owned_or_empty(&a.delay_seconds),
        receive_message_wait_time: owned_or_empty(&a.receive_message_wait_time_seconds),
        high_throughput_fifo: match &a.fifo_throughput_limit {
            Some(v) => if str_eq(v.as_str(), "perMessageGroupId") { String::from_str("Disabled") } else { String::from_str("Enabled") },
            None => String::from_str("-"),
        },
        deduplication_scope: owned_or(&a.deduplication_scope, "-"),
        fifo_throughput_limit: owned_or(&a.fifo_throughput_limit, "-"),
        dead_letter_queue,
        messages_delayed: owned_or(&a.approximate_number_of_messages_delayed, "0"),
        redrive_allow_policy,
        redrive_policy: owned_or_empty(&a.redrive_policy),
    }
}

/// Queues in order of name.
pub open spec fn queues_by_name(s: Seq<SqsQueue>) -> bool {
    forall|i: int, j: int| 0 <= i < j < s.len() ==> !seq_lt(#[trigger] s[j].name@, #[trigger] s[i].name@)
}

/// The queues in order of name; queues of the same name keep their order
/// (the sort is stable). Queues are moved, never changed.
pub fn sort_queues(v: Vec<SqsQueue>) -> (r: Vec<SqsQueue>)
    ensures
        r@.to_multiset() == v@.to_multiset(),
        queues_by_name(r@),
        exists|perm: Seq<int>| #[trigger] stable_reorder(r@, v@, perm),
{
    let r = sort_by_text_key(v);
    assert forall|i: int, j: int| 0 <= i < j < r@.len() implies !seq_lt(#[trigger] r@[j].name@, #[trigger] r@[i].name@) by {
        assert(!seq_lt(r@[j].text_key(), r@[i].text_key()));
    }
    r
}

impl TextKey for SqsQueue {
    open spec fn text_key(&self) -> Seq<char> {
        self.name@
    }

    fn key_text(&self) -> (r: &str) {
        self.name.as_str()
    }
}

/// Records of this kind are ordered by their `name` field.
pub proof fn lemma_sqsqueue_ordered_by_name(r: SqsQueue)
    ensures
        r.text_key() == r.name@,
{
}

/// `u` holds the rows of the queues at `urls` with attributes `attrs`, one for
/// one and in order.
pub open spec fn queues_of(u: Seq<SqsQueue>, urls: Seq<String>, attrs: Seq<SqsAttributes>) -> bool {
    &&& u.len() == urls.len()
    &&& forall|i: int| 0 <= i < u.len() ==> is_queue_of(#[trigger] u[i], urls[i]@, attrs[i])
}

/// The rows of the queues at `urls`, whose attributes are `attrs`, in order of
/// name.
pub fn queues_from(urls: &Vec<String>, attrs: &Vec<SqsAttributes>) -> (r: Vec<SqsQueue>)
    requires
        urls@.len() == attrs@.len(),
    ensures
        queues_by_name(r@),
        exists|u: Seq<SqsQueue>| #[trigger] queues_of(u, urls@, attrs@) && r@.to_multiset() == u.to_multiset()
            && (exists|perm: Seq<int>| #[trigger] stable_reorder(r@, u, perm)),
{
    let mut queues: Vec<SqsQueue> = Vec::new();
    let mut i: usize = 0;
    while i < urls.len()
        invariant
            urls@.len() == attrs@.len(),
            i <= urls@.len(),
            queues@.len() == i,
            forall|k: int| 0 <= k < i ==> is_queue_of(#[trigger] queues@[k], urls@[k]@, attrs@[k]),
        decreases urls@.len() - i,
    {
        queues.push(queue_from(urls[i].as_str(), &attrs[i]));
        i = i + 1;
    }
    let ghost u = queues@;
    assert(queues_of(u, urls@, attrs@));
    sort_queues(queues)
}


/// The seconds of a time as decimal text, empty when there is none.
pub open spec fn secs_text(secs: Option<i64>) -> Seq<char> {
    match secs {
        Some(t) => crate::text::signed_decimal(t as int),
        None => Seq::empty(),
    }
}

fn secs_string(secs: Option<i64>) -> (r: String)
    ensures
        r@ == secs_text(secs),
{
    match secs {
        Some(t) => {
            let mut s = String::new();
            crate::text::push_signed_decimal(&mut s, t);
            assert(s@ =~= crate::text::signed_decimal(t as int));
            s
        },
        None => String::new(),
    }
}

/// An event source mapping of a queue as Lambda describes it: its state by
/// name, its modification time in seconds since the Unix epoch.
pub struct EventSourceMappingDescription {
    pub uuid: Option<String>,
    pub function_arn: Option<String>,
    pub state: Option<String>,
    pub last_modified_secs: Option<i64>,
}

/// The Lambda triggers of a queue, in Lambda's order: the state `Unknown`
/// when not given, the modification time as seconds in decimal.
pub fn triggers_from(descriptions: &Vec<EventSourceMappingDescription>) -> (r: Vec<LambdaTrigger>)
    ensures
        r@.len() == descriptions@.len(),
        forall|i: int| 0 <= i < r@.len() ==> {
            &&& #[trigger] r@[i].uuid@ == text_or(descriptions@[i].uuid, Seq::empty())
            &&& r@[i].arn@ == text_or(descriptions@[i].function_arn, Seq::empty())
            &&& r@[i].status@ == text_or(descriptions@[i].state, "Unknown"@)
            &&& r@[i].last_modified@ == secs_text(descriptions@[i].last_modified_secs)
        },
{
    let mut out: Vec<LambdaTrigger> = Vec::new();
    let mut i: usize = 0;
    proof {
        reveal_strlit("");
        reveal_strlit("Unknown");
    }
    assert(""@ =~= Seq::<char>::empty());
    while i < descriptions.len()
        invariant
            ""@ =~= Seq::<char>::empty(),
            i <= descriptions@.len(),
            out@.len() == i,
            forall|k: int| 0 <= k < i ==> {
                &&& #[trigger] out@[k].uuid@ == text_or(descriptions@[k].uuid, Seq::empty())
                &&& out@[k].arn@ == text_or(descriptions@[k].function_arn, Seq::empty())
                &&& out@[k].status@ == text_or(descriptions@[k].state, "Unknown"@)
                &&& out@[k].last_modified@ == secs_text(descriptions@[k].last_modified_secs)
            },
        decreases descriptions@.len() - i,
    {
        let d = &descriptions[i];
        out.push(LambdaTrigger {
            uuid: owned_or(&d.uuid, ""),
            arn: owned_or(&d.function_arn, ""),
            status: owned_or(&d.state, "Unknown"),
            last_modified: secs_string(d.last_modified_secs),
        });
        i = i + 1;
    }
    out
}

/// A pipe reading from a queue as EventBridge Pipes describes it: its state
/// by name, its modification time in seconds since the Unix epoch.
pub struct PipeDescription {
    pub name: Option<String>,
    pub current_state: Option<String>,
    pub target: Option<String>,
    pub last_modified_secs: Option<i64>,
}

/// The pipes reading from a queue, in EventBridge's order, the modification
/// time as seconds in decimal.
pub fn pipes_from(descriptions: &Vec<PipeDescription>) -> (r: Vec<EventBridgePipe>)
    ensures
        r@.len() == descriptions@.len(),
        forall|i: int| 0 <= i < r@.len() ==> {
            &&& #[trigger] r@[i].name@ == text_or(descriptions@[i].name, Seq::empty())
            &&& r@[i].status@ == text_or(descriptions@[i].current_state, Seq::empty())
            &&& r@[i].target@ == text_or(descriptions@[i].target, Seq::empty())
            &&& r@[i].last_modified@ == secs_text(descriptions@[i].last_modified_secs)
        },
{
    let mut out: Vec<EventBridgePipe> = Vec::new();
    let mut i: usize = 0;
    proof {
        reveal_strlit("");
    }
    assert(""@ =~= Seq::<char>::empty());
    while i < descriptions.len()
        invariant
            i <= descriptions@.len(),
            out@.len() == i,
            ""@ =~= Seq::<char>::empty(),
            forall|k: int| 0 <= k < i ==> {
                &&& #[trigger] out@[k].name@ == text_or(descriptions@[k].name, Seq::empty())
                &&& out@[k].status@ == text_or(descriptions@[k].current_state, Seq::empty())
                &&& out@[k].target@ == text_or(descriptions@[k].target, Seq::empty())
                &&& out@[k].last_modified@ == secs_text(descriptions@[k].last_modified_secs)
            },
        decreases descriptions@.len() - i,
    {
        let d = &descriptions[i];
        out.push(EventBridgePipe {
            name: owned_or(&d.name, ""),
            status: owned_or(&d.current_state, ""),
            target: owned_or(&d.target, ""),
            last_modified: secs_string(d.last_modified_secs),
        });
        i = i + 1;
    }
    out
}

} // verus!

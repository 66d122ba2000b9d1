//! CloudFormation: the records the console shows and the client that reads them.
use vstd::prelude::*;
use crate::cloud::config::AwsConfig;
use crate::sort::{seq_lt, stable_reorder, ascending_by_key, sort_by_text_key, TextKey};
use crate::text::str_eq;
use crate::timestamp::{format_time_or_epoch, time_or_epoch_text};

verus! {

/// A CloudFormation stack.
#[derive(Clone, Debug)]
pub struct Stack {
    pub name: String,
    pub stack_id: String,
    pub status: String,
    pub created_time: String,
    pub updated_time: String,
    pub deleted_time: String,
    pub drift_status: String,
    pub last_drift_check_time: String,
    pub status_reason: String,
    pub description: String,
    pub root_stack: String,
    pub parent_stack: String,
}

/// Details of one stack.
#[derive(Clone, Debug)]
pub struct StackDetails {
    pub detailed_status: String,
    pub root_stack: String,
    pub parent_stack: String,
    pub termination_protection: bool,
    pub iam_role: String,
    pub tags: Vec<(String, String)>,
    pub stack_policy: String,
    pub rollback_monitoring_time: String,
    pub rollback_alarms: Vec<String>,
    pub notification_arns: Vec<String>,
}

/// A parameter of a stack.
#[derive(Clone, Debug)]
pub struct StackParameter {
    pub key: String,
    pub value: String,
    pub resolved_value: String,
}

/// An output of a stack.
#[derive(Clone, Debug)]
pub struct StackOutput {
    pub key: String,
    pub value: String,
    pub description: String,
    pub export_name: String,
}

/// A resource of a stack.
#[derive(Clone, Debug)]
pub struct StackResource {
    pub logical_id: String,
    pub physical_id: String,
    pub resource_type: String,
    pub status: String,
    pub module_info: String,
}

/// An event of a stack.
#[derive(Clone, Debug)]
pub struct StackEvent {
    pub event_id: String,
    pub timestamp: String,
    pub logical_id: String,
    pub status: String,
    pub detailed_status: String,
    pub status_reason: String,
    pub hook_invocation_count: String,
    pub resource_type: String,
    pub physical_id: String,
    pub client_request_token: String,
    pub operation_id: String,
}

/// A change set of a stack.
#[derive(Clone, Debug)]
pub struct StackChangeSet {
    pub name: String,
    pub change_set_id: String,
    pub created_time: String,
    pub status: String,
    pub description: String,
    pub root_change_set_id: String,
    pub parent_change_set_id: String,
}

/// Client of CloudFormation for one session.
pub struct CloudFormationClient {
    config: AwsConfig,
}

impl CloudFormationClient {
    /// A client for the session `config`.
    pub fn new(config: AwsConfig) -> (r: Self)
        ensures
            r.session() == config,
    {
        CloudFormationClient { config }
    }

    /// The session of the client.
    pub closed spec fn session(&self) -> AwsConfig {
        self.config
    }

    /// The session of the client.
    pub fn config(&self) -> (r: &AwsConfig)
        ensures
            *r == self.session(),
    {
        &self.config
    }
}


/// A stack as CloudFormation lists it: its status by name, its times in
/// seconds since the Unix epoch.
pub struct StackSummaryDescription {
    pub stack_name: Option<String>,
    pub stack_id: Option<String>,
    pub stack_status: Option<String>,
    pub creation_secs: Option<i64>,
    pub last_updated_secs: Option<i64>,
    pub deletion_secs: Option<i64>,
    pub drift_status: Option<String>,
    pub last_drift_check_secs: Option<i64>,
    pub status_reason: Option<String>,
    pub template_description: Option<String>,
    pub root_id: Option<String>,
    pub parent_id: Option<String>,
}

/// The text of an optional string: empty when absent.
pub open spec fn or_empty(o: Option<String>) -> Seq<char> {
    match o {
        Some(s) => s@,
        None => Seq::empty(),
    }
}

fn or_empty_of(o: &Option<String>) -> (r: String)
    ensures
        r@ == or_empty(*o),
{
    match o {
        Some(s) => s.clone(),
        None => String::new(),
    }
}

/// Whether the list shows a stack: nested stacks (whose root is another
/// stack) only when asked for.
pub open spec fn stack_listed(d: StackSummaryDescription, include_nested: bool) -> bool {
    include_nested || match d.root_id {
        Some(r) => r@ == or_empty(d.stack_id),
        None => true,
    }
}

/// `r` is the row of the stack CloudFormation lists as `d`.
pub open spec fn is_stack_row_of(r: Stack, d: StackSummaryDescription) -> bool {
    &&& r.name@ == or_empty(d.stack_name)
    &&& r.stack_id@ == or_empty(d.stack_id)
    &&& r.status@ == or_empty(d.stack_status)
    &&& r.created_time@ == time_or_epoch_text(d.creation_secs)
    &&& r.updated_time@ == time_or_epoch_text(d.last_updated_secs)
    &&& r.deleted_time@ == time_or_epoch_text(d.deletion_secs)
    &&& r.drift_status@ == or_empty(d.drift_status)
    &&& r.last_drift_check_time@ == time_or_epoch_text(d.last_drift_check_secs)
    &&& r.status_reason@ == or_empty(d.status_reason)
    &&& r.description@ == or_empty(d.template_description)
    &&& r.root_stack@ == or_empty(d.root_id)
    &&& r.parent_stack@ == or_empty(d.parent_id)
}

/// Each of these columns comes from its own field of the description,
/// whatever the other fields hold: two descriptions that agree on the field
/// give rows that agree on the column.
pub proof fn lemma_stack_row_of_own_fields(r1: Stack, d1: StackSummaryDescription, r2: Stack, d2: StackSummaryDescription)
    requires
        is_stack_row_of(r1, d1),
        is_stack_row_of(r2, d2),
    ensures
        d1.stack_name == d2.stack_name ==> r1.name@ == r2.name@,
        d1.stack_id == d2.stack_id ==> r1.stack_id@ == r2.stack_id@,
        d1.stack_status == d2.stack_status ==> r1.status@ == r2.status@,
        d1.creation_secs == d2.creation_secs ==> r1.created_time@ == r2.created_time@,
        d1.last_updated_secs == d2.last_updated_secs ==> r1.updated_time@ == r2.updated_time@,
        d1.deletion_secs == d2.deletion_secs ==> r1.deleted_time@ == r2.deleted_time@,
        d1.drift_status == d2.drift_status ==> r1.drift_status@ == r2.drift_status@,
        d1.last_drift_check_secs == d2.last_drift_check_secs ==> r1.last_drift_check_time@ == r2.last_drift_check_time@,
        d1.status_reason == d2.status_reason ==> r1.status_reason@ == r2.status_reason@,
        d1.template_description == d2.template_description ==> r1.description@ == r2.description@,
        d1.root_id == d2.root_id ==> r1.root_stack@ == r2.root_stack@,
        d1.parent_id == d2.parent_id ==> r1.parent_stack@ == r2.parent_stack@,
{
}

/// The row of a stack, from CloudFormation's summary of it.
pub fn stack_from(d: &StackSummaryDescription) -> (r: Stack)
    ensures
        is_stack_row_of(r, *d),
{
    Stack {
        name: or_empty_of(&d.stack_name),
        stack_id: or_empty_of(&d.stack_id),
        status: or_empty_of(&d.stack_status),
        created_time: format_time_or_epoch(d.creation_secs),
        updated_time: format_time_or_epoch(d.last_updated_secs),
        deleted_time: format_time_or_epoch(d.deletion_secs),
        drift_status: or_empty_of(&d.drift_status),
        last_drift_check_time: format_time_or_epoch(d.last_drift_check_secs),
        status_reason: or_empty_of(&d.status_reason),
        description: or_empty_of(&d.template_description),
        root_stack: or_empty_of(&d.root_id),
        parent_stack: or_empty_of(&d.parent_id),
    }
}

/// The descriptions of `ds` that the list shows, in order.
pub open spec fn listed(ds: Seq<StackSummaryDescription>, include_nested: bool) -> Seq<StackSummaryDescription>
    decreases ds.len(),
{
    if ds.len() == 0 {
        Seq::empty()
    } else if stack_listed(ds.last(), include_nested) {
        listed(ds.drop_last(), include_nested).push(ds.last())
    } else {
        listed(ds.drop_last(), include_nested)
    }
}

/// The rows of the stacks CloudFormation lists, in its order, without the
/// nested stacks unless `include_nested`.
pub fn stacks_from(descriptions: &Vec<StackSummaryDescription>, include_nested: bool) -> (r: Vec<Stack>)
    ensures
        r@.len() == listed(descriptions@, include_nested).len(),
        forall|i: int| 0 <= i < r@.len() ==> is_stack_row_of(#[trigger] r@[i], listed(descriptions@, include_nested)[i]),
{
    let mut out: Vec<Stack> = Vec::new();
    let mut i: usize = 0;
    assert(descriptions@.take(0) =~= Seq::<StackSummaryDescription>::empty());
    while i < descriptions.len()
        invariant
            i <= descriptions@.len(),
            out@.len() == listed(descriptions@.take(i as int), include_nested).len(),
            forall|k: int| 0 <= k < out@.len() ==> is_stack_row_of(#[trigger] out@[k], listed(descriptions@.take(i as int), include_nested)[k]),
        decreases descriptions@.len() - i,
    {
        let d = &descriptions[i];
        assert(descriptions@.take(i + 1).drop_last() =~= descriptions@.take(i as int));
        assert(descriptions@.take(i + 1).last() == *d);
        let shown = include_nested || match &d.root_id {
            Some(r) => match &d.stack_id {
                Some(id) => str_eq(r.as_str(), id.as_str()),
                None => r.as_str().unicode_len() == 0,
            },
            None => true,
        };
        proof {
            if d.root_id is Some && d.stack_id is None {
                let r = d.root_id.unwrap();
                assert(r@.len() == 0 ==> r@ =~= Seq::<char>::empty());
            }
        }
        assert(shown == stack_listed(*d, include_nested));
        let ghost prev = listed(descriptions@.take(i as int), include_nested);
        assert(listed(descriptions@.take(i + 1), include_nested) == if shown { prev.push(*d) } else { prev });
        if shown {
            out.push(stack_from(d));
        }
        i = i + 1;
    }
    assert(descriptions@.take(i as int) =~= descriptions@);
    out
}

/// A stack as CloudFormation describes it in detail.
pub struct StackDescription {
    pub root_id: Option<String>,
    pub parent_id: Option<String>,
    pub termination_protection: Option<bool>,
    pub role_arn: Option<String>,
    pub tags: Vec<(Option<String>, Option<String>)>,
    pub rollback_trigger_arns: Option<Vec<Option<String>>>,
    pub notification_arns: Vec<String>,
}

/// Both texts of a pair, each empty when absent.
pub open spec fn pair_texts(p: (Option<String>, Option<String>)) -> (Seq<char>, Seq<char>) {
    (or_empty(p.0), or_empty(p.1))
}

/// `r` is the detail of the stack CloudFormation describes as `d`: tags and
/// rollback triggers with absent texts left empty, no rollback triggers when
/// there is no rollback configuration.
pub open spec fn is_details_of(r: StackDetails, d: StackDescription) -> bool {
    &&& r.detailed_status@.len() == 0
    &&& r.root_stack@ == or_empty(d.root_id)
    &&& r.parent_stack@ == or_empty(d.parent_id)
    &&& r.termination_protection == (match d.termination_protection { Some(b) => b, None => false })
    &&& r.iam_role@ == or_empty(d.role_arn)
    &&& r.tags@.len() == d.tags@.len()
    &&& forall|i: int| 0 <= i < r.tags@.len() ==> (#[trigger] r.tags@[i].0@, r.tags@[i].1@) == pair_texts(d.tags@[i])
    &&& r.stack_policy@.len() == 0
    &&& r.rollback_monitoring_time@.len() == 0
    &&& match d.rollback_trigger_arns {
        Some(v) => r.rollback_alarms@.len() == v@.len()
            && forall|i: int| 0 <= i < v@.len() ==> #[trigger] r.rollback_alarms@[i]@ == or_empty(v@[i]),
        None => r.rollback_alarms@.len() == 0,
    }
    &&& r.notification_arns@.len() == d.notification_arns@.len()
    &&& forall|i: int| 0 <= i < r.notification_arns@.len() ==> #[trigger] r.notification_arns@[i]@ == d.notification_arns@[i]@
}

/// Each of these columns comes from its own field of the description,
/// whatever the other fields hold: two descriptions that agree on the field
/// give rows that agree on the column.
pub proof fn lemma_details_of_own_fields(r1: StackDetails, d1: StackDescription, r2: StackDetails, d2: StackDescription)
    requires
        is_details_of(r1, d1),
        is_details_of(r2, d2),
    ensures
        d1.root_id == d2.root_id ==> r1.root_stack@ == r2.root_stack@,
        d1.parent_id == d2.parent_id ==> r1.parent_stack@ == r2.parent_stack@,
        d1.role_arn == d2.role_arn ==> r1.iam_role@ == r2.iam_role@,
{
}

fn texts_of(v: &Vec<Option<String>>) -> (r: Vec<String>)
    ensures
        r@.len() == v@.len(),
        forall|i: int| 0 <= i < v@.len() ==> #[trigger] r@[i]@ == or_empty(v@[i]),
{
    let mut out: Vec<String> = Vec::new();
    let mut i: usize = 0;
    while i < v.len()
        invariant
            i <= v@.len(),
            out@.len() == i,
            forall|k: int| 0 <= k < i ==> #[trigger] out@[k]@ == or_empty(v@[k]),
        decreases v@.len() - i,
    {
        out.push(or_empty_of(&v[i]));
        i = i + 1;
    }
    out
}

/// The detail of a stack, from CloudFormation's description of it.
pub fn details_from(d: &StackDescription) -> (r: StackDetails)
    ensures
        is_details_of(r, *d),
{
    let mut tags: Vec<(String, String)> = Vec::new();
    let mut i: usize = 0;
    while i < d.tags.len()
        invariant
            i <= d.tags@.len(),
            tags@.len() == i,
            forall|k: int| 0 <= k < i ==> (#[trigger] tags@[k].0@, tags@[k].1@) == pair_texts(d.tags@[k]),
        decreases d.tags@.len() - i,
    {
        let pair = (or_empty_of(&d.tags[i].0), or_empty_of(&d.tags[i].1));
        let ghost before = tags@;
        tags.push(pair);
        assert(tags@[i as int] == pair);
        assert((pair.0@, pair.1@) == pair_texts(d.tags@[i as int]));
        assert forall|k: int| 0 <= k < i + 1 implies (#[trigger] tags@[k].0@, tags@[k].1@) == pair_texts(d.tags@[k]) by {
            if k < i {
                assert(tags@[k] == before[k]);
            }
        }
        i = i + 1;
    }
    let mut notification_arns: Vec<String> = Vec::new();
    let mut j: usize = 0;
    while j < d.notification_arns.len()
        invariant
            j <= d.notification_arns@.len(),
            notification_arns@.len() == j,
            forall|k: int| 0 <= k < j ==> #[trigger] notification_arns@[k]@ == d.notification_arns@[k]@,
        decreases d.notification_arns@.len() - j,
    {
        notification_arns.push(d.notification_arns[j].clone());
        j = j + 1;
    }
    StackDetails {
        detailed_status: String::new(),
        root_stack: or_empty_of(&d.root_id),
        parent_stack: or_empty_of(&d.parent_id),
        termination_protection: match d.termination_protection {
            Some(b) => b,
            None => false,
        },
        iam_role: or_empty_of(&d.role_arn),
        tags,
        stack_policy: String::new(),
        rollback_monitoring_time: String::new(),
        rollback_alarms: match &d.rollback_trigger_arns {
            Some(v) => texts_of(v),
            None => Vec::new(),
        },
        notification_arns,
    }
}

impl TextKey for StackOutput {
    open spec fn text_key(&self) -> Seq<char> {
        self.key@
    }

    fn key_text(&self) -> (r: &str) {
        self.key.as_str()
    }
}

/// Records of this kind are ordered by their `key` field.
pub proof fn lemma_stackoutput_ordered_by_key(r: StackOutput)
    ensures
        r.text_key() == r.key@,
{
}

impl TextKey for StackResource {
    open spec fn text_key(&self) -> Seq<char> {
        self.logical_id@
    }

    fn key_text(&self) -> (r: &str) {
        self.logical_id.as_str()
    }
}

/// Records of this kind are ordered by their `logical_id` field.
pub proof fn lemma_stackresource_ordered_by_logical_id(r: StackResource)
    ensures
        r.text_key() == r.logical_id@,
{
}

/// An output of a stack as CloudFormation describes it.
pub struct StackOutputDescription {
    pub output_key: Option<String>,
    pub output_value: Option<String>,
    pub description: Option<String>,
    pub export_name: Option<String>,
}

/// `u` holds the rows of `descriptions`, one for one and in order.
pub open spec fn output_rows_of(u: Seq<StackOutput>, descriptions: Seq<StackOutputDescription>) -> bool {
    &&& u.len() == descriptions.len()
    &&& forall|i: int| 0 <= i < u.len() ==> is_output_row_of(#[trigger] u[i], descriptions[i])
}

/// `r` is the row of the output described as `d`.
pub open spec fn is_output_row_of(r: StackOutput, d: StackOutputDescription) -> bool {
    &&& r.key@ == or_empty(d.output_key)
    &&& r.value@ == or_empty(d.output_value)
    &&& r.description@ == or_empty(d.description)
    &&& r.export_name@ == or_empty(d.export_name)
}

/// Each of these columns comes from its own field of the description,
/// whatever the other fields hold: two descriptions that agree on the field
/// give rows that agree on the column.
pub proof fn lemma_output_row_of_own_fields(r1: StackOutput, d1: StackOutputDescription, r2: StackOutput, d2: StackOutputDescription)
    requires
        is_output_row_of(r1, d1),
        is_output_row_of(r2, d2),
    ensures
        d1.output_key == d2.output_key ==> r1.key@ == r2.key@,
        d1.output_value == d2.output_value ==> r1.value@ == r2.value@,
        d1.description == d2.description ==> r1.description@ == r2.description@,
        d1.export_name == d2.export_name ==> r1.export_name@ == r2.export_name@,
{
}

/// The outputs of a stack, ordered by key; outputs of the same key keep
/// their order.
pub fn outputs_from(descriptions: &Vec<StackOutputDescription>) -> (r: Vec<StackOutput>)
    ensures
        r@.len() == descriptions@.len(),
        ascending_by_key(r@),
        forall|a: int, b: int| 0 <= a < b < r@.len() ==> !seq_lt(#[trigger] r@[b].key@, #[trigger] r@[a].key@),
        exists|u: Seq<StackOutput>| #[trigger] output_rows_of(u, descriptions@) && r@.to_multiset() == u.to_multiset()
            && (exists|perm: Seq<int>| #[trigger] stable_reorder(r@, u, perm)),
{
    broadcast use vstd::seq_lib::group_to_multiset_ensures;
    let mut rows: Vec<StackOutput> = Vec::new();
    let mut i: usize = 0;
    while i < descriptions.len()
        invariant
            i <= descriptions@.len(),
            rows@.len() == i,
            forall|k: int| 0 <= k < i ==> is_output_row_of(#[trigger] rows@[k], descriptions@[k]),
        decreases descriptions@.len() - i,
    {
        let d = &descriptions[i];
        rows.push(StackOutput {
            key: or_empty_of(&d.output_key),
            value: or_empty_of(&d.output_value),
            description: or_empty_of(&d.description),
            export_name: or_empty_of(&d.export_name),
        });
        i = i + 1;
    }
    let ghost u = rows@;
    assert(output_rows_of(u, descriptions@));
    let r = sort_by_text_key(rows);
    assert(r@.len() == u.len()) by {
        assert(r@.to_multiset().len() == u.to_multiset().len());
    }
    assert forall|a: int, b: int| 0 <= a < b < r@.len() implies !seq_lt(#[trigger] r@[b].key@, #[trigger] r@[a].key@) by {
        assert(!seq_lt(r@[b].text_key(), r@[a].text_key()));
    }
    r
}

/// A resource of a stack as CloudFormation describes it: its status by name.
pub struct StackResourceDescription {
    pub logical_resource_id: Option<String>,
    pub physical_resource_id: Option<String>,
    pub resource_type: Option<String>,
    pub resource_status: Option<String>,
    pub logical_id_hierarchy: Option<String>,
}

/// `u` holds the rows of `descriptions`, one for one and in order.
pub open spec fn resource_rows_of(u: Seq<StackResource>, descriptions: Seq<StackResourceDescription>) -> bool {
    &&& u.len() == descriptions.len()
    &&& forall|i: int| 0 <= i < u.len() ==> is_resource_row_of(#[trigger] u[i], descriptions[i])
}

/// `r` is the row of the resource described as `d`.
pub open spec fn is_resource_row_of(r: StackResource, d: StackResourceDescription) -> bool {
    &&& r.logical_id@ == or_empty(d.logical_resource_id)
    &&& r.physical_id@ == or_empty(d.physical_resource_id)
    &&& r.resource_type@ == or_empty(d.resource_type)
    &&& r.status@ == or_empty(d.resource_status)
    &&& r.module_info@ == or_empty(d.logical_id_hierarchy)
}

/// Each of these columns comes from its own field of the description,
/// whatever the other fields hold: two descriptions that agree on the field
/// give rows that agree on the column.
pub proof fn lemma_resource_row_of_own_fields(r1: StackResource, d1: StackResourceDescription, r2: StackResource, d2: StackResourceDescription)
    requires
        is_resource_row_of(r1, d1),
        is_resource_row_of(r2, d2),
    ensures
        d1.logical_resource_id == d2.logical_resource_id ==> r1.logical_id@ == r2.logical_id@,
        d1.physical_resource_id == d2.physical_resource_id ==> r1.physical_id@ == r2.physical_id@,
        d1.resource_type == d2.resource_type ==> r1.resource_type@ == r2.resource_type@,
        d1.resource_status == d2.resource_status ==> r1.status@ == r2.status@,
        d1.logical_id_hierarchy == d2.logical_id_hierarchy ==> r1.module_info@ == r2.module_info@,
{
}

/// The resources of a stack, ordered by logical id; resources of the same id
/// keep their order.
pub fn resources_from(descriptions: &Vec<StackResourceDescription>) -> (r: Vec<StackResource>)
    ensures
        r@.len() == descriptions@.len(),
        ascending_by_key(r@),
        forall|a: int, b: int| 0 <= a < b < r@.len() ==> !seq_lt(#[trigger] r@[b].logical_id@, #[trigger] r@[a].logical_id@),
        exists|u: Seq<StackResource>| #[trigger] resource_rows_of(u, descriptions@) && r@.to_multiset() == u.to_multiset()
            && (exists|perm: Seq<int>| #[trigger] stable_reorder(r@, u, perm)),
{
    broadcast use vstd::seq_lib::group_to_multiset_ensures;
    let mut rows: Vec<StackResource> = Vec::new();
    let mut i: usize = 0;
    while i < descriptions.len()
        invariant
            i <= descriptions@.len(),
            rows@.len() == i,
            forall|k: int| 0 <= k < i ==> is_resource_row_of(#[trigger] rows@[k], descriptions@[k]),
        decreases descriptions@.len() - i,
    {
        let d = &descriptions[i];
        rows.push(StackResource {
            logical_id: or_empty_of(&d.logical_resource_id),
            physical_id: or_empty_of(&d.physical_resource_id),
            resource_type: or_empty_of(&d.resource_type),
            status: or_empty_of(&d.resource_status),
            module_info: or_empty_of(&d.logical_id_hierarchy),
        });
        i = i + 1;
    }
    let ghost u = rows@;
    assert(resource_rows_of(u, descriptions@));
    let r = sort_by_text_key(rows);
    assert(r@.len() == u.len()) by {
        assert(r@.to_multiset().len() == u.to_multiset().len());
    }
    assert forall|a: int, b: int| 0 <= a < b < r@.len() implies !seq_lt(#[trigger] r@[b].logical_id@, #[trigger] r@[a].logical_id@) by {
        assert(!seq_lt(r@[b].text_key(), r@[a].text_key()));
    }
    r
}

/// A parameter of a stack as CloudFormation describes it.
pub struct StackParameterDescription {
    pub parameter_key: Option<String>,
    pub parameter_value: Option<String>,
    pub resolved_value: Option<String>,
}

/// The parameters of a stack, in the order CloudFormation gives them.
pub fn parameters_from(descriptions: &Vec<StackParameterDescription>) -> (r: Vec<StackParameter>)
    ensures
        r@.len() == descriptions@.len(),
        forall|i: int| 0 <= i < r@.len() ==> {
            &&& #[trigger] r@[i].key@ == or_empty(descriptions@[i].parameter_key)
            &&& r@[i].value@ == or_empty(descriptions@[i].parameter_value)
            &&& r@[i].resolved_value@ == or_empty(descriptions@[i].resolved_value)
        },
{
    let mut out: Vec<StackParameter> = Vec::new();
    let mut i: usize = 0;
    while i < descriptions.len()
        invariant
            i <= descriptions@.len(),
            out@.len() == i,
            forall|k: int| 0 <= k < i ==> {
                &&& #[trigger] out@[k].key@ == or_empty(descriptions@[k].parameter_key)
                &&& out@[k].value@ == or_empty(descriptions@[k].parameter_value)
                &&& out@[k].resolved_value@ == or_empty(descriptions@[k].resolved_value)
            },
        decreases descriptions@.len() - i,
    {
        let d = &descriptions[i];
        out.push(StackParameter {
            key: or_empty_of(&d.parameter_key),
            value: or_empty_of(&d.parameter_value),
            resolved_value: or_empty_of(&d.resolved_value),
        });
        i = i + 1;
    }
    out
}


/// An event of a stack as CloudFormation describes it: its status by name,
/// its time written out as a date and time.
pub struct StackEventDescription {
    pub event_id: Option<String>,
    pub timestamp: Option<String>,
    pub logical_resource_id: Option<String>,
    pub resource_status: Option<String>,
    pub resource_status_reason: Option<String>,
    pub resource_type: Option<String>,
    pub physical_resource_id: Option<String>,
    pub client_request_token: Option<String>,
}

/// `r` is the row of the event described as `d`: the detailed status, hook
/// invocation count and operation id stay empty.
pub open spec fn is_event_row_of(r: StackEvent, d: StackEventDescription) -> bool {
    &&& r.event_id@ == or_empty(d.event_id)
    &&& r.timestamp@ == or_empty(d.timestamp)
    &&& r.logical_id@ == or_empty(d.logical_resource_id)
    &&& r.status@ == or_empty(d.resource_status)
    &&& r.detailed_status@.len() == 0
    &&& r.status_reason@ == or_empty(d.resource_status_reason)
    &&& r.hook_invocation_count@.len() == 0
    &&& r.resource_type@ == or_empty(d.resource_type)
    &&& r.physical_id@ == or_empty(d.physical_resource_id)
    &&& r.client_request_token@ == or_empty(d.client_request_token)
    &&& r.operation_id@.len() == 0
}

/// Each of these columns comes from its own field of the description,
/// whatever the other fields hold: two descriptions that agree on the field
/// give rows that agree on the column.
pub proof fn lemma_event_row_of_own_fields(r1: StackEvent, d1: StackEventDescription, r2: StackEvent, d2: StackEventDescription)
    requires
        is_event_row_of(r1, d1),
        is_event_row_of(r2, d2),
    ensures
        d1.event_id == d2.event_id ==> r1.event_id@ == r2.event_id@,
        d1.timestamp == d2.timestamp ==> r1.timestamp@ == r2.timestamp@,
        d1.logical_resource_id == d2.logical_resource_id ==> r1.logical_id@ == r2.logical_id@,
        d1.resource_status == d2.resource_status ==> r1.status@ == r2.status@,
        d1.resource_status_reason == d2.resource_status_reason ==> r1.status_reason@ == r2.status_reason@,
        d1.resource_type == d2.resource_type ==> r1.resource_type@ == r2.resource_type@,
        d1.physical_resource_id == d2.physical_resource_id ==> r1.physical_id@ == r2.physical_id@,
        d1.client_request_token == d2.client_request_token ==> r1.client_request_token@ == r2.client_request_token@,
{
}

/// The events of a stack, in CloudFormation's order (newest first).
pub fn events_from(descriptions: &Vec<StackEventDescription>) -> (r: Vec<StackEvent>)
    ensures
        r@.len() == descriptions@.len(),
        forall|i: int| 0 <= i < r@.len() ==> is_event_row_of(#[trigger] r@[i], descriptions@[i]),
{
    let mut out: Vec<StackEvent> = Vec::new();
    let mut i: usize = 0;
    while i < descriptions.len()
        invariant
            i <= descriptions@.len(),
            out@.len() == i,
            forall|k: int| 0 <= k < i ==> is_event_row_of(#[trigger] out@[k], descriptions@[k]),
        decreases descriptions@.len() - i,
    {
        let d = &descriptions[i];
        out.push(StackEvent {
            event_id: or_empty_of(&d.event_id),
            timestamp: or_empty_of(&d.timestamp),
            logical_id: or_empty_of(&d.logical_resource_id),
            status: or_empty_of(&d.resource_status),
            detailed_status: String::new(),
            status_reason: or_empty_of(&d.resource_status_reason),
            hook_invocation_count: String::new(),
            resource_type: or_empty_of(&d.resource_type),
            physical_id: or_empty_of(&d.physical_resource_id),
            client_request_token: or_empty_of(&d.client_request_token),
            operation_id: String::new(),
        });
        i = i + 1;
    }
    out
}

/// A change set of a stack as CloudFormation summarizes it: its status by
/// name, its creation time written out as a date and time.
pub struct ChangeSetDescription {
    pub change_set_name: Option<String>,
    pub change_set_id: Option<String>,
    pub creation_time: Option<String>,
    pub status: Option<String>,
    pub description: Option<String>,
    pub root_change_set_id: Option<String>,
    pub parent_change_set_id: Option<String>,
}

/// `r` is the row of the change set described as `d`.
pub open spec fn is_change_set_row_of(r: StackChangeSet, d: ChangeSetDescription) -> bool {
    &&& r.name@ == or_empty(d.change_set_name)
    &&& r.change_set_id@ == or_empty(d.change_set_id)
    &&& r.created_time@ == or_empty(d.creation_time)
    &&& r.status@ == or_empty(d.status)
    &&& r.description@ == or_empty(d.description)
    &&& r.root_change_set_id@ == or_empty(d.root_change_set_id)
    &&& r.parent_change_set_id@ == or_empty(d.parent_change_set_id)
}

/// Each of these columns comes from its own field of the description,
/// whatever the other fields hold: two descriptions that agree on the field
/// give rows that agree on the column.
pub proof fn lemma_change_set_row_of_own_fields(r1: StackChangeSet, d1: ChangeSetDescription, r2: StackChangeSet, d2: ChangeSetDescription)
    requires
        is_change_set_row_of(r1, d1),
        is_change_set_row_of(r2, d2),
    ensures
        d1.change_set_name == d2.change_set_name ==> r1.name@ == r2.name@,
        d1.change_set_id == d2.change_set_id ==> r1.change_set_id@ == r2.change_set_id@,
        d1.creation_time == d2.creation_time ==> r1.created_time@ == r2.created_time@,
        d1.status == d2.status ==> r1.status@ == r2.status@,
        d1.description == d2.description ==> r1.description@ == r2.description@,
        d1.root_change_set_id == d2.root_change_set_id ==> r1.root_change_set_id@ == r2.root_change_set_id@,
        d1.parent_change_set_id == d2.parent_change_set_id ==> r1.parent_change_set_id@ == r2.parent_change_set_id@,
{
}

/// The change sets of a stack, in CloudFormation's order.
pub fn change_sets_from(descriptions: &Vec<ChangeSetDescription>) -> (r: Vec<StackChangeSet>)
    ensures
        r@.len() == descriptions@.len(),
        forall|i: int| 0 <= i < r@.len() ==> is_change_set_row_of(#[trigger] r@[i], descriptions@[i]),
{
    let mut out: Vec<StackChangeSet> = Vec::new();
    let mut i: usize = 0;
    while i < descriptions.len()
        invariant
            i <= descriptions@.len(),
            out@.len() == i,
            forall|k: int| 0 <= k < i ==> is_change_set_row_of(#[trigger] out@[k], descriptions@[k]),
        decreases descriptions@.len() - i,
    {
        let d = &descriptions[i];
        out.push(StackChangeSet {
            name: or_empty_of(&d.change_set_name),
            change_set_id: or_empty_of(&d.change_set_id),
            created_time: or_empty_of(&d.creation_time),
            status: or_empty_of(&d.status),
            description: or_empty_of(&d.description),
            root_change_set_id: or_empty_of(&d.root_change_set_id),
            parent_change_set_id: or_empty_of(&d.parent_change_set_id),
        });
        i = i + 1;
    }
    out
}

} // verus!

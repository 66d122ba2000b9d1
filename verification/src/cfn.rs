//! CloudFormation stacks view: the stack record, its columns, its status
//! labels, the status filter, the detail tabs and the console addresses.
use vstd::prelude::*;
use vstd::string::*;
use crate::cloud::cfn::{StackChangeSet, StackEvent, StackOutput, StackParameter, StackResource};
use crate::common::{
    first_value, lookup, translated_label, with_defaults, ColumnId, InputFocus, SortDirection, Translations,
};
use crate::table::{kept_indices, TableState};
use crate::text::{contains_seq, filter_keeps, filter_matches, starts_with_seq, str_contains, str_eq, str_starts_with};
use crate::url::{encode, url_encoded};

pub mod actions;

use crate::common::{cyclic_next, cyclic_prev, lemma_cyclic_law, CyclicEnum};

verus! {

/// A stack as the console lists it.
#[derive(Clone, Debug)]
pub struct Stack {
    pub name: String,
    pub stack_id: String,
    pub status: String,
    pub created_time: String,
    pub updated_time: String,
    pub deleted_time: String,
    pub drift_status: String,
    pub last_drift_check_time: String,
    pub status_reason: String,
    pub description: String,
    pub detailed_status: String,
    pub root_stack: String,
    pub parent_stack: String,
    pub termination_protection: bool,
    pub iam_role: String,
    pub tags: Vec<(String, String)>,
    pub stack_policy: String,
    pub rollback_monitoring_time: String,
    pub rollback_alarms: Vec<String>,
    pub notification_arns: Vec<String>,
}

/// Gives every stack column key its default label, unless it already has a translation.
pub fn init(tr: &mut Translations)
    ensures
        forall|k: Seq<char>| #[trigger] lookup(final(tr).entries@, k) == with_defaults(
            lookup(old(tr).entries@, k), Column::default_pairs().0, Column::default_pairs().1, k),
{
    let keys: Vec<ColumnId> = vec!["column.cfn.stack.name", "column.cfn.stack.stack_id", "column.cfn.stack.status", "column.cfn.stack.created_time", "column.cfn.stack.updated_time", "column.cfn.stack.deleted_time", "column.cfn.stack.drift_status", "column.cfn.stack.last_drift_check_time", "column.cfn.stack.status_reason", "column.cfn.stack.description"];
    let labels: Vec<&'static str> = vec!["Stack Name", "Stack ID", "Status", "Created Time", "Updated Time", "Deleted Time", "Drift Status", "Last Drift Check Time", "Status Reason", "Description"];
    assert(keys@.map_values(|s: &str| s@) =~= Column::default_pairs().0);
    assert(labels@.map_values(|s: &str| s@) =~= Column::default_pairs().1);
    tr.set_defaults(&keys, &labels);
}

/// A column of the stack table.
#[derive(Clone, Copy, Debug, PartialEq, Eq, Structural)]
pub enum Column {
    Name,
    StackId,
    Status,
    CreatedTime,
    UpdatedTime,
    DeletedTime,
    DriftStatus,
    LastDriftCheckTime,
    StatusReason,
    Description,
}

impl Column {
    /// The translation key of the column.
    pub open spec fn key(self) -> Seq<char> {
        match self {
            Column::Name => "column.cfn.stack.name"@,
            Column::StackId => "column.cfn.stack.stack_id"@,
            Column::Status => "column.cfn.stack.status"@,
            Column::CreatedTime => "column.cfn.stack.created_time"@,
            Column::UpdatedTime => "column.cfn.stack.updated_time"@,
            Column::DeletedTime => "column.cfn.stack.deleted_time"@,
            Column::DriftStatus => "column.cfn.stack.drift_status"@,
            Column::LastDriftCheckTime => "column.cfn.stack.last_drift_check_time"@,
            Column::StatusReason => "column.cfn.stack.status_reason"@,
            Column::Description => "column.cfn.stack.description"@,
        }
    }

    /// The label of the column when no translation replaces it.
    pub open spec fn default_label(self) -> Seq<char> {
        match self {
            Column::Name => "Stack Name"@,
            Column::StackId => "Stack ID"@,
            Column::Status => "Status"@,
            Column::CreatedTime => "Created Time"@,
            Column::UpdatedTime => "Updated Time"@,
            Column::DeletedTime => "Deleted Time"@,
            Column::DriftStatus => "Drift Status"@,
            Column::LastDriftCheckTime => "Last Drift Check Time"@,
            Column::StatusReason => "Status Reason"@,
            Column::Description => "Description"@,
        }
    }

    /// The column whose key is `id`, if any.
    pub open spec fn with_key(id: Seq<char>) -> Option<Self> {
        if id == "column.cfn.stack.name"@ {
            Some(Column::Name)
        } else if id == "column.cfn.stack.stack_id"@ {
            Some(Column::StackId)
        } else if id == "column.cfn.stack.status"@ {
            Some(Column::Status)
        } else if id == "column.cfn.stack.created_time"@ {
            Some(Column::CreatedTime)
        } else if id == "column.cfn.stack.updated_time"@ {
            Some(Column::UpdatedTime)
        } else if id == "column.cfn.stack.deleted_time"@ {
            Some(Column::DeletedTime)
        } else if id == "column.cfn.stack.drift_status"@ {
            Some(Column::DriftStatus)
        } else if id == "column.cfn.stack.last_drift_check_time"@ {
            Some(Column::LastDriftCheckTime)
        } else if id == "column.cfn.stack.status_reason"@ {
            Some(Column::StatusReason)
        } else if id == "column.cfn.stack.description"@ {
            Some(Column::Description)
        } else {
            None
        }
    }

    /// Reading a column back from its key gives the column: no two columns
    /// share a key.
    pub proof fn lemma_key_roundtrip(c: Self)
        ensures
            Self::with_key(c.key()) == Some(c),
    {
        reveal_strlit("column.cfn.stack.name");
        reveal_strlit("column.cfn.stack.stack_id");
        reveal_strlit("column.cfn.stack.status");
        reveal_strlit("column.cfn.stack.created_time");
        reveal_strlit("column.cfn.stack.updated_time");
        reveal_strlit("column.cfn.stack.deleted_time");
        reveal_strlit("column.cfn.stack.drift_status");
        reveal_strlit("column.cfn.stack.last_drift_check_time");
        reveal_strlit("column.cfn.stack.status_reason");
        reveal_strlit("column.cfn.stack.description");
        assert("column.cfn.stack.name"@.len() == 21);
        assert("column.cfn.stack.stack_id"@.len() == 25);
        assert("column.cfn.stack.status"@.len() == 23);
        assert("column.cfn.stack.created_time"@.len() == 29);
        assert("column.cfn.stack.updated_time"@.len() == 29);
        assert("column.cfn.stack.deleted_time"@.len() == 29);
        assert("column.cfn.stack.drift_status"@.len() == 29);
        assert("column.cfn.stack.last_drift_check_time"@.len() == 38);
        assert("column.cfn.stack.status_reason"@.len() == 30);
        assert("column.cfn.stack.description"@.len() == 28);
        assert("column.cfn.stack.updated_time"@[17] != "column.cfn.stack.created_time"@[17]);
        assert("column.cfn.stack.deleted_time"@[17] != "column.cfn.stack.created_time"@[17]);
        assert("column.cfn.stack.deleted_time"@[17] != "column.cfn.stack.updated_time"@[17]);
        assert("column.cfn.stack.drift_status"@[17] != "column.cfn.stack.created_time"@[17]);
        assert("column.cfn.stack.drift_status"@[17] != "column.cfn.stack.updated_time"@[17]);
        assert("column.cfn.stack.drift_status"@[18] != "column.cfn.stack.deleted_time"@[18]);
    }

    /// Every column, in display order.
    pub open spec fn every() -> Seq<Self> {
        seq![Column::Name, Column::StackId, Column::Status, Column::CreatedTime, Column::UpdatedTime, Column::DeletedTime, Column::DriftStatus, Column::LastDriftCheckTime, Column::StatusReason, Column::Description]
    }

    /// The translation key of the column.
    pub fn id(&self) -> (r: ColumnId)
        ensures
            r@ == self.key(),
    {
        match self {
            Column::Name => "column.cfn.stack.name",
            Column::StackId => "column.cfn.stack.stack_id",
            Column::Status => "column.cfn.stack.status",
            Column::CreatedTime => "column.cfn.stack.created_time",
            Column::UpdatedTime => "column.cfn.stack.updated_time",
            Column::DeletedTime => "column.cfn.stack.deleted_time",
            Column::DriftStatus => "column.cfn.stack.drift_status",
            Column::LastDriftCheckTime => "column.cfn.stack.last_drift_check_time",
            Column::StatusReason => "column.cfn.stack.status_reason",
            Column::Description => "column.cfn.stack.description",
        }
    }

    /// The label of the column when no translation replaces it.
    pub fn default_name(&self) -> (r: &'static str)
        ensures
            r@ == self.default_label(),
    {
        match self {
            Column::Name => "Stack Name",
            Column::StackId => "Stack ID",
            Column::Status => "Status",
            Column::CreatedTime => "Created Time",
            Column::UpdatedTime => "Updated Time",
            Column::DeletedTime => "Deleted Time",
            Column::DriftStatus => "Drift Status",
            Column::LastDriftCheckTime => "Last Drift Check Time",
            Column::StatusReason => "Status Reason",
            Column::Description => "Description",
        }
    }

    /// The label of the column: its translation, else its default label.
    pub fn name(&self, tr: &Translations) -> (r: String)
        ensures
            r@ == translated_label(tr.entries@, self.key(), self.default_label()),
    {
        tr.translate_column(self.id(), self.default_name())
    }

    /// The column whose key is `id`, if any.
    pub fn from_id(id: &str) -> (r: Option<Self>)
        ensures
            r == Self::with_key(id@),
    {
        if str_eq(id, "column.cfn.stack.name") {
            Some(Column::Name)
        } else if str_eq(id, "column.cfn.stack.stack_id") {
            Some(Column::StackId)
        } else if str_eq(id, "column.cfn.stack.status") {
            Some(Column::Status)
        } else if str_eq(id, "column.cfn.stack.created_time") {
            Some(Column::CreatedTime)
        } else if str_eq(id, "column.cfn.stack.updated_time") {
            Some(Column::UpdatedTime)
        } else if str_eq(id, "column.cfn.stack.deleted_time") {
            Some(Column::DeletedTime)
        } else if str_eq(id, "column.cfn.stack.drift_status") {
            Some(Column::DriftStatus)
        } else if str_eq(id, "column.cfn.stack.last_drift_check_time") {
            Some(Column::LastDriftCheckTime)
        } else if str_eq(id, "column.cfn.stack.status_reason") {
            Some(Column::StatusReason)
        } else if str_eq(id, "column.cfn.stack.description") {
            Some(Column::Description)
        } else {
            None
        }
    }

    /// Every column, in display order.
    pub fn all() -> (r: [Self; 10])
        ensures
            r@ == Self::every(),
    {
        let r = [Column::Name, Column::StackId, Column::Status, Column::CreatedTime, Column::UpdatedTime, Column::DeletedTime, Column::DriftStatus, Column::LastDriftCheckTime, Column::StatusReason, Column::Description];
        assert(r@ =~= Self::every());
        r
    }

    /// The keys of every column, in display order.
    pub fn ids() -> (r: Vec<ColumnId>)
        ensures
            r@.len() == Self::every().len(),
            forall|i: int| 0 <= i < r@.len() ==> (#[trigger] r@[i])@ == Self::every()[i].key(),
    {
        let r: Vec<ColumnId> = vec!["column.cfn.stack.name", "column.cfn.stack.stack_id", "column.cfn.stack.status", "column.cfn.stack.created_time", "column.cfn.stack.updated_time", "column.cfn.stack.deleted_time", "column.cfn.stack.drift_status", "column.cfn.stack.last_drift_check_time", "column.cfn.stack.status_reason", "column.cfn.stack.description"];
        assert forall|i: int| 0 <= i < r@.len() implies (#[trigger] r@[i])@ == Self::every()[i].key() by {
            assert(r@ =~= seq!["column.cfn.stack.name", "column.cfn.stack.stack_id", "column.cfn.stack.status", "column.cfn.stack.created_time", "column.cfn.stack.updated_time", "column.cfn.stack.deleted_time", "column.cfn.stack.drift_status", "column.cfn.stack.last_drift_check_time", "column.cfn.stack.status_reason", "column.cfn.stack.description"]);
        }
        r
    }

    /// The keys of every column paired with their default labels.
    pub open spec fn default_pairs() -> (Seq<Seq<char>>, Seq<Seq<char>>) {
        (Self::every().map_values(|c: Self| c.key()), Self::every().map_values(|c: Self| c.default_label()))
    }

}

/// The console address of the stacks of `region`.
pub open spec fn stacks_address(region: Seq<char>) -> Seq<char> {
    "https://"@ + region + ".console.aws.amazon.com/cloudformation/home?region="@ + region + "#/stacks"@
}

/// The query that follows a stack page of the console.
pub open spec fn stack_query(stack_id: Seq<char>) -> Seq<char> {
    "?filteringText=&filteringStatus=active&viewNested=true&stackId="@ + stack_id
}

/// The console address of the stacks of `region`.
pub fn console_url_stacks(region: &str) -> (r: String)
    ensures
        r@ == stacks_address(region@),
{
    let mut s = String::from_str("https://");
    s.append(region);
    s.append(".console.aws.amazon.com/cloudformation/home?region=");
    s.append(region);
    s.append("#/stacks");
    s
}

/// The console address of one stack.
pub fn console_url_stack_detail(region: &str, stack_name: &str, stack_id: &str) -> (r: String)
    ensures
        r@ == stacks_address(region@) + "/"@ + stack_name@ + stack_query(stack_id@),
{
    let mut s = console_url_stacks(region);
    s.append("/");
    s.append(stack_name);
    s.append("?filteringText=&filteringStatus=active&viewNested=true&stackId=");
    s.append(stack_id);
    s
}

/// Tabs of an open stack, in display order.
#[derive(Clone, Copy, Debug, PartialEq, Eq, Structural)]
pub enum DetailTab {
    StackInfo,
    Events,
    Resources,
    Outputs,
    Parameters,
    Template,
    ChangeSets,
    GitSync,
}

/// A label as a console path segment: spaces dropped, ASCII capitals in
/// lower case.
pub open spec fn path_form(s: Seq<char>) -> Seq<char>
    decreases s.len(),
{
    if s.len() == 0 {
        Seq::empty()
    } else {
        let rest = path_form(s.drop_last());
        let c = s.last();
        if c == ' ' {
            rest
        } else if 'A' <= c && c <= 'Z' {
            rest.push(((c as u32) + 32) as char)
        } else {
            rest.push(c)
        }
    }
}

impl DetailTab {
    /// The tab after this one, wrapping around.
    pub open spec fn following(self) -> DetailTab {
        match self {
            DetailTab::StackInfo => DetailTab::Events,
            DetailTab::Events => DetailTab::Resources,
            DetailTab::Resources => DetailTab::Outputs,
            DetailTab::Outputs => DetailTab::Parameters,
            DetailTab::Parameters => DetailTab::Template,
            DetailTab::Template => DetailTab::ChangeSets,
            DetailTab::ChangeSets => DetailTab::GitSync,
            DetailTab::GitSync => DetailTab::StackInfo,
        }
    }

    /// The tab before this one, wrapping around.
    pub open spec fn preceding(self) -> DetailTab {
        match self {
            DetailTab::StackInfo => DetailTab::GitSync,
            DetailTab::Events => DetailTab::StackInfo,
            DetailTab::Resources => DetailTab::Events,
            DetailTab::Outputs => DetailTab::Resources,
            DetailTab::Parameters => DetailTab::Outputs,
            DetailTab::Template => DetailTab::Parameters,
            DetailTab::ChangeSets => DetailTab::Template,
            DetailTab::GitSync => DetailTab::ChangeSets,
        }
    }

    /// The segment of the console address that opens the tab.
    pub open spec fn path(self) -> Seq<char> {
        match self {
            DetailTab::StackInfo => "stackinfo"@,
            DetailTab::Events => "events"@,
            DetailTab::Resources => "resources"@,
            DetailTab::Outputs => "outputs"@,
            DetailTab::Parameters => "parameters"@,
            DetailTab::Template => "template"@,
            DetailTab::ChangeSets => "changesets"@,
            DetailTab::GitSync => "gitsync"@,
        }
    }

    /// The tab after this one, wrapping around.
    pub fn next(&self) -> (r: DetailTab)
        ensures
            r == self.following(),
    {
        match self {
            DetailTab::StackInfo => DetailTab::Events,
            DetailTab::Events => DetailTab::Resources,
            DetailTab::Resources => DetailTab::Outputs,
            DetailTab::Outputs => DetailTab::Parameters,
            DetailTab::Parameters => DetailTab::Template,
            DetailTab::Template => DetailTab::ChangeSets,
            DetailTab::ChangeSets => DetailTab::GitSync,
            DetailTab::GitSync => DetailTab::StackInfo,
        }
    }

    /// The tab before this one, wrapping around.
    pub fn prev(&self) -> (r: DetailTab)
        ensures
            r == self.preceding(),
    {
        match self {
            DetailTab::StackInfo => DetailTab::GitSync,
            DetailTab::Events => DetailTab::StackInfo,
            DetailTab::Resources => DetailTab::Events,
            DetailTab::Outputs => DetailTab::Resources,
            DetailTab::Parameters => DetailTab::Outputs,
            DetailTab::Template => DetailTab::Parameters,
            DetailTab::ChangeSets => DetailTab::Template,
            DetailTab::GitSync => DetailTab::ChangeSets,
        }
    }

    /// The label of the tab.
    pub open spec fn label(self) -> Seq<char> {
        match self {
            DetailTab::StackInfo => "Stack info"@,
            DetailTab::Events => "Events"@,
            DetailTab::Resources => "Resources"@,
            DetailTab::Outputs => "Outputs"@,
            DetailTab::Parameters => "Parameters"@,
            DetailTab::Template => "Template"@,
            DetailTab::ChangeSets => "Change sets"@,
            DetailTab::GitSync => "Git sync"@,
        }
    }

    /// The console path of each tab is its label in lower case, without
    /// spaces: `Events` opens `events`, `Resources` opens `resources`.
    pub proof fn lemma_path_from_label(t: DetailTab)
        ensures
            t.path() == path_form(t.label()),
    {
        match t {
            DetailTab::StackInfo => {
                reveal_strlit("Stack info");
                reveal_strlit("stackinfo");
                reveal_with_fuel(path_form, 11);
                assert(path_form("Stack info"@) =~= "stackinfo"@);
            },
            DetailTab::Events => {
                reveal_strlit("Events");
                reveal_strlit("events");
                reveal_with_fuel(path_form, 7);
                assert(path_form("Events"@) =~= "events"@);
            },
            DetailTab::Resources => {
                reveal_strlit("Resources");
                reveal_strlit("resources");
                reveal_with_fuel(path_form, 10);
                assert(path_form("Resources"@) =~= "resources"@);
            },
            DetailTab::Outputs => {
                reveal_strlit("Outputs");
                reveal_strlit("outputs");
                reveal_with_fuel(path_form, 8);
                assert(path_form("Outputs"@) =~= "outputs"@);
            },
            DetailTab::Parameters => {
                reveal_strlit("Parameters");
                reveal_strlit("parameters");
                reveal_with_fuel(path_form, 11);
                assert(path_form("Parameters"@) =~= "parameters"@);
            },
            DetailTab::Template => {
                reveal_strlit("Template");
                reveal_strlit("template");
                reveal_with_fuel(path_form, 9);
                assert(path_form("Template"@) =~= "template"@);
            },
            DetailTab::ChangeSets => {
                reveal_strlit("Change sets");
                reveal_strlit("changesets");
                reveal_with_fuel(path_form, 12);
                assert(path_form("Change sets"@) =~= "changesets"@);
            },
            DetailTab::GitSync => {
                reveal_strlit("Git sync");
                reveal_strlit("gitsync");
                reveal_with_fuel(path_form, 9);
                assert(path_form("Git sync"@) =~= "gitsync"@);
            },
        }
    }

    /// The title of the tab.
    pub fn name(&self) -> (r: &'static str)
        ensures
            r@ == self.label(),
    {
        match self {
            DetailTab::StackInfo => "Stack info",
            DetailTab::Events => "Events",
            DetailTab::Resources => "Resources",
            DetailTab::Outputs => "Outputs",
            DetailTab::Parameters => "Parameters",
            DetailTab::Template => "Template",
            DetailTab::ChangeSets => "Change sets",
            DetailTab::GitSync => "Git sync",
        }
    }

    fn path_str(&self) -> (r: &'static str)
        ensures
            r@ == self.path(),
    {
        match self {
            DetailTab::StackInfo => "stackinfo",
            DetailTab::Events => "events",
            DetailTab::Resources => "resources",
            DetailTab::Outputs => "outputs",
            DetailTab::Parameters => "parameters",
            DetailTab::Template => "template",
            DetailTab::ChangeSets => "changesets",
            DetailTab::GitSync => "gitsync",
        }
    }

    /// Going forward one and back one (or back, then forward) returns to
    /// where it started.
    pub proof fn lemma_cycle(t: DetailTab)
        ensures
            t.following().preceding() == t,
            t.preceding().following() == t,
            <DetailTab as CyclicEnum>::all_values().no_duplicates(),
            t.following() == cyclic_next(<DetailTab as CyclicEnum>::all_values(), t),
            t.preceding() == cyclic_prev(<DetailTab as CyclicEnum>::all_values(), t),
    {
        let all = <DetailTab as CyclicEnum>::all_values();
        assert(all.no_duplicates()) by {
            assert forall|a: int, b: int| 0 <= a < all.len() && 0 <= b < all.len() && a != b implies all[a] != all[b] by {
            }
        }
        match t {
            DetailTab::StackInfo => lemma_cyclic_law(all, 0),
            DetailTab::Events => lemma_cyclic_law(all, 1),
            DetailTab::Resources => lemma_cyclic_law(all, 2),
            DetailTab::Outputs => lemma_cyclic_law(all, 3),
            DetailTab::Parameters => lemma_cyclic_law(all, 4),
            DetailTab::Template => lemma_cyclic_law(all, 5),
            DetailTab::ChangeSets => lemma_cyclic_law(all, 6),
            DetailTab::GitSync => lemma_cyclic_law(all, 7),
        }
    }
}

/// The console address of tab `tab` of a stack, its id percent-encoded.
pub open spec fn stack_tab_address(region: Seq<char>, stack_id: Seq<char>, tab: DetailTab) -> Seq<char> {
    stacks_address(region) + "/"@ + tab.path() + stack_query(url_encoded(stack_id))
}

/// The console address of tab `tab` of a stack.
pub fn console_url_stack_detail_with_tab(region: &str, stack_id: &str, tab: &DetailTab) -> (r: String)
    ensures
        r@ == stack_tab_address(region@, stack_id@, *tab),
{
    let encoded_arn = encode(stack_id);
    let mut s = console_url_stacks(region);
    s.append("/");
    s.append(tab.path_str());
    s.append("?filteringText=&filteringStatus=active&viewNested=true&stackId=");
    s.append(encoded_arn.as_str());
    s
}

/// The colour a stack status is shown in.
#[derive(Clone, Copy, Debug, PartialEq, Eq, Structural)]
pub enum StatusColor {
    Green,
    Red,
    Blue,
    White,
}

/// Statuses of a stack that finished well.
pub open spec fn is_complete_status(s: Seq<char>) -> bool {
    s == "UPDATE_COMPLETE"@ || s == "CREATE_COMPLETE"@ || s == "DELETE_COMPLETE"@ || s == "IMPORT_COMPLETE"@
}

/// Statuses of a stack that failed or rolled back.
pub open spec fn is_failed_status(s: Seq<char>) -> bool {
    ||| s == "ROLLBACK_COMPLETE"@
    ||| s == "UPDATE_ROLLBACK_COMPLETE"@
    ||| s == "UPDATE_ROLLBACK_COMPLETE_CLEANUP_IN_PROGRESS"@
    ||| s == "UPDATE_FAILED"@
    ||| s == "CREATE_FAILED"@
    ||| s == "DELETE_FAILED"@
    ||| s == "ROLLBACK_FAILED"@
    ||| s == "UPDATE_ROLLBACK_FAILED"@
    ||| s == "IMPORT_ROLLBACK_FAILED"@
    ||| s == "IMPORT_ROLLBACK_COMPLETE"@
}

/// Statuses of a stack with an operation under way.
pub open spec fn is_progress_status(s: Seq<char>) -> bool {
    ||| s == "UPDATE_IN_PROGRESS"@
    ||| s == "UPDATE_COMPLETE_CLEANUP_IN_PROGRESS"@
    ||| s == "DELETE_IN_PROGRESS"@
    ||| s == "CREATE_IN_PROGRESS"@
    ||| s == "ROLLBACK_IN_PROGRESS"@
    ||| s == "UPDATE_ROLLBACK_IN_PROGRESS"@
    ||| s == "REVIEW_IN_PROGRESS"@
    ||| s == "IMPORT_IN_PROGRESS"@
    ||| s == "IMPORT_ROLLBACK_IN_PROGRESS"@
}

/// The label and colour of a stack status: a check mark and green when it
/// finished well, a cross and red when it failed, an information sign and blue
/// while under way, else the status alone in white.
pub open spec fn status_label(s: Seq<char>) -> (Seq<char>, StatusColor) {
    if is_complete_status(s) {
        ("✅ "@ + s, StatusColor::Green)
    } else if is_failed_status(s) {
        ("❌ "@ + s, StatusColor::Red)
    } else if is_progress_status(s) {
        ("ℹ️  "@ + s, StatusColor::Blue)
    } else {
        (s, StatusColor::White)
    }
}

/// The label and colour of a stack status.
pub fn format_status(status: &str) -> (r: (String, StatusColor))
    ensures
        (r.0@, r.1) == status_label(status@),
{
    let (emoji, color) = if str_eq(status, "UPDATE_COMPLETE") || str_eq(status, "CREATE_COMPLETE")
        || str_eq(status, "DELETE_COMPLETE") || str_eq(status, "IMPORT_COMPLETE") {
        ("✅ ", StatusColor::Green)
    } else if str_eq(status, "ROLLBACK_COMPLETE") || str_eq(status, "UPDATE_ROLLBACK_COMPLETE")
        || str_eq(status, "UPDATE_ROLLBACK_COMPLETE_CLEANUP_IN_PROGRESS") || str_eq(status, "UPDATE_FAILED")
        || str_eq(status, "CREATE_FAILED") || str_eq(status, "DELETE_FAILED") || str_eq(status, "ROLLBACK_FAILED")
        || str_eq(status, "UPDATE_ROLLBACK_FAILED") || str_eq(status, "IMPORT_ROLLBACK_FAILED")
        || str_eq(status, "IMPORT_ROLLBACK_COMPLETE") {
        ("❌ ", StatusColor::Red)
    } else if str_eq(status, "UPDATE_IN_PROGRESS") || str_eq(status, "UPDATE_COMPLETE_CLEANUP_IN_PROGRESS")
        || str_eq(status, "DELETE_IN_PROGRESS") || str_eq(status, "CREATE_IN_PROGRESS")
        || str_eq(status, "ROLLBACK_IN_PROGRESS") || str_eq(status, "UPDATE_ROLLBACK_IN_PROGRESS")
        || str_eq(status, "REVIEW_IN_PROGRESS") || str_eq(status, "IMPORT_IN_PROGRESS")
        || str_eq(status, "IMPORT_ROLLBACK_IN_PROGRESS") {
        ("ℹ️  ", StatusColor::Blue)
    } else {
        ("", StatusColor::White)
    };
    let mut s = String::from_str(emoji);
    s.append(status);
    proof {
        reveal_strlit("");
        assert(""@ + status@ =~= status@);
    }
    (s, color)
}

/// Which stacks the list shows by status.
#[derive(Clone, Copy, Debug, PartialEq, Eq, Structural)]
pub enum StatusFilter {
    All,
    Active,
    Complete,
    Failed,
    Deleted,
    InProgress,
}

impl StatusFilter {
    /// The filter after this one, wrapping around.
    pub open spec fn following(self) -> StatusFilter {
        match self {
            StatusFilter::All => StatusFilter::Active,
            StatusFilter::Active => StatusFilter::Complete,
            StatusFilter::Complete => StatusFilter::Failed,
            StatusFilter::Failed => StatusFilter::Deleted,
            StatusFilter::Deleted => StatusFilter::InProgress,
            StatusFilter::InProgress => StatusFilter::All,
        }
    }

    /// The filter before this one, wrapping around.
    pub open spec fn preceding(self) -> StatusFilter {
        match self {
            StatusFilter::All => StatusFilter::InProgress,
            StatusFilter::Active => StatusFilter::All,
            StatusFilter::Complete => StatusFilter::Active,
            StatusFilter::Failed => StatusFilter::Complete,
            StatusFilter::Deleted => StatusFilter::Failed,
            StatusFilter::InProgress => StatusFilter::Deleted,
        }
    }

    /// Whether a stack with status `s` passes the filter: active stacks have an
    /// operation under way that is no deletion; complete ones finished an
    /// operation other than deletion; failed ones name a failure; deleted ones
    /// are being or were deleted; in-progress ones have an operation under way.
    pub open spec fn admits(self, s: Seq<char>) -> bool {
        match self {
            StatusFilter::All => true,
            StatusFilter::Active => contains_seq(s, "IN_PROGRESS"@) && !starts_with_seq(s, "DELETE"@),
            StatusFilter::Complete => contains_seq(s, "COMPLETE"@) && !starts_with_seq(s, "DELETE"@),
            StatusFilter::Failed => contains_seq(s, "FAILED"@),
            StatusFilter::Deleted => starts_with_seq(s, "DELETE"@),
            StatusFilter::InProgress => contains_seq(s, "IN_PROGRESS"@),
        }
    }

    /// The filter after this one, wrapping around.
    pub fn next(&self) -> (r: StatusFilter)
        ensures
            r == self.following(),
    {
        match self {
            StatusFilter::All => StatusFilter::Active,
            StatusFilter::Active => StatusFilter::Complete,
            StatusFilter::Complete => StatusFilter::Failed,
            StatusFilter::Failed => StatusFilter::Deleted,
            StatusFilter::Deleted => StatusFilter::InProgress,
            StatusFilter::InProgress => StatusFilter::All,
        }
    }

    /// The filter before this one, wrapping around.
    pub fn prev(&self) -> (r: StatusFilter)
        ensures
            r == self.preceding(),
    {
        match self {
            StatusFilter::All => StatusFilter::InProgress,
            StatusFilter::Active => StatusFilter::All,
            StatusFilter::Complete => StatusFilter::Active,
            StatusFilter::Failed => StatusFilter::Complete,
            StatusFilter::Deleted => StatusFilter::Failed,
            StatusFilter::InProgress => StatusFilter::Deleted,
        }
    }

    /// The label of the filter.
    pub fn name(&self) -> (r: &'static str)
        ensures
            r@ == (match self {
                StatusFilter::All => "All"@,
                StatusFilter::Active => "Active"@,
                StatusFilter::Complete => "Complete"@,
                StatusFilter::Failed => "Failed"@,
                StatusFilter::Deleted => "Deleted"@,
                StatusFilter::InProgress => "In progress"@,
            }),
    {
        match self {
            StatusFilter::All => "All",
            StatusFilter::Active => "Active",
            StatusFilter::Complete => "Complete",
            StatusFilter::Failed => "Failed",
            StatusFilter::Deleted => "Deleted",
            StatusFilter::InProgress => "In progress",
        }
    }

    /// Whether a stack with status `status` passes the filter.
    pub fn matches(&self, status: &str) -> (r: bool)
        ensures
            r == self.admits(status@),
    {
        match self {
            StatusFilter::All => true,
            StatusFilter::Active => str_contains(status, "IN_PROGRESS") && !str_starts_with(status, "DELETE"),
            StatusFilter::Complete => str_contains(status, "COMPLETE") && !str_starts_with(status, "DELETE"),
            StatusFilter::Failed => str_contains(status, "FAILED"),
            StatusFilter::Deleted => str_starts_with(status, "DELETE"),
            StatusFilter::InProgress => str_contains(status, "IN_PROGRESS"),
        }
    }

    /// Going forward one and back one (or back, then forward) returns to
    /// where it started.
    pub proof fn lemma_cycle(t: StatusFilter)
        ensures
            t.following().preceding() == t,
            t.preceding().following() == t,
            <StatusFilter as CyclicEnum>::all_values().no_duplicates(),
            t.following() == cyclic_next(<StatusFilter as CyclicEnum>::all_values(), t),
            t.preceding() == cyclic_prev(<StatusFilter as CyclicEnum>::all_values(), t),
    {
        let all = <StatusFilter as CyclicEnum>::all_values();
        assert(all.no_duplicates()) by {
            assert forall|a: int, b: int| 0 <= a < all.len() && 0 <= b < all.len() && a != b implies all[a] != all[b] by {
            }
        }
        match t {
            StatusFilter::All => lemma_cyclic_law(all, 0),
            StatusFilter::Active => lemma_cyclic_law(all, 1),
            StatusFilter::Complete => lemma_cyclic_law(all, 2),
            StatusFilter::Failed => lemma_cyclic_law(all, 3),
            StatusFilter::Deleted => lemma_cyclic_law(all, 4),
            StatusFilter::InProgress => lemma_cyclic_law(all, 5),
        }
    }
}

/// How the events of a stack are shown.
#[derive(Clone, Copy, Debug, PartialEq, Eq, Structural)]
pub enum EventsView {
    Table,
    Timeline,
}

/// The status filter control of the stack list's filter bar.
pub open spec fn status_filter_focus() -> InputFocus {
    InputFocus::Dropdown("StatusFilter")
}

/// The nested-stacks checkbox of the stack list's filter bar.
pub open spec fn view_nested_focus() -> InputFocus {
    InputFocus::Checkbox("ViewNested")
}

/// The controls of the stack list's filter bar, in focus order.
pub open spec fn filter_controls() -> Seq<InputFocus> {
    seq![InputFocus::Filter, status_filter_focus(), view_nested_focus(), InputFocus::Pagination]
}

/// The controls of a detail table's filter bar, in focus order.
pub open spec fn detail_filter_controls() -> Seq<InputFocus> {
    seq![InputFocus::Filter, InputFocus::Pagination]
}

/// The controls of the stack list's filter bar, in focus order.
pub fn filter_control_list() -> (r: Vec<InputFocus>)
    ensures
        r@ == filter_controls(),
{
    let r = vec![InputFocus::Filter, InputFocus::Dropdown("StatusFilter"), InputFocus::Checkbox("ViewNested"), InputFocus::Pagination];
    assert(r@ =~= filter_controls());
    r
}

/// The controls of a detail table's filter bar, in focus order.
pub fn detail_filter_control_list() -> (r: Vec<InputFocus>)
    ensures
        r@ == detail_filter_controls(),
{
    let r = vec![InputFocus::Filter, InputFocus::Pagination];
    assert(r@ =~= detail_filter_controls());
    r
}

/// State of the stacks view.
pub struct State {
    pub table: TableState<Stack>,
    pub parameters: TableState<StackParameter>,
    pub outputs: TableState<StackOutput>,
    pub resources: TableState<StackResource>,
    pub events: TableState<StackEvent>,
    pub change_sets: TableState<StackChangeSet>,
    pub tags: TableState<(String, String)>,
    pub current_stack: Option<String>,
    pub detail_tab: DetailTab,
    pub events_view: EventsView,
    pub status_filter: StatusFilter,
    pub view_nested: bool,
    pub expanded_items: Vec<String>,
    pub input_focus: InputFocus,
    pub parameters_input_focus: InputFocus,
    pub outputs_input_focus: InputFocus,
    pub resources_input_focus: InputFocus,
    pub events_input_focus: InputFocus,
    pub change_sets_input_focus: InputFocus,
    pub template_body: String,
    pub template_scroll: usize,
    pub overview_scroll: usize,
    pub sort_column: Column,
    pub sort_direction: SortDirection,
}

impl Default for State {
    /// The stacks view before anything is loaded: empty tables, every status
    /// shown, nested stacks hidden, no stack open, sorted by creation time,
    /// newest first.
    fn default() -> (r: Self)
        ensures
            r.table.items@.len() == 0,
            r.table.selected == 0,
            !r.table.loading,
            r.table.filter@.len() == 0,
            r.table.expanded_item is None,
            r.status_filter == StatusFilter::All,
            !r.view_nested,
            r.current_stack is None,
            r.detail_tab == DetailTab::StackInfo,
            r.events_view == EventsView::Table,
            r.expanded_items@.len() == 0,
            r.input_focus == InputFocus::Filter,
            r.template_body@.len() == 0,
            r.template_scroll == 0,
            r.overview_scroll == 0,
            r.sort_column == Column::CreatedTime,
            r.sort_direction == SortDirection::Desc,
    {
        State {
            table: TableState::new(),
            parameters: TableState::new(),
            outputs: TableState::new(),
            resources: TableState::new(),
            events: TableState::new(),
            change_sets: TableState::new(),
            tags: TableState::new(),
            current_stack: None,
            detail_tab: DetailTab::StackInfo,
            events_view: EventsView::Table,
            status_filter: StatusFilter::All,
            view_nested: false,
            expanded_items: Vec::new(),
            input_focus: InputFocus::Filter,
            parameters_input_focus: InputFocus::Filter,
            outputs_input_focus: InputFocus::Filter,
            resources_input_focus: InputFocus::Filter,
            events_input_focus: InputFocus::Filter,
            change_sets_input_focus: InputFocus::Filter,
            template_body: String::new(),
            template_scroll: 0,
            overview_scroll: 0,
            sort_column: Column::CreatedTime,
            sort_direction: SortDirection::Desc,
        }
    }
}

/// A stack passes the list's filters: its name passes the text filter, its
/// status passes the status filter, and it is a top-level stack unless nested
/// stacks are shown.
pub open spec fn stack_kept(s: State, st: Stack) -> bool {
    filter_keeps(s.table.filter@, st.name@) && s.status_filter.admits(st.status@)
        && (s.view_nested || st.root_stack@.len() == 0)
}

/// Indices of the stacks that pass the list's filters.
pub open spec fn filtered_stack_rows(s: State) -> Seq<usize> {
    kept_indices(s.table.items@.len(), |k: int| stack_kept(s, s.table.items@[k]))
}

/// Indices of the parameters whose key passes the filter.
pub open spec fn filtered_parameter_rows(s: State) -> Seq<usize> {
    kept_indices(s.parameters.items@.len(), |k: int| filter_keeps(s.parameters.filter@, s.parameters.items@[k].key@))
}

/// Indices of the outputs whose key passes the filter.
pub open spec fn filtered_output_rows(s: State) -> Seq<usize> {
    kept_indices(s.outputs.items@.len(), |k: int| filter_keeps(s.outputs.filter@, s.outputs.items@[k].key@))
}

/// Indices of the resources whose logical id passes the filter.
pub open spec fn filtered_resource_rows(s: State) -> Seq<usize> {
    kept_indices(s.resources.items@.len(), |k: int| filter_keeps(s.resources.filter@, s.resources.items@[k].logical_id@))
}

/// Indices of the events whose logical id passes the filter.
pub open spec fn filtered_event_rows(s: State) -> Seq<usize> {
    kept_indices(s.events.items@.len(), |k: int| filter_keeps(s.events.filter@, s.events.items@[k].logical_id@))
}

/// Indices of the change sets whose name passes the filter.
pub open spec fn filtered_change_set_rows(s: State) -> Seq<usize> {
    kept_indices(s.change_sets.items@.len(), |k: int| filter_keeps(s.change_sets.filter@, s.change_sets.items@[k].name@))
}

/// Indices of the stacks that pass the list's filters.
pub fn filtered_cloudformation_stacks(s: &State) -> (r: Vec<usize>)
    ensures
        r@ == filtered_stack_rows(*s),
{
    let n = s.table.items.len();
    let mut out: Vec<usize> = Vec::new();
    let mut i: usize = 0;
    while i < n
        invariant
            n == s.table.items@.len(),
            i <= n,
            out@ == kept_indices(i as nat, |k: int| stack_kept(*s, s.table.items@[k])),
        decreases n - i,
    {
        let it = &s.table.items[i];
        if filter_matches(s.table.filter.as_str(), it.name.as_str()) && s.status_filter.matches(it.status.as_str())
            && (s.view_nested || it.root_stack.as_str().unicode_len() == 0) {
            out.push(i);
        }
        i = i + 1;
    }
    out
}

/// Indices of the parameters whose key passes the filter.
pub fn filtered_parameters(s: &State) -> (r: Vec<usize>)
    ensures
        r@ == filtered_parameter_rows(*s),
{
    let n = s.parameters.items.len();
    let mut out: Vec<usize> = Vec::new();
    let mut i: usize = 0;
    while i < n
        invariant
            n == s.parameters.items@.len(),
            i <= n,
            out@ == kept_indices(i as nat, |k: int| filter_keeps(s.parameters.filter@, s.parameters.items@[k].key@)),
        decreases n - i,
    {
        let it = &s.parameters.items[i];
        if filter_matches(s.parameters.filter.as_str(), it.key.as_str()) {
            out.push(i);
        }
        i = i + 1;
    }
    out
}

/// Indices of the outputs whose key passes the filter.
pub fn filtered_outputs(s: &State) -> (r: Vec<usize>)
    ensures
        r@ == filtered_output_rows(*s),
{
    let n = s.outputs.items.len();
    let mut out: Vec<usize> = Vec::new();
    let mut i: usize = 0;
    while i < n
        invariant
            n == s.outputs.items@.len(),
            i <= n,
            out@ == kept_indices(i as nat, |k: int| filter_keeps(s.outputs.filter@, s.outputs.items@[k].key@)),
        decreases n - i,
    {
        let it = &s.outputs.items[i];
        if filter_matches(s.outputs.filter.as_str(), it.key.as_str()) {
            out.push(i);
        }
        i = i + 1;
    }
    out
}

/// Indices of the resources whose logical id passes the filter.
pub fn filtered_resources(s: &State) -> (r: Vec<usize>)
    ensures
        r@ == filtered_resource_rows(*s),
{
    let n = s.resources.items.len();
    let mut out: Vec<usize> = Vec::new();
    let mut i: usize = 0;
    while i < n
        invariant
            n == s.resources.items@.len(),
            i <= n,
            out@ == kept_indices(i as nat, |k: int| filter_keeps(s.resources.filter@, s.resources.items@[k].logical_id@)),
        decreases n - i,
    {
        let it = &s.resources.items[i];
        if filter_matches(s.resources.filter.as_str(), it.logical_id.as_str()) {
            out.push(i);
        }
        i = i + 1;
    }
    out
}

/// Indices of the events whose logical id passes the filter.
pub fn filtered_events(s: &State) -> (r: Vec<usize>)
    ensures
        r@ == filtered_event_rows(*s),
{
    let n = s.events.items.len();
    let mut out: Vec<usize> = Vec::new();
    let mut i: usize = 0;
    while i < n
        invariant
            n == s.events.items@.len(),
            i <= n,
            out@ == kept_indices(i as nat, |k: int| filter_keeps(s.events.filter@, s.events.items@[k].logical_id@)),
        decreases n - i,
    {
        let it = &s.events.items[i];
        if filter_matches(s.events.filter.as_str(), it.logical_id.as_str()) {
            out.push(i);
        }
        i = i + 1;
    }
    out
}

/// Indices of the change sets whose name passes the filter.
pub fn filtered_change_sets(s: &State) -> (r: Vec<usize>)
    ensures
        r@ == filtered_change_set_rows(*s),
{
    let n = s.change_sets.items.len();
    let mut out: Vec<usize> = Vec::new();
    let mut i: usize = 0;
    while i < n
        invariant
            n == s.change_sets.items@.len(),
            i <= n,
            out@ == kept_indices(i as nat, |k: int| filter_keeps(s.change_sets.filter@, s.change_sets.items@[k].name@)),
        decreases n - i,
    {
        let it = &s.change_sets.items[i];
        if filter_matches(s.change_sets.filter.as_str(), it.name.as_str()) {
            out.push(i);
        }
        i = i + 1;
    }
    out
}


impl CyclicEnum for DetailTab {
    open spec fn all_values() -> Seq<DetailTab> {
        seq![DetailTab::StackInfo, DetailTab::Events, DetailTab::Resources, DetailTab::Outputs, DetailTab::Parameters, DetailTab::Template, DetailTab::ChangeSets, DetailTab::GitSync]
    }

    fn all() -> (r: Vec<DetailTab>) {
        let r = vec![DetailTab::StackInfo, DetailTab::Events, DetailTab::Resources, DetailTab::Outputs, DetailTab::Parameters, DetailTab::Template, DetailTab::ChangeSets, DetailTab::GitSync];
        assert(r@ =~= Self::all_values());
        r
    }

    fn next(&self) -> (r: DetailTab) {
        proof {
            DetailTab::lemma_cycle(*self);
        }
        DetailTab::next(self)
    }

    fn prev(&self) -> (r: DetailTab) {
        proof {
            DetailTab::lemma_cycle(*self);
        }
        DetailTab::prev(self)
    }

    proof fn lemma_values_listed() {
        let all = Self::all_values();
        DetailTab::lemma_cycle(DetailTab::StackInfo);
        assert forall|x: DetailTab| all.contains(x) by {
            match x {
                DetailTab::StackInfo => assert(all[0] == x),
                DetailTab::Events => assert(all[1] == x),
                DetailTab::Resources => assert(all[2] == x),
                DetailTab::Outputs => assert(all[3] == x),
                DetailTab::Parameters => assert(all[4] == x),
                DetailTab::Template => assert(all[5] == x),
                DetailTab::ChangeSets => assert(all[6] == x),
                DetailTab::GitSync => assert(all[7] == x),
            }
        }
    }
}

impl CyclicEnum for StatusFilter {
    open spec fn all_values() -> Seq<StatusFilter> {
        seq![StatusFilter::All, StatusFilter::Active, StatusFilter::Complete, StatusFilter::Failed, StatusFilter::Deleted, StatusFilter::InProgress]
    }

    fn all() -> (r: Vec<StatusFilter>) {
        let r = vec![StatusFilter::All, StatusFilter::Active, StatusFilter::Complete, StatusFilter::Failed, StatusFilter::Deleted, StatusFilter::InProgress];
        assert(r@ =~= Self::all_values());
        r
    }

    fn next(&self) -> (r: StatusFilter) {
        proof {
            StatusFilter::lemma_cycle(*self);
        }
        StatusFilter::next(self)
    }

    fn prev(&self) -> (r: StatusFilter) {
        proof {
            StatusFilter::lemma_cycle(*self);
        }
        StatusFilter::prev(self)
    }

    proof fn lemma_values_listed() {
        let all = Self::all_values();
        StatusFilter::lemma_cycle(StatusFilter::All);
        assert forall|x: StatusFilter| all.contains(x) by {
            match x {
                StatusFilter::All => assert(all[0] == x),
                StatusFilter::Active => assert(all[1] == x),
                StatusFilter::Complete => assert(all[2] == x),
                StatusFilter::Failed => assert(all[3] == x),
                StatusFilter::Deleted => assert(all[4] == x),
                StatusFilter::InProgress => assert(all[5] == x),
            }
        }
    }
}

} // verus!

//! CloudWatch alarms: the alarm record, the columns of its table and the
//! console address of the alarm list.
use vstd::prelude::*;
use vstd::string::*;
use crate::common::{
    first_value, lookup, translated_label, with_defaults, ColumnId, Translations, UTC_TIMESTAMP_WIDTH,
};
use crate::text::{decimal, push_decimal, str_eq};

verus! {

/// A CloudWatch alarm. The threshold is held as the bit pattern of its IEEE 754
/// double-precision value.
#[derive(Clone, Debug)]
pub struct Alarm {
    pub name: String,
    pub state: String,
    pub state_updated_timestamp: String,
    pub description: String,
    pub metric_name: String,
    pub namespace: String,
    pub statistic: String,
    pub period: u32,
    pub comparison_operator: String,
    pub threshold: u64,
    pub actions_enabled: bool,
    pub state_reason: String,
    pub resource: String,
    pub dimensions: String,
    pub expression: String,
    pub alarm_type: String,
    pub cross_account: String,
}

/// Gives every alarm column key its default label, unless it already has a translation.
pub fn init(tr: &mut Translations)
    ensures
        forall|k: Seq<char>| #[trigger] lookup(final(tr).entries@, k) == with_defaults(
            lookup(old(tr).entries@, k), AlarmColumn::default_pairs().0, AlarmColumn::default_pairs().1, k),
{
    let keys: Vec<ColumnId> = vec!["column.cw.alarm.name", "column.cw.alarm.state", "column.cw.alarm.last_state_update", "column.cw.alarm.description", "column.cw.alarm.conditions", "column.cw.alarm.actions", "column.cw.alarm.state_details", "column.cw.alarm.metric_name", "column.cw.alarm.namespace", "column.cw.alarm.statistic", "column.cw.alarm.period", "column.cw.alarm.resource", "column.cw.alarm.dimensions", "column.cw.alarm.expression", "column.cw.alarm.type", "column.cw.alarm.cross_account"];
    let labels: Vec<&'static str> = vec!["Name", "State", "Last state update", "Description", "Conditions", "Actions", "State details", "Metric name", "Namespace", "Statistic", "Period", "Resource", "Dimensions", "Expression", "Type", "Cross-account"];
    assert(keys@.map_values(|s: &str| s@) =~= AlarmColumn::default_pairs().0);
    assert(labels@.map_values(|s: &str| s@) =~= AlarmColumn::default_pairs().1);
    tr.set_defaults(&keys, &labels);
}

/// A column of the alarm table.
#[derive(Clone, Copy, Debug, PartialEq, Eq, Structural)]
pub enum AlarmColumn {
    Name,
    State,
    LastStateUpdate,
    Description,
    Conditions,
    Actions,
    StateDetails,
    MetricName,
    Namespace,
    Statistic,
    Period,
    Resource,
    Dimensions,
    Expression,
    Type,
    CrossAccount,
}

impl AlarmColumn {
    /// The translation key of the column.
    pub open spec fn key(self) -> Seq<char> {
        match self {
            AlarmColumn::Name => "column.cw.alarm.name"@,
            AlarmColumn::State => "column.cw.alarm.state"@,
            AlarmColumn::LastStateUpdate => "column.cw.alarm.last_state_update"@,
            AlarmColumn::Description => "column.cw.alarm.description"@,
            AlarmColumn::Conditions => "column.cw.alarm.conditions"@,
            AlarmColumn::Actions => "column.cw.alarm.actions"@,
            AlarmColumn::StateDetails => "column.cw.alarm.state_details"@,
            AlarmColumn::MetricName => "column.cw.alarm.metric_name"@,
            AlarmColumn::Namespace => "column.cw.alarm.namespace"@,
            AlarmColumn::Statistic => "column.cw.alarm.statistic"@,
            AlarmColumn::Period => "column.cw.alarm.period"@,
            AlarmColumn::Resource => "column.cw.alarm.resource"@,
            AlarmColumn::Dimensions => "column.cw.alarm.dimensions"@,
            AlarmColumn::Expression => "column.cw.alarm.expression"@,
            AlarmColumn::Type => "column.cw.alarm.type"@,
            AlarmColumn::CrossAccount => "column.cw.alarm.cross_account"@,
        }
    }

    /// The label of the column when no translation replaces it.
    pub open spec fn default_label(self) -> Seq<char> {
        match self {
            AlarmColumn::Name => "Name"@,
            AlarmColumn::State => "State"@,
            AlarmColumn::LastStateUpdate => "Last state update"@,
            AlarmColumn::Description => "Description"@,
            AlarmColumn::Conditions => "Conditions"@,
            AlarmColumn::Actions => "Actions"@,
            AlarmColumn::StateDetails => "State details"@,
            AlarmColumn::MetricName => "Metric name"@,
            AlarmColumn::Namespace => "Namespace"@,
            AlarmColumn::Statistic => "Statistic"@,
            AlarmColumn::Period => "Period"@,
            AlarmColumn::Resource => "Resource"@,
            AlarmColumn::Dimensions => "Dimensions"@,
            AlarmColumn::Expression => "Expression"@,
            AlarmColumn::Type => "Type"@,
            AlarmColumn::CrossAccount => "Cross-account"@,
        }
    }

    /// The display width of the column.
    pub open spec fn width_of(self) -> u16 {
        match self {
            AlarmColumn::Name => 30,
            AlarmColumn::State => 15,
            AlarmColumn::LastStateUpdate => UTC_TIMESTAMP_WIDTH,
            AlarmColumn::Description => 40,
            AlarmColumn::Conditions => 30,
            AlarmColumn::Actions => 20,
            AlarmColumn::StateDetails => 30,
            AlarmColumn::MetricName => 25,
            AlarmColumn::Namespace => 20,
            AlarmColumn::Statistic => 15,
            AlarmColumn::Period => 10,
            AlarmColumn::Resource => 25,
            AlarmColumn::Dimensions => 25,
            AlarmColumn::Expression => 30,
            AlarmColumn::Type => 15,
            AlarmColumn::CrossAccount => 15,
        }
    }

    /// The column whose key is `id`, if any.
    pub open spec fn with_key(id: Seq<char>) -> Option<Self> {
        if id == "column.cw.alarm.name"@ {
            Some(AlarmColumn::Name)
        } else if id == "column.cw.alarm.state"@ {
            Some(AlarmColumn::State)
        } else if id == "column.cw.alarm.last_state_update"@ {
            Some(AlarmColumn::LastStateUpdate)
        } else if id == "column.cw.alarm.description"@ {
            Some(AlarmColumn::Description)
        } else if id == "column.cw.alarm.conditions"@ {
            Some(AlarmColumn::Conditions)
        } else if id == "column.cw.alarm.actions"@ {
            Some(AlarmColumn::Actions)
        } else if id == "column.cw.alarm.state_details"@ {
            Some(AlarmColumn::StateDetails)
        } else if id == "column.cw.alarm.metric_name"@ {
            Some(AlarmColumn::MetricName)
        } else if id == "column.cw.alarm.namespace"@ {
            Some(AlarmColumn::Namespace)
        } else if id == "column.cw.alarm.statistic"@ {
            Some(AlarmColumn::Statistic)
        } else if id == "column.cw.alarm.period"@ {
            Some(AlarmColumn::Period)
        } else if id == "column.cw.alarm.resource"@ {
            Some(AlarmColumn::Resource)
        } else if id == "column.cw.alarm.dimensions"@ {
            Some(AlarmColumn::Dimensions)
        } else if id == "column.cw.alarm.expression"@ {
            Some(AlarmColumn::Expression)
        } else if id == "column.cw.alarm.type"@ {
            Some(AlarmColumn::Type)
        } else if id == "column.cw.alarm.cross_account"@ {
            Some(AlarmColumn::CrossAccount)
        } else {
            None
        }
    }

    /// Reading a column back from its key gives the column: no two columns
    /// share a key.
    pub proof fn lemma_key_roundtrip(c: Self)
        ensures
            Self::with_key(c.key()) == Some(c),
    {
        reveal_strlit("column.cw.alarm.name");
        reveal_strlit("column.cw.alarm.state");
        reveal_strlit("column.cw.alarm.last_state_update");
        reveal_strlit("column.cw.alarm.description");
        reveal_strlit("column.cw.alarm.conditions");
        reveal_strlit("column.cw.alarm.actions");
        reveal_strlit("column.cw.alarm.state_details");
        reveal_strlit("column.cw.alarm.metric_name");
        reveal_strlit("column.cw.alarm.namespace");
        reveal_strlit("column.cw.alarm.statistic");
        reveal_strlit("column.cw.alarm.period");
        reveal_strlit("column.cw.alarm.resource");
        reveal_strlit("column.cw.alarm.dimensions");
        reveal_strlit("column.cw.alarm.expression");
        reveal_strlit("column.cw.alarm.type");
        reveal_strlit("column.cw.alarm.cross_account");
        assert("column.cw.alarm.name"@.len() == 20);
        assert("column.cw.alarm.state"@.len() == 21);
        assert("column.cw.alarm.last_state_update"@.len() == 33);
        assert("column.cw.alarm.description"@.len() == 27);
        assert("column.cw.alarm.conditions"@.len() == 26);
        assert("column.cw.alarm.actions"@.len() == 23);
        assert("column.cw.alarm.state_details"@.len() == 29);
        assert("column.cw.alarm.metric_name"@.len() == 27);
        assert("column.cw.alarm.namespace"@.len() == 25);
        assert("column.cw.alarm.statistic"@.len() == 25);
        assert("column.cw.alarm.period"@.len() == 22);
        assert("column.cw.alarm.resource"@.len() == 24);
        assert("column.cw.alarm.dimensions"@.len() == 26);
        assert("column.cw.alarm.expression"@.len() == 26);
        assert("column.cw.alarm.type"@.len() == 20);
        assert("column.cw.alarm.cross_account"@.len() == 29);
        assert("column.cw.alarm.metric_name"@[16] != "column.cw.alarm.description"@[16]);
        assert("column.cw.alarm.statistic"@[16] != "column.cw.alarm.namespace"@[16]);
        assert("column.cw.alarm.dimensions"@[16] != "column.cw.alarm.conditions"@[16]);
        assert("column.cw.alarm.expression"@[16] != "column.cw.alarm.conditions"@[16]);
        assert("column.cw.alarm.expression"@[16] != "column.cw.alarm.dimensions"@[16]);
        assert("column.cw.alarm.type"@[16] != "column.cw.alarm.name"@[16]);
        assert("column.cw.alarm.cross_account"@[16] != "column.cw.alarm.state_details"@[16]);
    }

    /// Every column, in display order.
    pub open spec fn every() -> Seq<Self> {
        seq![AlarmColumn::Name, AlarmColumn::State, AlarmColumn::LastStateUpdate, AlarmColumn::Description, AlarmColumn::Conditions, AlarmColumn::Actions, AlarmColumn::StateDetails, AlarmColumn::MetricName, AlarmColumn::Namespace, AlarmColumn::Statistic, AlarmColumn::Period, AlarmColumn::Resource, AlarmColumn::Dimensions, AlarmColumn::Expression, AlarmColumn::Type, AlarmColumn::CrossAccount]
    }

    /// The translation key of the column.
    pub fn id(&self) -> (r: ColumnId)
        ensures
            r@ == self.key(),
    {
        match self {
            AlarmColumn::Name => "column.cw.alarm.name",
            AlarmColumn::State => "column.cw.alarm.state",
            AlarmColumn::LastStateUpdate => "column.cw.alarm.last_state_update",
            AlarmColumn::Description => "column.cw.alarm.description",
            AlarmColumn::Conditions => "column.cw.alarm.conditions",
            AlarmColumn::Actions => "column.cw.alarm.actions",
            AlarmColumn::StateDetails => "column.cw.alarm.state_details",
            AlarmColumn::MetricName => "column.cw.alarm.metric_name",
            AlarmColumn::Namespace => "column.cw.alarm.namespace",
            AlarmColumn::Statistic => "column.cw.alarm.statistic",
            AlarmColumn::Period => "column.cw.alarm.period",
            AlarmColumn::Resource => "column.cw.alarm.resource",
            AlarmColumn::Dimensions => "column.cw.alarm.dimensions",
            AlarmColumn::Expression => "column.cw.alarm.expression",
            AlarmColumn::Type => "column.cw.alarm.type",
            AlarmColumn::CrossAccount => "column.cw.alarm.cross_account",
        }
    }

    /// The label of the column when no translation replaces it.
    pub fn default_name(&self) -> (r: &'static str)
        ensures
            r@ == self.default_label(),
    {
        match self {
            AlarmColumn::Name => "Name",
            AlarmColumn::State => "State",
            AlarmColumn::LastStateUpdate => "Last state update",
            AlarmColumn::Description => "Description",
            AlarmColumn::Conditions => "Conditions",
            AlarmColumn::Actions => "Actions",
            AlarmColumn::StateDetails => "State details",
            AlarmColumn::MetricName => "Metric name",
            AlarmColumn::Namespace => "Namespace",
            AlarmColumn::Statistic => "Statistic",
            AlarmColumn::Period => "Period",
            AlarmColumn::Resource => "Resource",
            AlarmColumn::Dimensions => "Dimensions",
            AlarmColumn::Expression => "Expression",
            AlarmColumn::Type => "Type",
            AlarmColumn::CrossAccount => "Cross-account",
        }
    }

    /// The label of the column: its translation, else its default label.
    pub fn name(&self, tr: &Translations) -> (r: String)
        ensures
            r@ == translated_label(tr.entries@, self.key(), self.default_label()),
    {
        tr.translate_column(self.id(), self.default_name())
    }

    /// The display width of the column.
    pub fn width(&self) -> (r: u16)
        ensures
            r == self.width_of(),
    {
        match self {
            AlarmColumn::Name => 30,
            AlarmColumn::State => 15,
            AlarmColumn::LastStateUpdate => UTC_TIMESTAMP_WIDTH,
            AlarmColumn::Description => 40,
            AlarmColumn::Conditions => 30,
            AlarmColumn::Actions => 20,
            AlarmColumn::StateDetails => 30,
            AlarmColumn::MetricName => 25,
            AlarmColumn::Namespace => 20,
            AlarmColumn::Statistic => 15,
            AlarmColumn::Period => 10,
            AlarmColumn::Resource => 25,
            AlarmColumn::Dimensions => 25,
            AlarmColumn::Expression => 30,
            AlarmColumn::Type => 15,
            AlarmColumn::CrossAccount => 15,
        }
    }

    /// The column whose key is `id`, if any.
    pub fn from_id(id: &str) -> (r: Option<Self>)
        ensures
            r == Self::with_key(id@),
    {
        if str_eq(id, "column.cw.alarm.name") {
            Some(AlarmColumn::Name)
        } else if str_eq(id, "column.cw.alarm.state") {
            Some(AlarmColumn::State)
        } else if str_eq(id, "column.cw.alarm.last_state_update") {
            Some(AlarmColumn::LastStateUpdate)
        } else if str_eq(id, "column.cw.alarm.description") {
            Some(AlarmColumn::Description)
        } else if str_eq(id, "column.cw.alarm.conditions") {
            Some(AlarmColumn::Conditions)
        } else if str_eq(id, "column.cw.alarm.actions") {
            Some(AlarmColumn::Actions)
        } else if str_eq(id, "column.cw.alarm.state_details") {
            Some(AlarmColumn::StateDetails)
        } else if str_eq(id, "column.cw.alarm.metric_name") {
            Some(AlarmColumn::MetricName)
        } else if str_eq(id, "column.cw.alarm.namespace") {
            Some(AlarmColumn::Namespace)
        } else if str_eq(id, "column.cw.alarm.statistic") {
            Some(AlarmColumn::Statistic)
        } else if str_eq(id, "column.cw.alarm.period") {
            Some(AlarmColumn::Period)
        } else if str_eq(id, "column.cw.alarm.resource") {
            Some(AlarmColumn::Resource)
        } else if str_eq(id, "column.cw.alarm.dimensions") {
            Some(AlarmColumn::Dimensions)
        } else if str_eq(id, "column.cw.alarm.expression") {
            Some(AlarmColumn::Expression)
        } else if str_eq(id, "column.cw.alarm.type") {
            Some(AlarmColumn::Type)
        } else if str_eq(id, "column.cw.alarm.cross_account") {
            Some(AlarmColumn::CrossAccount)
        } else {
            None
        }
    }

    /// Every column, in display order.
    pub fn all() -> (r: [Self; 16])
        ensures
            r@ == Self::every(),
    {
        let r = [AlarmColumn::Name, AlarmColumn::State, AlarmColumn::LastStateUpdate, AlarmColumn::Description, AlarmColumn::Conditions, AlarmColumn::Actions, AlarmColumn::StateDetails, AlarmColumn::MetricName, AlarmColumn::Namespace, AlarmColumn::Statistic, AlarmColumn::Period, AlarmColumn::Resource, AlarmColumn::Dimensions, AlarmColumn::Expression, AlarmColumn::Type, AlarmColumn::CrossAccount];
        assert(r@ =~= Self::every());
        r
    }

    /// The keys of every column, in display order.
    pub fn ids() -> (r: Vec<ColumnId>)
        ensures
            r@.len() == Self::every().len(),
            forall|i: int| 0 <= i < r@.len() ==> (#[trigger] r@[i])@ == Self::every()[i].key(),
    {
        let r: Vec<ColumnId> = vec!["column.cw.alarm.name", "column.cw.alarm.state", "column.cw.alarm.last_state_update", "column.cw.alarm.description", "column.cw.alarm.conditions", "column.cw.alarm.actions", "column.cw.alarm.state_details", "column.cw.alarm.metric_name", "column.cw.alarm.namespace", "column.cw.alarm.statistic", "column.cw.alarm.period", "column.cw.alarm.resource", "column.cw.alarm.dimensions", "column.cw.alarm.expression", "column.cw.alarm.type", "column.cw.alarm.cross_account"];
        assert forall|i: int| 0 <= i < r@.len() implies (#[trigger] r@[i])@ == Self::every()[i].key() by {
            assert(r@ =~= seq!["column.cw.alarm.name", "column.cw.alarm.state", "column.cw.alarm.last_state_update", "column.cw.alarm.description", "column.cw.alarm.conditions", "column.cw.alarm.actions", "column.cw.alarm.state_details", "column.cw.alarm.metric_name", "column.cw.alarm.namespace", "column.cw.alarm.statistic", "column.cw.alarm.period", "column.cw.alarm.resource", "column.cw.alarm.dimensions", "column.cw.alarm.expression", "column.cw.alarm.type", "column.cw.alarm.cross_account"]);
        }
        r
    }

    /// The keys of every column paired with their default labels.
    pub open spec fn default_pairs() -> (Seq<Seq<char>>, Seq<Seq<char>>) {
        (Self::every().map_values(|c: Self| c.key()), Self::every().map_values(|c: Self| c.default_label()))
    }

}

/// The console address of the alarm list in `view_mode`, `page_size` rows a
/// page, sorted by `sort_col` in direction `sort_dir`.
pub open spec fn alarms_address(
    region: Seq<char>,
    view_mode: Seq<char>,
    page_size: nat,
    sort_col: Seq<char>,
    sort_dir: Seq<char>,
) -> Seq<char> {
    "https://"@ + region + ".console.aws.amazon.com/cloudwatch/home?region="@ + region + "#alarmsV2:alarms/"@
        + view_mode + "/"@ + decimal(page_size) + "?~(sortingColumn~'"@ + sort_col + "~sortingDirection~'"@
        + sort_dir + ")"@
}

/// The console address of the alarm list.
pub fn console_url(region: &str, view_mode: &str, page_size: usize, sort_col: &str, sort_dir: &str) -> (r: String)
    ensures
        r@ == alarms_address(region@, view_mode@, page_size as nat, sort_col@, sort_dir@),
{
    let mut s = String::from_str("https://");
    s.append(region);
    s.append(".console.aws.amazon.com/cloudwatch/home?region=");
    s.append(region);
    s.append("#alarmsV2:alarms/");
    s.append(view_mode);
    s.append("/");
    push_decimal(&mut s, page_size as u64);
    s.append("?~(sortingColumn~'");
    s.append(sort_col);
    s.append("~sortingDirection~'");
    s.append(sort_dir);
    s.append(")");
    s
}

} // verus!

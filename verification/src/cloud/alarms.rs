//! CloudWatch alarms: the records the console shows and the client that reads them.
use vstd::prelude::*;
use vstd::string::*;
use crate::cloud::config::AwsConfig;
use crate::sort::is_permutation;
use crate::profile::{count_lead, lead_count};
use crate::text::{owned, starts_with_seq, str_eq, str_starts_with, to_upper, upper_case};
use crate::cloud::fsx::{owned_or_empty, text_of};
use crate::cloud::sqs::{owned_or, text_or};
use crate::timestamp::{civil_from_rfc3339, datetime_text, format_datetime, rfc3339_civil, UtcTime};

verus! {

/// One metric of a metric-math alarm.
#[derive(Clone, Debug)]
pub struct SubMetric {
    pub id: String,
    pub label: String,
    pub expression: Option<String>,
    pub namespace: Option<String>,
    pub metric_name: Option<String>,
    pub dimensions: Vec<(String, String)>,
    pub period: i32,
    pub stat: String,
    pub return_data: bool,
}

/// Client of CloudWatch alarms for one session.
pub struct AlarmsClient {
    config: AwsConfig,
}

impl AlarmsClient {
    /// A client for the session `config`.
    pub fn new(config: AwsConfig) -> (r: Self)
        ensures
            r.session() == config,
    {
        AlarmsClient { config }
    }

    /// The session of the client.
    pub closed spec fn session(&self) -> AwsConfig {
        self.config
    }

    /// The session of the client.
    pub fn config(&self) -> (r: &AwsConfig)
        ensures
            *r == self.session(),
    {
        &self.config
    }
}

/// An alarm as CloudWatch describes it, with the fields the views show; its
/// threshold is the bit pattern of the `f64` CloudWatch gives.
#[derive(Clone, Debug)]
pub struct AlarmData {
    pub name: String,
    pub state: String,
    pub state_updated: String,
    pub description: String,
    pub metric_name: String,
    pub namespace: String,
    pub statistic: String,
    pub period: u32,
    pub comparison: String,
    pub threshold: u64,
    pub actions_enabled: bool,
    pub state_reason: String,
    pub resource: String,
    pub dimensions: String,
    pub expression: String,
    pub alarm_type: String,
    pub cross_account: String,
    pub alarm_arn: String,
    pub datapoints_to_alarm: u32,
    pub evaluation_periods: u32,
    pub treat_missing_data: String,
    pub evaluate_low_sample_percentile: String,
    pub sub_metrics: Vec<SubMetric>,
}

/// A metric as CloudWatch describes it: namespace, name and dimensions
/// (optional names and values).
pub struct MetricDescription {
    pub namespace: Option<String>,
    pub metric_name: Option<String>,
    pub dimensions: Vec<(Option<String>, Option<String>)>,
}

/// The statistic of a metric that a query reads.
pub struct MetricStatDescription {
    pub metric: Option<MetricDescription>,
    pub period: Option<i32>,
    pub stat: Option<String>,
}

/// One query of a metric-math alarm as CloudWatch describes it.
pub struct MetricQueryDescription {
    pub id: Option<String>,
    pub label: Option<String>,
    pub expression: Option<String>,
    pub metric_stat: Option<MetricStatDescription>,
    pub period: Option<i32>,
    pub return_data: Option<bool>,
}

/// An alarm as CloudWatch describes it; enumerations by name, its state
/// update time written out in RFC 3339, its threshold as the bits of an `f64`.
pub struct AlarmDescription {
    pub alarm_name: Option<String>,
    pub state_value: Option<String>,
    pub state_updated_timestamp: Option<String>,
    pub alarm_description: Option<String>,
    pub metric_name: Option<String>,
    pub namespace: Option<String>,
    pub statistic: Option<String>,
    pub period: Option<i32>,
    pub comparison_operator: Option<String>,
    pub threshold: Option<u64>,
    pub actions_enabled: Option<bool>,
    pub state_reason: Option<String>,
    pub dimensions: Vec<(Option<String>, Option<String>)>,
    pub metrics: Vec<MetricQueryDescription>,
    pub alarm_arn: Option<String>,
    pub datapoints_to_alarm: Option<i32>,
    pub evaluation_periods: Option<i32>,
    pub treat_missing_data: Option<String>,
    pub evaluate_low_sample_count_percentile: Option<String>,
}

/// Dimensions as `name=value` separated by `, ` (missing names and values
/// read as empty).
pub open spec fn dimensions_text(d: Seq<(Option<String>, Option<String>)>) -> Seq<char>
    decreases d.len(),
{
    if d.len() == 0 {
        Seq::empty()
    } else {
        let one = text_of(d.last().0) + "="@ + text_of(d.last().1);
        if d.len() == 1 { one } else { dimensions_text(d.drop_last()) + ", "@ + one }
    }
}

fn format_dimensions(d: &Vec<(Option<String>, Option<String>)>) -> (r: String)
    ensures
        r@ == dimensions_text(d@),
{
    let mut s = String::new();
    let mut i: usize = 0;
    assert(d@.take(0) =~= Seq::<(Option<String>, Option<String>)>::empty());
    while i < d.len()
        invariant
            i <= d@.len(),
            s@ == dimensions_text(d@.take(i as int)),
        decreases d@.len() - i,
    {
        assert(d@.take(i + 1).drop_last() =~= d@.take(i as int));
        if i > 0 {
            s.append(", ");
        }
        let name = owned_or_empty(&d[i].0);
        let value = owned_or_empty(&d[i].1);
        s.append(name.as_str());
        s.append("=");
        s.append(value.as_str());
        i = i + 1;
    }
    assert(d@.take(d@.len() as int) =~= d@);
    s
}

/// Pairs of strings as pairs of texts.
pub open spec fn pair_views(s: Seq<(String, String)>) -> Seq<(Seq<char>, Seq<char>)> {
    s.map_values(|p: (String, String)| (p.0@, p.1@))
}

/// Dimensions as pairs, missing names and values read as empty.
pub open spec fn dimension_pairs(d: Seq<(Option<String>, Option<String>)>) -> Seq<(Seq<char>, Seq<char>)> {
    d.map_values(|p: (Option<String>, Option<String>)| (text_of(p.0), text_of(p.1)))
}

/// `m` is the sub-metric of query `q`: a query reading a metric's statistic
/// gives its namespace, name and dimensions, its period (60 when not given)
/// and its statistic (`Average` when not given); an expression query gives
/// no metric, no dimensions, its own period (60 when not given) and no
/// statistic.
pub open spec fn is_sub_metric_of(m: SubMetric, q: MetricQueryDescription) -> bool {
    &&& m.id@ == text_of(q.id)
    &&& m.label@ == text_of(q.label)
    &&& m.expression == q.expression
    &&& m.return_data == (q.return_data == Some(true))
    &&& match q.metric_stat {
        Some(ms) => {
            &&& m.namespace is Some && m.namespace.unwrap()@ == (match ms.metric {
                Some(mt) => text_of(mt.namespace),
                None => Seq::empty(),
            })
            &&& m.metric_name is Some && m.metric_name.unwrap()@ == (match ms.metric {
                Some(mt) => text_of(mt.metric_name),
                None => Seq::empty(),
            })
            &&& pair_views(m.dimensions@) == (match ms.metric {
                Some(mt) => dimension_pairs(mt.dimensions@),
                None => Seq::empty(),
            })
            &&& m.period == (match ms.period { Some(p) => p, None => 60 })
            &&& m.stat@ == text_or(ms.stat, "Average"@)
        },
        None => {
            &&& m.namespace is None
            &&& m.metric_name is None
            &&& m.dimensions@.len() == 0
            &&& m.period == (match q.period { Some(p) => p, None => 60 })
            &&& m.stat@.len() == 0
        },
    }
}

fn dimension_list(d: &Vec<(Option<String>, Option<String>)>) -> (r: Vec<(String, String)>)
    ensures
        pair_views(r@) == dimension_pairs(d@),
{
    let mut out: Vec<(String, String)> = Vec::new();
    let mut i: usize = 0;
    while i < d.len()
        invariant
            i <= d@.len(),
            out@.len() == i,
            forall|k: int| 0 <= k < i ==> (#[trigger] out@[k]).0@ == text_of(d@[k].0) && out@[k].1@ == text_of(d@[k].1),
        decreases d@.len() - i,
    {
        out.push((owned_or_empty(&d[i].0), owned_or_empty(&d[i].1)));
        i = i + 1;
    }
    assert(pair_views(out@) =~= dimension_pairs(d@));
    out
}

/// The sub-metric of query `q`.
pub fn sub_metric_from(q: &MetricQueryDescription) -> (r: SubMetric)
    ensures
        is_sub_metric_of(r, *q),
{
    let (namespace, metric_name, dimensions, period, stat) = match &q.metric_stat {
        Some(ms) => {
            let (ns, mn, dims) = match &ms.metric {
                Some(mt) => (owned_or_empty(&mt.namespace), owned_or_empty(&mt.metric_name), dimension_list(&mt.dimensions)),
                None => {
                    let empty: Vec<(String, String)> = Vec::new();
                    assert(pair_views(empty@) =~= Seq::<(Seq<char>, Seq<char>)>::empty());
                    (String::new(), String::new(), empty)
                },
            };
            (Some(ns), Some(mn), dims, match ms.period { Some(p) => p, None => 60 }, owned_or(&ms.stat, "Average"))
        },
        None => (None, None, Vec::new(), match q.period { Some(p) => p, None => 60 }, String::new()),
    };
    SubMetric {
        id: owned_or_empty(&q.id),
        label: owned_or_empty(&q.label),
        expression: match &q.expression {
            Some(e) => Some(e.clone()),
            None => None,
        },
        namespace,
        metric_name,
        dimensions,
        period,
        stat,
        return_data: match q.return_data {
            Some(true) => true,
            _ => false,
        },
    }
}

/// The time an alarm's state changed as `YYYY-MM-DD HH:MM:SS`; a time that
/// does not parse reads as `now`; empty when there is none.
pub open spec fn state_updated_text(t: Option<String>, now: UtcTime) -> Seq<char> {
    match t {
        Some(s) => match rfc3339_civil(s@) {
            Some(c) => datetime_text(c),
            None => datetime_text(now),
        },
        None => Seq::empty(),
    }
}

/// `a` is the alarm CloudWatch describes as `d`, its state-change time read
/// at `now` when it does not parse: a missing state reads
/// `INSUFFICIENT_DATA`, missing counts 0; an alarm with metric queries is a
/// metric-math alarm.
pub open spec fn is_alarm_of(a: AlarmData, d: AlarmDescription, now: UtcTime) -> bool {
    let math = d.metrics@.len() > 0;
    &&& a.name@ == text_of(d.alarm_name)
    &&& a.state@ == text_or(d.state_value, "INSUFFICIENT_DATA"@)
    &&& a.state_updated@ == state_updated_text(d.state_updated_timestamp, now)
    &&& a.description@ == text_of(d.alarm_description)
    &&& a.metric_name@ == text_of(d.metric_name)
    &&& a.namespace@ == text_of(d.namespace)
    &&& a.statistic@ == text_of(d.statistic)
    &&& a.period == (match d.period { Some(p) => p as u32, None => 0 })
    &&& a.comparison@ == text_of(d.comparison_operator)
    &&& a.threshold == (match d.threshold { Some(t) => t, None => 0 })
    &&& a.actions_enabled == (d.actions_enabled == Some(true))
    &&& a.state_reason@ == text_of(d.state_reason)
    &&& a.resource@ == dimensions_text(d.dimensions@)
    &&& a.dimensions@ == dimensions_text(d.dimensions@)
    &&& a.expression@ == (if math { "Expression"@ } else { Seq::empty() })
    &&& a.alarm_type@ == (if math { "Metric math"@ } else { "Metric"@ })
    &&& a.cross_account@.len() == 0
    &&& a.alarm_arn@ == text_of(d.alarm_arn)
    &&& a.datapoints_to_alarm == (match d.datapoints_to_alarm { Some(p) => p as u32, None => 0 })
    &&& a.evaluation_periods == (match d.evaluation_periods { Some(p) => p as u32, None => 0 })
    &&& a.treat_missing_data@ == text_of(d.treat_missing_data)
    &&& a.evaluate_low_sample_percentile@ == text_of(d.evaluate_low_sample_count_percentile)
    &&& a.sub_metrics@.len() == d.metrics@.len()
    &&& forall|i: int| 0 <= i < d.metrics@.len() ==> is_sub_metric_of(#[trigger] a.sub_metrics@[i], d.metrics@[i])
}

/// The time an alarm's state changed, once its text was read: the time read
/// as `YYYY-MM-DD HH:MM:SS`, or `now` when the text did not parse.
pub fn updated_time_from(parsed: Option<UtcTime>, now: &UtcTime) -> (r: String)
    ensures
        r@ == (match parsed {
            Some(c) => datetime_text(c),
            None => datetime_text(*now),
        }),
{
    match parsed {
        Some(c) => format_datetime(&c),
        None => format_datetime(now),
    }
}

/// The alarm CloudWatch describes as `d`; `now` stands for a state-change
/// time that does not parse.
pub fn alarm_from(d: &AlarmDescription, now: &UtcTime) -> (r: AlarmData)
    ensures
        is_alarm_of(r, *d, *now),
{
    let state_updated = match &d.state_updated_timestamp {
        Some(t) => updated_time_from(civil_from_rfc3339(t.as_str()), now),
        None => String::new(),
    };
    let math = d.metrics.len() > 0;
    let mut subs: Vec<SubMetric> = Vec::new();
    let mut i: usize = 0;
    while i < d.metrics.len()
        invariant
            i <= d.metrics@.len(),
            subs@.len() == i,
            forall|k: int| 0 <= k < i ==> is_sub_metric_of(#[trigger] subs@[k], d.metrics@[k]),
        decreases d.metrics@.len() - i,
    {
        subs.push(sub_metric_from(&d.metrics[i]));
        i = i + 1;
    }
    AlarmData {
        name: owned_or_empty(&d.alarm_name),
        state: owned_or(&d.state_value, "INSUFFICIENT_DATA"),
        state_updated,
        description: owned_or_empty(&d.alarm_description),
        metric_name: owned_or_empty(&d.metric_name),
        namespace: owned_or_empty(&d.namespace),
        statistic: owned_or_empty(&d.statistic),
        period: match d.period { Some(p) => p as u32, None => 0 },
        comparison: owned_or_empty(&d.comparison_operator),
        threshold: match d.threshold { Some(t) => t, None => 0 },
        actions_enabled: match d.actions_enabled {
            Some(true) => true,
            _ => false,
        },
        state_reason: owned_or_empty(&d.state_reason),
        resource: format_dimensions(&d.dimensions),
        dimensions: format_dimensions(&d.dimensions),
        expression: if math { String::from_str("Expression") } else { String::new() },
        alarm_type: if math { String::from_str("Metric math") } else { String::from_str("Metric") },
        cross_account: String::new(),
        alarm_arn: owned_or_empty(&d.alarm_arn),
        datapoints_to_alarm: match d.datapoints_to_alarm { Some(p) => p as u32, None => 0 },
        evaluation_periods: match d.evaluation_periods { Some(p) => p as u32, None => 0 },
        treat_missing_data: owned_or_empty(&d.treat_missing_data),
        evaluate_low_sample_percentile: owned_or_empty(&d.evaluate_low_sample_count_percentile),
        sub_metrics: subs,
    }
}

/// The alarms CloudWatch describes, in the order it lists them.
pub fn alarms_from(descriptions: &Vec<AlarmDescription>, now: &UtcTime) -> (r: Vec<AlarmData>)
    ensures
        r@.len() == descriptions@.len(),
        forall|i: int| 0 <= i < r@.len() ==> is_alarm_of(#[trigger] r@[i], descriptions@[i], *now),
{
    let mut out: Vec<AlarmData> = Vec::new();
    let mut i: usize = 0;
    while i < descriptions.len()
        invariant
            i <= descriptions@.len(),
            out@.len() == i,
            forall|k: int| 0 <= k < i ==> is_alarm_of(#[trigger] out@[k], descriptions@[k], *now),
        decreases descriptions@.len() - i,
    {
        out.push(alarm_from(&descriptions[i], now));
        i = i + 1;
    }
    out
}


/// What a query of a metric-math request asks for.
pub enum QueryKind {
    /// A metric-math or Metrics Insights expression over a period.
    Expression { expression: String, period: i32 },
    /// A statistic of a metric over a period.
    Stat { namespace: String, metric_name: String, dimensions: Vec<(String, String)>, period: i32, stat: String },
}

/// One query of a metric-math request.
pub struct MetricQueryPlan {
    pub id: String,
    pub return_data: bool,
    pub kind: QueryKind,
}

/// The period of the first sub-metric that has one.
pub open spec fn default_period(sms: Seq<SubMetric>) -> Option<i32>
    decreases sms.len(),
{
    if sms.len() == 0 {
        None
    } else if sms[0].period > 0 {
        Some(sms[0].period)
    } else {
        default_period(sms.drop_first())
    }
}

/// The id of the first sub-metric that satisfies `expression_only ? has an
/// expression : returns data`.
pub open spec fn first_id(sms: Seq<SubMetric>, expression_only: bool) -> Option<Seq<char>>
    decreases sms.len(),
{
    if sms.len() == 0 {
        None
    } else if (expression_only && sms[0].expression is Some) || (!expression_only && sms[0].return_data) {
        Some(sms[0].id@)
    } else {
        first_id(sms.drop_first(), expression_only)
    }
}

/// The sub-metric whose data is shown: the first that returns data, else the
/// first expression.
pub open spec fn visible_id(sms: Seq<SubMetric>) -> Option<Seq<char>> {
    match first_id(sms, false) {
        Some(i) => Some(i),
        None => first_id(sms, true),
    }
}

/// Whether an expression is a Metrics Insights query: once its leading white
/// space is dropped and it is upper-cased, it starts with `SELECT`.
pub open spec fn is_insights(expr: Seq<char>) -> bool {
    starts_with_seq(upper_case(expr.subrange(lead_count(expr, ' ', true) as int, expr.len() as int)), "SELECT"@)
}

/// Whether a sub-metric becomes a query: it has an expression, or a
/// namespace and a metric name that are both non-empty.
pub open spec fn queried(sm: SubMetric) -> bool {
    ||| sm.expression is Some
    ||| (sm.namespace is Some && sm.metric_name is Some && sm.namespace.unwrap()@.len() > 0
        && sm.metric_name.unwrap()@.len() > 0)
}

/// The period of an expression query: its own, else that of the first
/// sub-metric that has one, else 300 seconds for a Metrics Insights query and
/// 60 for metric math.
pub open spec fn expression_period(sm: SubMetric, sms: Seq<SubMetric>) -> i32 {
    if sm.period > 0 {
        sm.period
    } else {
        match default_period(sms) {
            Some(p) => p,
            None => if is_insights(sm.expression.unwrap()@) { 300 } else { 60 },
        }
    }
}

/// `p` is the query of sub-metric `sm` among `sms`: it returns data when `sm`
/// does or is the visible one.
pub open spec fn is_query_of(p: MetricQueryPlan, sm: SubMetric, sms: Seq<SubMetric>) -> bool {
    &&& p.id@ == sm.id@
    &&& p.return_data == (sm.return_data || visible_id(sms) == Some(sm.id@))
    &&& match sm.expression {
        Some(e) => p.kind matches QueryKind::Expression { expression, period }
            && expression@ == e@ && period == expression_period(sm, sms),
        None => p.kind matches QueryKind::Stat { namespace, metric_name, dimensions, period, stat }
            && namespace@ == sm.namespace.unwrap()@ && metric_name@ == sm.metric_name.unwrap()@
            && dimensions@ == sm.dimensions@ && period == sm.period && stat@ == sm.stat@,
    }
}

/// The sub-metrics of `sms` that become queries, in order.
pub open spec fn queried_subs(sms: Seq<SubMetric>) -> Seq<SubMetric>
    decreases sms.len(),
{
    if sms.len() == 0 {
        Seq::empty()
    } else if queried(sms.last()) {
        queried_subs(sms.drop_last()).push(sms.last())
    } else {
        queried_subs(sms.drop_last())
    }
}

fn default_period_exec(sms: &Vec<SubMetric>) -> (r: Option<i32>)
    ensures
        r == default_period(sms@),
{
    let mut i: usize = 0;
    assert(sms@.skip(0) =~= sms@);
    while i < sms.len()
        invariant
            i <= sms@.len(),
            default_period(sms@) == default_period(sms@.skip(i as int)),
        decreases sms@.len() - i,
    {
        assert(sms@.skip(i as int)[0] == sms@[i as int]);
        assert(sms@.skip(i as int).drop_first() =~= sms@.skip(i + 1));
        if sms[i].period > 0 {
            return Some(sms[i].period);
        }
        i = i + 1;
    }
    None
}

fn first_id_exec(sms: &Vec<SubMetric>, expression_only: bool) -> (r: Option<String>)
    ensures
        match r {
            Some(t) => first_id(sms@, expression_only) == Some(t@),
            None => first_id(sms@, expression_only) is None,
        },
{
    let mut i: usize = 0;
    assert(sms@.skip(0) =~= sms@);
    while i < sms.len()
        invariant
            i <= sms@.len(),
            first_id(sms@, expression_only) == first_id(sms@.skip(i as int), expression_only),
        decreases sms@.len() - i,
    {
        assert(sms@.skip(i as int)[0] == sms@[i as int]);
        assert(sms@.skip(i as int).drop_first() =~= sms@.skip(i + 1));
        let hit = if expression_only { sms[i].expression.is_some() } else { sms[i].return_data };
        if hit {
            return Some(sms[i].id.clone());
        }
        i = i + 1;
    }
    None
}

/// The id of the sub-metric whose data is shown.
pub fn visible_query_id(sms: &Vec<SubMetric>) -> (r: Option<String>)
    ensures
        match r {
            Some(t) => visible_id(sms@) == Some(t@),
            None => visible_id(sms@) is None,
        },
{
    match first_id_exec(sms, false) {
        Some(i) => Some(i),
        None => first_id_exec(sms, true),
    }
}

fn insights_exec(expr: &str) -> (r: bool)
    ensures
        r == is_insights(expr@),
{
    let a = count_lead(expr, ' ', true);
    let rest = expr.substring_char(a, expr.unicode_len());
    let up = to_upper(rest);
    str_starts_with(up.as_str(), "SELECT")
}

fn clone_dimensions(v: &Vec<(String, String)>) -> (r: Vec<(String, String)>)
    ensures
        r@ == v@,
{
    let mut out: Vec<(String, String)> = Vec::new();
    let mut i: usize = 0;
    while i < v.len()
        invariant
            i <= v@.len(),
            out@ == v@.take(i as int),
        decreases v@.len() - i,
    {
        out.push((v[i].0.clone(), v[i].1.clone()));
        assert(v@.take(i + 1) =~= v@.take(i as int).push(v@[i as int]));
        i = i + 1;
    }
    assert(v@.take(i as int) =~= v@);
    out
}

/// The queries of a metric-math request for the sub-metrics of an alarm, in
/// their order: an expression with its period, or a statistic of a named
/// metric; sub-metrics that are neither are left out.
pub fn metric_queries(sms: &Vec<SubMetric>) -> (r: Vec<MetricQueryPlan>)
    ensures
        r@.len() == queried_subs(sms@).len(),
        forall|i: int| 0 <= i < r@.len() ==> is_query_of(#[trigger] r@[i], queried_subs(sms@)[i], sms@),
{
    let dp = default_period_exec(sms);
    let visible = visible_query_id(sms);
    let mut out: Vec<MetricQueryPlan> = Vec::new();
    let mut i: usize = 0;
    assert(sms@.take(0) =~= Seq::<SubMetric>::empty());
    while i < sms.len()
        invariant
            i <= sms@.len(),
            dp == default_period(sms@),
            match visible {
                Some(t) => visible_id(sms@) == Some(t@),
                None => visible_id(sms@) is None,
            },
            out@.len() == queried_subs(sms@.take(i as int)).len(),
            forall|k: int| 0 <= k < out@.len() ==> is_query_of(#[trigger] out@[k], queried_subs(sms@.take(i as int))[k], sms@),
        decreases sms@.len() - i,
    {
        let sm = &sms[i];
        assert(sms@.take(i + 1).drop_last() =~= sms@.take(i as int));
        assert(sms@.take(i + 1).last() == *sm);
        let force = match &visible {
            Some(v) => str_eq(v.as_str(), sm.id.as_str()),
            None => false,
        };
        let kind = match &sm.expression {
            Some(e) => {
                let p = if sm.period > 0 {
                    sm.period
                } else {
                    match dp {
                        Some(p) => p,
                        None => if insights_exec(e.as_str()) { 300 } else { 60 },
                    }
                };
                Some(QueryKind::Expression { expression: e.clone(), period: p })
            },
            None => match (&sm.namespace, &sm.metric_name) {
                (Some(ns), Some(mn)) => {
                    if ns.as_str().unicode_len() == 0 || mn.as_str().unicode_len() == 0 {
                        None
                    } else {
                        Some(QueryKind::Stat {
                            namespace: ns.clone(),
                            metric_name: mn.clone(),
                            dimensions: clone_dimensions(&sm.dimensions),
                            period: sm.period,
                            stat: sm.stat.clone(),
                        })
                    }
                },
                _ => None,
            },
        };
        match kind {
            Some(k) => {
                let plan = MetricQueryPlan { id: sm.id.clone(), return_data: sm.return_data || force, kind: k };
                assert(is_query_of(plan, *sm, sms@));
                out.push(plan);
            },
            None => {},
        }
        i = i + 1;
    }
    assert(sms@.take(i as int) =~= sms@);
    out
}

/// The id of a result as text, absent when it has none.
pub open spec fn result_id(id: Option<String>) -> Option<Seq<char>> {
    match id {
        Some(s) => Some(s@),
        None => None,
    }
}

/// Whether a sub-metric of that id returns data.
pub open spec fn returns_data(sms: Seq<SubMetric>, id: Seq<char>) -> bool {
    exists|k: int| 0 <= k < sms.len() && #[trigger] sms[k].return_data && sms[k].id@ == id
}

/// Whether result `k` is the one shown first-hand: its id is the visible
/// one (both may be absent).
pub open spec fn is_visible_result(ids: Seq<Option<String>>, sms: Seq<SubMetric>, k: int) -> bool {
    result_id(ids[k]) == visible_id(sms)
}

/// Whether result `k` belongs to a sub-metric that returns data (a result
/// without an id counting as the empty id).
pub open spec fn is_returning_result(ids: Seq<Option<String>>, sms: Seq<SubMetric>, k: int) -> bool {
    returns_data(sms, match ids[k] { Some(s) => s@, None => Seq::<char>::empty() })
}

/// Which result of a metric-math request is shown: the first whose id is the
/// visible one, else the first of a sub-metric that returns data, else the
/// first; none when there are no results.
pub open spec fn is_shown_result(ids: Seq<Option<String>>, sms: Seq<SubMetric>, r: Option<int>) -> bool {
    if exists|k: int| 0 <= k < ids.len() && #[trigger] is_visible_result(ids, sms, k) {
        r matches Some(k) && 0 <= k < ids.len() && is_visible_result(ids, sms, k)
            && forall|j: int| 0 <= j < k ==> !#[trigger] is_visible_result(ids, sms, j)
    } else if exists|k: int| 0 <= k < ids.len() && #[trigger] is_returning_result(ids, sms, k) {
        r matches Some(k) && 0 <= k < ids.len() && is_returning_result(ids, sms, k)
            && forall|j: int| 0 <= j < k ==> !#[trigger] is_returning_result(ids, sms, j)
    } else if ids.len() > 0 {
        r == Some(0int)
    } else {
        r is None
    }
}

fn returns_data_exec(sms: &Vec<SubMetric>, id: &str) -> (r: bool)
    ensures
        r == returns_data(sms@, id@),
{
    let mut i: usize = 0;
    while i < sms.len()
        invariant
            i <= sms@.len(),
            forall|k: int| 0 <= k < i ==> !(#[trigger] sms@[k].return_data && sms@[k].id@ == id@),
        decreases sms@.len() - i,
    {
        if sms[i].return_data && str_eq(sms[i].id.as_str(), id) {
            return true;
        }
        i = i + 1;
    }
    false
}

/// The position of the result of a metric-math request that is shown, given
/// the ids of the results in their order.
pub fn shown_result(ids: &Vec<Option<String>>, sms: &Vec<SubMetric>) -> (r: Option<usize>)
    ensures
        is_shown_result(ids@, sms@, match r { Some(k) => Some(k as int), None => None }),
{
    let visible = visible_query_id(sms);
    let mut i: usize = 0;
    while i < ids.len()
        invariant
            i <= ids@.len(),
            match visible {
                Some(t) => visible_id(sms@) == Some(t@),
                None => visible_id(sms@) is None,
            },
            forall|j: int| 0 <= j < i ==> !#[trigger] is_visible_result(ids@, sms@, j),
        decreases ids@.len() - i,
    {
        let hit = match (&visible, &ids[i]) {
            (Some(v), Some(id)) => str_eq(v.as_str(), id.as_str()),
            (None, None) => true,
            _ => false,
        };
        assert(hit == is_visible_result(ids@, sms@, i as int));
        if hit {
            return Some(i);
        }
        i = i + 1;
    }
    let mut j: usize = 0;
    while j < ids.len()
        invariant
            j <= ids@.len(),
            !exists|k: int| 0 <= k < ids@.len() && #[trigger] is_visible_result(ids@, sms@, k),
            forall|k: int| 0 <= k < j ==> !#[trigger] is_returning_result(ids@, sms@, k),
        decreases ids@.len() - j,
    {
        proof {
            reveal_strlit("");
        }
        assert(""@ =~= Seq::<char>::empty());
        let hit = match &ids[j] {
            Some(id) => returns_data_exec(sms, id.as_str()),
            None => returns_data_exec(sms, ""),
        };
        assert(hit == is_returning_result(ids@, sms@, j as int));
        if hit {
            return Some(j);
        }
        j = j + 1;
    }
    if ids.len() > 0 { Some(0) } else { None }
}


/// Which statistic of a datapoint a statistics request reads.
#[derive(Clone, Copy, Debug, PartialEq, Eq, Structural)]
pub enum StatisticField {
    Average,
    Sum,
    Minimum,
    Maximum,
    SampleCount,
}

/// The statistic of a datapoint that a statistics request named `statistic`
/// reads: the one of that name, the average for any other name.
pub open spec fn statistic_field_of(statistic: Seq<char>) -> StatisticField {
    if statistic == "Sum"@ {
        StatisticField::Sum
    } else if statistic == "Minimum"@ {
        StatisticField::Minimum
    } else if statistic == "Maximum"@ {
        StatisticField::Maximum
    } else if statistic == "SampleCount"@ {
        StatisticField::SampleCount
    } else {
        StatisticField::Average
    }
}

/// The statistic of a datapoint that a statistics request reads.
pub fn statistic_field(statistic: &str) -> (r: StatisticField)
    ensures
        r == statistic_field_of(statistic@),
{
    if str_eq(statistic, "Sum") {
        StatisticField::Sum
    } else if str_eq(statistic, "Minimum") {
        StatisticField::Minimum
    } else if str_eq(statistic, "Maximum") {
        StatisticField::Maximum
    } else if str_eq(statistic, "SampleCount") {
        StatisticField::SampleCount
    } else {
        StatisticField::Average
    }
}

/// The timestamps of `s` never go down.
pub open spec fn by_time(s: Seq<(i64, u64)>) -> bool {
    forall|i: int, j: int| 0 <= i < j < s.len() ==> #[trigger] s[i].0 <= #[trigger] s[j].0
}

/// `r` is `v` reordered by `perm` (the point at position `i` of `r` is the
/// one at position `perm[i]` of `v`), points of the same time keeping their
/// order in `v`.
pub open spec fn points_reordered(r: Seq<(i64, u64)>, v: Seq<(i64, u64)>, perm: Seq<int>) -> bool {
    &&& is_permutation(perm, v.len())
    &&& r.len() == v.len()
    &&& forall|i: int| 0 <= i < r.len() ==> #[trigger] r[i] == v[perm[i]]
    &&& forall|i: int, j: int| 0 <= i < j < r.len() && r[i].0 == r[j].0 ==> #[trigger] perm[i] < #[trigger] perm[j]
}

spec fn points_partial(out: Seq<(i64, u64)>, orig: Seq<(i64, u64)>, perm: Seq<int>, i: int) -> bool {
    &&& perm.len() == out.len() == i
    &&& forall|k: int| 0 <= k < perm.len() ==> 0 <= #[trigger] perm[k] < i
    &&& forall|a: int, b: int| 0 <= a < b < perm.len() ==> #[trigger] perm[a] != #[trigger] perm[b]
    &&& forall|k: int| 0 <= k < out.len() ==> #[trigger] out[k] == orig[perm[k]]
    &&& forall|a: int, b: int| 0 <= a < b < out.len() && out[a].0 == out[b].0 ==> #[trigger] perm[a] < #[trigger] perm[b]
}

proof fn lemma_points_insert(before: Seq<(i64, u64)>, orig: Seq<(i64, u64)>, perm: Seq<int>, i: int, p: int)
    requires
        points_partial(before, orig, perm, i),
        0 <= i < orig.len(),
        0 <= p <= before.len(),
        forall|k: int| p <= k < before.len() ==> #[trigger] before[k].0 != orig[i].0,
    ensures
        points_partial(before.insert(p, orig[i]), orig, perm.insert(p, i), i + 1),
{
    let out = before.insert(p, orig[i]);
    let np = perm.insert(p, i);
    assert forall|k: int| 0 <= k < np.len() implies 0 <= #[trigger] np[k] < i + 1 by {
        if k < p {
            assert(np[k] == perm[k]);
        } else if k > p {
            assert(np[k] == perm[k - 1]);
        }
    }
    assert forall|a: int, b: int| 0 <= a < b < np.len() implies #[trigger] np[a] != #[trigger] np[b] by {
        if a < p && b < p {
            assert(np[a] == perm[a] && np[b] == perm[b]);
        } else if a < p && b == p {
            assert(np[a] == perm[a]);
        } else if a < p {
            assert(np[a] == perm[a] && np[b] == perm[b - 1]);
        } else if a == p {
            assert(np[b] == perm[b - 1]);
        } else {
            assert(np[a] == perm[a - 1] && np[b] == perm[b - 1]);
        }
    }
    assert forall|k: int| 0 <= k < out.len() implies #[trigger] out[k] == orig[np[k]] by {
        if k < p {
            assert(out[k] == before[k] && np[k] == perm[k]);
        } else if k > p {
            assert(out[k] == before[k - 1] && np[k] == perm[k - 1]);
        }
    }
    assert forall|a: int, b: int| 0 <= a < b < out.len() && out[a].0 == out[b].0 implies #[trigger] np[a] < #[trigger] np[b] by {
        if a < p && b < p {
            assert(np[a] == perm[a] && np[b] == perm[b] && out[a] == before[a] && out[b] == before[b]);
        } else if a < p && b == p {
            assert(np[a] == perm[a]);
        } else if a < p {
            assert(np[a] == perm[a] && np[b] == perm[b - 1] && out[a] == before[a] && out[b] == before[b - 1]);
        } else if a == p {
            assert(out[b] == before[b - 1] && out[a] == orig[i]);
        } else {
            assert(np[a] == perm[a - 1] && np[b] == perm[b - 1] && out[a] == before[a - 1] && out[b] == before[b - 1]);
        }
    }
}

/// Points of a series (a time in seconds and a value, carried as the bits of
/// the float), oldest first; points of the same time keep their order (the
/// sort is stable).
pub fn sort_points(v: Vec<(i64, u64)>) -> (r: Vec<(i64, u64)>)
    ensures
        r@.to_multiset() == v@.to_multiset(),
        by_time(r@),
        exists|perm: Seq<int>| #[trigger] points_reordered(r@, v@, perm),
{
    broadcast use vstd::seq_lib::group_to_multiset_ensures;
    let n = v.len();
    let mut out: Vec<(i64, u64)> = Vec::new();
    let mut i: usize = 0;
    let ghost mut perm: Seq<int> = Seq::empty();
    assert(v@.take(0) =~= Seq::<(i64, u64)>::empty());
    while i < n
        invariant
            n == v@.len(),
            i <= n,
            out@.to_multiset() == v@.take(i as int).to_multiset(),
            by_time(out@),
            points_partial(out@, v@, perm, i as int),
        decreases n - i,
    {
        let x = v[i];
        let m = out.len();
        let mut p: usize = 0;
        while p < m && out[p].0 <= x.0
            invariant
                m == out@.len(),
                p <= m,
                forall|k: int| 0 <= k < p ==> #[trigger] out@[k].0 <= x.0,
            decreases m - p,
        {
            p = p + 1;
        }
        let ghost before = out@;
        proof {
            assert forall|k: int| p <= k < before.len() implies #[trigger] before[k].0 != v@[i as int].0 by {
                assert(before[p as int].0 > x.0);
                if k > p {
                    assert(before[p as int].0 <= before[k].0);
                }
            }
            lemma_points_insert(before, v@, perm, i as int, p as int);
        }
        out.insert(p, x);
        assert(out@ == before.insert(p as int, x));
        assert(v@.take(i + 1) =~= v@.take(i as int).push(v@[i as int]));
        proof {
            perm = perm.insert(p as int, i as int);
            vstd::seq_lib::to_multiset_insert(before, p as int, x);
            vstd::seq_lib::to_multiset_build(v@.take(i as int), v@[i as int]);
            assert forall|a: int, b: int| 0 <= a < b < out@.len() implies #[trigger] out@[a].0 <= #[trigger] out@[b].0 by {
                if a < p && b < p {
                    assert(out@[a] == before[a] && out@[b] == before[b]);
                } else if a < p && b == p {
                    assert(out@[a] == before[a]);
                } else if a < p && b > p {
                    assert(out@[a] == before[a] && out@[b] == before[b - 1]);
                } else if a == p {
                    assert(out@[b] == before[b - 1]);
                    assert(before[p as int].0 > x.0);
                } else {
                    assert(out@[a] == before[a - 1] && out@[b] == before[b - 1]);
                }
            }
        }
        i = i + 1;
    }
    assert(v@.take(n as int) =~= v@);
    assert(points_reordered(out@, v@, perm));
    out
}

} // verus!

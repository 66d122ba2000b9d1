//! CloudWatch Logs Insights: its state and the console address of a query.
use vstd::prelude::*;
use vstd::string::*;
use crate::text::push_char;

verus! {

/// The part of the Insights view that has the focus.
#[derive(Clone, Copy, Debug, PartialEq, Eq, Structural)]
pub enum InsightsFocus {
    QueryLanguage,
    DatePicker,
    LogGroupSearch,
    Query,
}

/// State of the Insights view.
pub struct InsightsState {
    pub insights_focus: InsightsFocus,
    pub show_dropdown: bool,
    pub log_group_matches: Vec<String>,
    pub dropdown_selected: usize,
    pub query_results: Vec<Vec<(String, String)>>,
    pub results_selected: usize,
    pub results_horizontal_scroll: usize,
    pub expanded_result: Option<usize>,
    pub query_completed: bool,
}

/// Wrapper of the Insights state as the application holds it.
pub struct State {
    pub insights: InsightsState,
}

/// How a character of a query is written in the console address.
pub open spec fn query_char_code(c: char) -> Seq<char> {
    if c == ' ' {
        "*20"@
    } else if c == '\n' {
        "*0a"@
    } else if c == '|' {
        "*7c"@
    } else if c == ',' {
        "*2c"@
    } else if c == '@' {
        "*40"@
    } else {
        seq![c]
    }
}

/// How a character of a log group name is written in the console address.
pub open spec fn group_char_code(c: char) -> Seq<char> {
    if c == '/' {
        "*2f"@
    } else if c == ':' {
        "*3a"@
    } else {
        seq![c]
    }
}

/// A query as the console address writes it.
pub open spec fn encoded_query(s: Seq<char>) -> Seq<char>
    decreases s.len(),
{
    if s.len() == 0 {
        Seq::empty()
    } else {
        encoded_query(s.drop_last()) + query_char_code(s.last())
    }
}

/// A log group name as the console address writes it.
pub open spec fn encoded_group(s: Seq<char>) -> Seq<char>
    decreases s.len(),
{
    if s.len() == 0 {
        Seq::empty()
    } else {
        encoded_group(s.drop_last()) + group_char_code(s.last())
    }
}

/// The log groups as query sources, separated by `~`.
pub open spec fn sources(region: Seq<char>, account_id: Seq<char>, groups: Seq<Seq<char>>) -> Seq<char>
    decreases groups.len(),
{
    if groups.len() == 0 {
        Seq::empty()
    } else {
        sources(region, account_id, groups.drop_last()) + (if groups.len() > 1 { "~"@ } else { Seq::empty() })
            + "~'arn*3aaws*3alogs*3a"@ + region + "*3a"@ + account_id + "*3alog-group*3a"@
            + encoded_group(groups.last())
    }
}

/// The query the console opens with when none is given.
pub open spec fn default_query_code() -> Seq<char> {
    "fields*20*40timestamp*2c*20*40message*2c*20*40logStream*2c*20*40log*0a*7c*20sort*20*40timestamp*20desc*0a*7c*20limit*2010000"@
}

/// The console address of an Insights query over the last hour.
pub open spec fn insights_address(
    region: Seq<char>,
    account_id: Seq<char>,
    query: Seq<char>,
    groups: Seq<Seq<char>>,
) -> Seq<char> {
    "https://"@ + region + ".console.aws.amazon.com/cloudwatch/home?region="@ + region
        + "#logsV2:logs-insights$3FqueryDetail$3D~(end~0~start~-3600~timeType~'RELATIVE~tz~'UTC~unit~'seconds"@
        + "~editorString~'"@
        + (if query.len() == 0 { default_query_code() } else { encoded_query(query) })
        + "~source~("@ + sources(region, account_id, groups) + ")"@ + "~lang~'CWLI)$26tab$3Dlogs"@
}

fn push_query_encoded(s: &mut String, text: &str)
    ensures
        final(s)@ == old(s)@ + encoded_query(text@),
{
    let n = text.unicode_len();
    let mut i: usize = 0;
    let ghost start = s@;
    while i < n
        invariant
            n == text@.len(),
            i <= n,
            s@ == start + encoded_query(text@.subrange(0, i as int)),
        decreases n - i,
    {
        let c = text.get_char(i);
        if c == ' ' {
            s.append("*20");
        } else if c == '\n' {
            s.append("*0a");
        } else if c == '|' {
            s.append("*7c");
        } else if c == ',' {
            s.append("*2c");
        } else if c == '@' {
            s.append("*40");
        } else {
            push_char(s, c);
        }
        assert(text@.subrange(0, i + 1).drop_last() =~= text@.subrange(0, i as int));
        assert(s@ =~= start + encoded_query(text@.subrange(0, i + 1)));
        i = i + 1;
    }
    assert(text@.subrange(0, n as int) =~= text@);
}

fn push_group_encoded(s: &mut String, text: &str)
    ensures
        final(s)@ == old(s)@ + encoded_group(text@),
{
    let n = text.unicode_len();
    let mut i: usize = 0;
    let ghost start = s@;
    while i < n
        invariant
            n == text@.len(),
            i <= n,
            s@ == start + encoded_group(text@.subrange(0, i as int)),
        decreases n - i,
    {
        let c = text.get_char(i);
        if c == '/' {
            s.append("*2f");
        } else if c == ':' {
            s.append("*3a");
        } else {
            push_char(s, c);
        }
        assert(text@.subrange(0, i + 1).drop_last() =~= text@.subrange(0, i as int));
        assert(s@ =~= start + encoded_group(text@.subrange(0, i + 1)));
        i = i + 1;
    }
    assert(text@.subrange(0, n as int) =~= text@);
}

/// The console address of an Insights query over the last hour on `log_groups`.
pub fn console_url(region: &str, account_id: &str, query: &str, log_groups: &[String]) -> (r: String)
    ensures
        r@ == insights_address(region@, account_id@, query@, log_groups@.map_values(|g: String| g@)),
{
    let mut url = String::from_str("https://");
    url.append(region);
    url.append(".console.aws.amazon.com/cloudwatch/home?region=");
    url.append(region);
    url.append("#logsV2:logs-insights$3FqueryDetail$3D~(end~0~start~-3600~timeType~'RELATIVE~tz~'UTC~unit~'seconds");
    url.append("~editorString~'");
    if query.unicode_len() != 0 {
        push_query_encoded(&mut url, query);
    } else {
        url.append("fields*20*40timestamp*2c*20*40message*2c*20*40logStream*2c*20*40log*0a*7c*20sort*20*40timestamp*20desc*0a*7c*20limit*2010000");
    }
    url.append("~source~(");
    let ghost groups = log_groups@.map_values(|g: String| g@);
    let ghost before = url@;
    let n = log_groups.len();
    let mut i: usize = 0;
    while i < n
        invariant
            n == log_groups@.len(),
            i <= n,
            groups == log_groups@.map_values(|g: String| g@),
            url@ == before + sources(region@, account_id@, groups.subrange(0, i as int)),
        decreases n - i,
    {
        if i > 0 {
            url.append("~");
        }
        url.append("~'arn*3aaws*3alogs*3a");
        url.append(region);
        url.append("*3a");
        url.append(account_id);
        url.append("*3alog-group*3a");
        push_group_encoded(&mut url, log_groups[i].as_str());
        assert(groups.subrange(0, i + 1).drop_last() =~= groups.subrange(0, i as int));
        assert(groups.subrange(0, i + 1).last() == log_groups@[i as int]@);
        assert(groups.subrange(0, i + 1).len() == i + 1);
        assert(url@ =~= before + sources(region@, account_id@, groups.subrange(0, i + 1)));
        i = i + 1;
    }
    assert(groups.subrange(0, n as int) =~= groups);
    url.append(")");
    url.append("~lang~'CWLI)$26tab$3Dlogs");
    assert(url@ =~= insights_address(region@, account_id@, query@, groups));
    url
}

} // verus!

//! Lambda: the records the console shows and the client that reads them.
use vstd::prelude::*;
use vstd::string::*;
use crate::cloud::config::AwsConfig;
use crate::text::{contains_seq, owned, push_signed_decimal, signed_decimal, str_contains, str_eq};
use crate::timestamp::{format_modified, format_time_or_epoch, modified_text, time_or_epoch_text};

verus! {

/// A Lambda function.
#[derive(Clone, Debug)]
pub struct LambdaFunction {
    pub name: String,
    pub arn: String,
    pub application: Option<String>,
    pub description: String,
    pub package_type: String,
    pub runtime: String,
    pub architecture: String,
    pub code_size: i64,
    pub code_sha256: String,
    pub memory_mb: i32,
    pub timeout_seconds: i32,
    pub last_modified: String,
    pub layers: Vec<LambdaLayer>,
}

/// A layer of a function.
#[derive(Clone, Debug)]
pub struct LambdaLayer {
    pub arn: String,
    pub code_size: i64,
}

/// A published version of a function.
#[derive(Clone, Debug)]
pub struct LambdaVersion {
    pub version: String,
    pub aliases: String,
    pub description: String,
    pub last_modified: String,
    pub architecture: String,
}

/// An alias of a function.
#[derive(Clone, Debug)]
pub struct LambdaAlias {
    pub name: String,
    pub versions: String,
    pub description: String,
}

/// A serverless application.
#[derive(Clone, Debug)]
pub struct LambdaApplication {
    pub name: String,
    pub arn: String,
    pub description: String,
    pub status: String,
    pub last_modified: String,
}

/// Whether `i` is the position of the last `-` in `s`.
pub open spec fn is_last_dash(s: Seq<char>, i: int) -> bool {
    0 <= i < s.len() && s[i] == '-' && forall|j: int| i < j < s.len() ==> s[j] != '-'
}

/// The application a function belongs to by its name: everything before the
/// last `-`, or nothing when the name has no `-`.
pub open spec fn application_of(name: Seq<char>) -> Option<Seq<char>> {
    if exists|i: int| is_last_dash(name, i) {
        Some(name.subrange(0, choose|i: int| is_last_dash(name, i)))
    } else {
        None
    }
}

/// The application a function belongs to by its name.
pub fn application_from_function_name(name: &str) -> (r: Option<String>)
    ensures
        match r {
            Some(p) => application_of(name@) == Some(p@),
            None => application_of(name@) is None,
        },
{
    let n = name.unicode_len();
    let mut i = n;
    while i > 0
        invariant
            n == name@.len(),
            i <= n,
            forall|j: int| i <= j < n ==> name@[j] != '-',
        decreases i,
    {
        if name.get_char(i - 1) == '-' {
            let k = i - 1;
            assert(is_last_dash(name@, k as int));
            proof {
                let c = choose|j: int| is_last_dash(name@, j);
                if c < k {
                    assert(name@[k as int] != '-');
                } else if c > k {
                    assert(name@[c] != '-');
                }
            }
            return Some(name.substring_char(0, k).to_owned());
        }
        i = i - 1;
    }
    assert(!exists|j: int| is_last_dash(name@, j));
    None
}

/// Client of Lambda for one session.
pub struct LambdaClient {
    config: AwsConfig,
}

impl LambdaClient {
    /// A client for the session `config`.
    pub fn new(config: AwsConfig) -> (r: Self)
        ensures
            r.session() == config,
    {
        LambdaClient { config }
    }

    /// The session of the client.
    pub closed spec fn session(&self) -> AwsConfig {
        self.config
    }

    /// The session of the client.
    pub fn config(&self) -> (r: &AwsConfig)
        ensures
            *r == self.session(),
    {
        &self.config
    }
}


/// The text of an optional string: empty when absent.
pub open spec fn or_empty(o: Option<String>) -> Seq<char> {
    match o {
        Some(s) => s@,
        None => Seq::empty(),
    }
}

fn or_empty_of(o: &Option<String>) -> (r: String)
    ensures
        r@ == or_empty(*o),
{
    match o {
        Some(s) => s.clone(),
        None => String::new(),
    }
}

/// An optional string by its characters.
pub open spec fn opt_text(o: Option<String>) -> Option<Seq<char>> {
    match o {
        Some(s) => Some(s@),
        None => None,
    }
}

/// The first of a list of texts, empty when there is none.
pub open spec fn first_or_empty(v: Seq<String>) -> Seq<char> {
    if v.len() > 0 { v[0]@ } else { Seq::empty() }
}

fn first_of(v: &Vec<String>) -> (r: String)
    ensures
        r@ == first_or_empty(v@),
{
    if v.len() > 0 { v[0].clone() } else { String::new() }
}

/// A function as Lambda describes it: enumerations by name, architectures in
/// order, layers by ARN and code size.
pub struct LambdaFunctionDescription {
    pub function_name: Option<String>,
    pub function_arn: Option<String>,
    pub description: Option<String>,
    pub package_type: Option<String>,
    pub runtime: Option<String>,
    pub architectures: Vec<String>,
    pub code_size: i64,
    pub code_sha256: Option<String>,
    pub memory_size: Option<i32>,
    pub timeout: Option<i32>,
    pub last_modified: Option<String>,
    pub layers: Vec<(Option<String>, i64)>,
}

/// `r` is the row of the function Lambda describes as `d`: its application
/// from its name, its first architecture, its modification time written out,
/// 0 for a memory size or timeout not given.
pub open spec fn is_function_row_of(r: LambdaFunction, d: LambdaFunctionDescription) -> bool {
    &&& r.name@ == or_empty(d.function_name)
    &&& r.arn@ == or_empty(d.function_arn)
    &&& opt_text(r.application) == application_of(or_empty(d.function_name))
    &&& r.description@ == or_empty(d.description)
    &&& r.package_type@ == or_empty(d.package_type)
    &&& r.runtime@ == or_empty(d.runtime)
    &&& r.architecture@ == first_or_empty(d.architectures@)
    &&& r.code_size == d.code_size
    &&& r.code_sha256@ == or_empty(d.code_sha256)
    &&& r.memory_mb == (match d.memory_size { Some(m) => m, None => 0 })
    &&& r.timeout_seconds == (match d.timeout { Some(t) => t, None => 0 })
    &&& r.last_modified@ == modified_text(opt_text(d.last_modified))
    &&& r.layers@.len() == d.layers@.len()
    &&& forall|i: int| 0 <= i < r.layers@.len() ==> {
        &&& #[trigger] r.layers@[i].arn@ == or_empty(d.layers@[i].0)
        &&& r.layers@[i].code_size == d.layers@[i].1
    }
}

/// Each of these columns comes from its own field of the description,
/// whatever the other fields hold: two descriptions that agree on the field
/// give rows that agree on the column.
pub proof fn lemma_function_row_of_own_fields(r1: LambdaFunction, d1: LambdaFunctionDescription, r2: LambdaFunction, d2: LambdaFunctionDescription)
    requires
        is_function_row_of(r1, d1),
        is_function_row_of(r2, d2),
    ensures
        d1.function_name == d2.function_name ==> r1.name@ == r2.name@,
        d1.function_arn == d2.function_arn ==> r1.arn@ == r2.arn@,
        d1.description == d2.description ==> r1.description@ == r2.description@,
        d1.package_type == d2.package_type ==> r1.package_type@ == r2.package_type@,
        d1.runtime == d2.runtime ==> r1.runtime@ == r2.runtime@,
        d1.code_sha256 == d2.code_sha256 ==> r1.code_sha256@ == r2.code_sha256@,
        d1.code_size == d2.code_size ==> r1.code_size == r2.code_size,
{
}

/// The row of a function, from Lambda's description of it.
pub fn function_from(d: &LambdaFunctionDescription) -> (r: LambdaFunction)
    ensures
        is_function_row_of(r, *d),
{
    let name = or_empty_of(&d.function_name);
    let application = application_from_function_name(name.as_str());
    let mut layers: Vec<LambdaLayer> = Vec::new();
    let mut i: usize = 0;
    while i < d.layers.len()
        invariant
            i <= d.layers@.len(),
            layers@.len() == i,
            forall|k: int| 0 <= k < i ==> {
                &&& #[trigger] layers@[k].arn@ == or_empty(d.layers@[k].0)
                &&& layers@[k].code_size == d.layers@[k].1
            },
        decreases d.layers@.len() - i,
    {
        layers.push(LambdaLayer { arn: or_empty_of(&d.layers[i].0), code_size: d.layers[i].1 });
        i = i + 1;
    }
    LambdaFunction {
        name,
        arn: or_empty_of(&d.function_arn),
        application,
        description: or_empty_of(&d.description),
        package_type: or_empty_of(&d.package_type),
        runtime: or_empty_of(&d.runtime),
        architecture: first_of(&d.architectures),
        code_size: d.code_size,
        code_sha256: or_empty_of(&d.code_sha256),
        memory_mb: match d.memory_size {
            Some(m) => m,
            None => 0,
        },
        timeout_seconds: match d.timeout {
            Some(t) => t,
            None => 0,
        },
        last_modified: format_modified(&d.last_modified),
        layers,
    }
}

/// The rows of the functions Lambda describes, in its order.
pub fn functions_from(descriptions: &Vec<LambdaFunctionDescription>) -> (r: Vec<LambdaFunction>)
    ensures
        r@.len() == descriptions@.len(),
        forall|i: int| 0 <= i < r@.len() ==> is_function_row_of(#[trigger] r@[i], descriptions@[i]),
{
    let mut out: Vec<LambdaFunction> = Vec::new();
    let mut i: usize = 0;
    while i < descriptions.len()
        invariant
            i <= descriptions@.len(),
            out@.len() == i,
            forall|k: int| 0 <= k < i ==> is_function_row_of(#[trigger] out@[k], descriptions@[k]),
        decreases descriptions@.len() - i,
    {
        out.push(function_from(&descriptions[i]));
        i = i + 1;
    }
    out
}

/// A published version as Lambda describes it.
pub struct LambdaVersionDescription {
    pub version: Option<String>,
    pub description: Option<String>,
    pub last_modified: Option<String>,
    pub architectures: Vec<String>,
}

/// An alias as Lambda describes it: the version it points to, and the further
/// versions of its routing with their weights in whole percent, in the order
/// the routing map was walked.
pub struct LambdaAliasDescription {
    pub name: Option<String>,
    pub function_version: Option<String>,
    pub additional_versions: Vec<(String, i32)>,
    pub description: Option<String>,
}

/// The version names of a list of versions.
pub open spec fn version_names(vs: Seq<LambdaVersion>) -> Seq<Seq<char>> {
    Seq::new(vs.len(), |i: int| vs[i].version@)
}

/// The aliases column of a list of versions.
pub open spec fn alias_texts(vs: Seq<LambdaVersion>) -> Seq<Seq<char>> {
    Seq::new(vs.len(), |i: int| vs[i].aliases@)
}

/// The position of the first of `names` equal to `v`.
pub open spec fn first_named(names: Seq<Seq<char>>, v: Seq<char>) -> Option<int>
    decreases names.len(),
{
    if names.len() == 0 {
        None
    } else if names[0] == v {
        Some(0)
    } else {
        match first_named(names.drop_first(), v) {
            Some(k) => Some(k + 1),
            None => None,
        }
    }
}

proof fn lemma_first_named(names: Seq<Seq<char>>, v: Seq<char>, i: int)
    requires
        0 <= i <= names.len(),
        forall|k: int| 0 <= k < i ==> names[k] != v,
        i < names.len() ==> names[i] == v,
    ensures
        first_named(names, v) == (if i < names.len() { Some(i) } else { None::<int> }),
    decreases names.len(),
{
    if names.len() > 0 && i > 0 {
        lemma_first_named(names.drop_first(), v, i - 1);
    }
}

/// An aliases column with one more alias name.
pub open spec fn with_alias(text: Seq<char>, name: Seq<char>) -> Seq<char> {
    if text.len() == 0 { name } else { text + ", "@ + name }
}

/// The aliases columns once alias `name` is noted at the first version named
/// `v`, if there is one.
pub open spec fn noted(texts: Seq<Seq<char>>, names: Seq<Seq<char>>, v: Seq<char>, name: Seq<char>) -> Seq<Seq<char>> {
    match first_named(names, v) {
        Some(k) => texts.update(k, with_alias(texts[k], name)),
        None => texts,
    }
}

/// The aliases columns once alias `name` is noted at each version of `vs` in
/// turn.
pub open spec fn noted_all(texts: Seq<Seq<char>>, names: Seq<Seq<char>>, vs: Seq<Seq<char>>, name: Seq<char>) -> Seq<Seq<char>>
    decreases vs.len(),
{
    if vs.len() == 0 {
        texts
    } else {
        noted_all(noted(texts, names, vs[0], name), names, vs.drop_first(), name)
    }
}

/// The versions an alias points to: its own version, then those of its
/// routing.
pub open spec fn alias_targets(a: LambdaAliasDescription) -> Seq<Seq<char>> {
    (match a.function_version {
        Some(v) => seq![v@],
        None => Seq::empty(),
    }) + Seq::new(a.additional_versions@.len(), |i: int| a.additional_versions@[i].0@)
}

/// The aliases columns once every alias of `aliases` is noted, in turn.
pub open spec fn all_noted(texts: Seq<Seq<char>>, names: Seq<Seq<char>>, aliases: Seq<LambdaAliasDescription>) -> Seq<Seq<char>>
    decreases aliases.len(),
{
    if aliases.len() == 0 {
        texts
    } else {
        all_noted(
            noted_all(texts, names, alias_targets(aliases[0]), or_empty(aliases[0].name)),
            names,
            aliases.drop_first(),
        )
    }
}

/// The other columns of a version.
pub open spec fn version_rest(v: LambdaVersion) -> (Seq<char>, Seq<char>, Seq<char>, Seq<char>) {
    (v.version@, v.description@, v.last_modified@, v.architecture@)
}

/// Notes alias `name` at the first version named `v`.
fn note_alias(versions: &mut Vec<LambdaVersion>, v: &str, name: &str)
    ensures
        final(versions)@.len() == old(versions)@.len(),
        forall|i: int| 0 <= i < old(versions)@.len() ==> version_rest(#[trigger] final(versions)@[i]) == version_rest(old(versions)@[i]),
        alias_texts(final(versions)@) == noted(alias_texts(old(versions)@), version_names(old(versions)@), v@, name@),
{
    let ghost names = version_names(versions@);
    let mut k: usize = 0;
    while k < versions.len()
        invariant
            versions@ == old(versions)@,
            names == version_names(versions@),
            k <= versions@.len(),
            forall|j: int| 0 <= j < k ==> names[j] != v@,
        decreases versions@.len() - k,
    {
        if str_eq(versions[k].version.as_str(), v) {
            proof { lemma_first_named(names, v@, k as int); }
            let old_v = &versions[k];
            let mut text = old_v.aliases.clone();
            if text.as_str().unicode_len() > 0 {
                text.append(", ");
            }
            text.append(name);
            let nv = LambdaVersion {
                version: old_v.version.clone(),
                aliases: text,
                description: old_v.description.clone(),
                last_modified: old_v.last_modified.clone(),
                architecture: old_v.architecture.clone(),
            };
            proof {
                if old_v.aliases@.len() == 0 {
                    assert(nv.aliases@ =~= name@);
                }
            }
            let ghost before = versions@;
            versions.set(k, nv);
            assert(alias_texts(versions@) =~= alias_texts(before).update(k as int, with_alias(alias_texts(before)[k as int], name@)));
            return;
        }
        k = k + 1;
    }
    proof { lemma_first_named(names, v@, k as int); }
}

/// A version's row, from Lambda's description of it, without aliases yet.
pub open spec fn is_version_row_of(r: LambdaVersion, d: LambdaVersionDescription) -> bool {
    &&& r.version@ == or_empty(d.version)
    &&& r.description@ == or_empty(d.description)
    &&& r.last_modified@ == modified_text(opt_text(d.last_modified))
    &&& r.architecture@ == first_or_empty(d.architectures@)
}

/// Each of these columns comes from its own field of the description,
/// whatever the other fields hold: two descriptions that agree on the field
/// give rows that agree on the column.
pub proof fn lemma_version_row_of_own_fields(r1: LambdaVersion, d1: LambdaVersionDescription, r2: LambdaVersion, d2: LambdaVersionDescription)
    requires
        is_version_row_of(r1, d1),
        is_version_row_of(r2, d2),
    ensures
        d1.version == d2.version ==> r1.version@ == r2.version@,
        d1.description == d2.description ==> r1.description@ == r2.description@,
{
}

/// The versions of a function, in Lambda's order, each with the names of the
/// aliases that point to it (through their version or their routing) joined
/// by `, `, aliases in their order; a version that several aliases or routes
/// point to is noted once for each.
pub fn versions_from(
    descriptions: &Vec<LambdaVersionDescription>,
    aliases: &Vec<LambdaAliasDescription>,
) -> (r: Vec<LambdaVersion>)
    ensures
        r@.len() == descriptions@.len(),
        forall|i: int| 0 <= i < r@.len() ==> is_version_row_of(#[trigger] r@[i], descriptions@[i]),
        alias_texts(r@) == all_noted(Seq::new(descriptions@.len(), |i: int| Seq::<char>::empty()), version_names(r@), aliases@),
{
    let mut versions: Vec<LambdaVersion> = Vec::new();
    let mut i: usize = 0;
    while i < descriptions.len()
        invariant
            i <= descriptions@.len(),
            versions@.len() == i,
            forall|k: int| 0 <= k < i ==> is_version_row_of(#[trigger] versions@[k], descriptions@[k]),
            forall|k: int| 0 <= k < i ==> (#[trigger] versions@[k]).aliases@.len() == 0,
        decreases descriptions@.len() - i,
    {
        let d = &descriptions[i];
        versions.push(LambdaVersion {
            version: or_empty_of(&d.version),
            aliases: String::new(),
            description: or_empty_of(&d.description),
            last_modified: format_modified(&d.last_modified),
            architecture: first_of(&d.architectures),
        });
        i = i + 1;
    }
    let ghost names = version_names(versions@);
    let ghost start = versions@;
    assert forall|k: int| 0 <= k < versions@.len() implies #[trigger] alias_texts(versions@)[k] =~= Seq::<char>::empty() by {
        assert(versions@[k].aliases@.len() == 0);
    }
    assert(alias_texts(versions@) =~= Seq::new(descriptions@.len(), |i: int| Seq::<char>::empty()));
    let mut a: usize = 0;
    assert(aliases@.skip(0) =~= aliases@);
    while a < aliases.len()
        invariant
            a <= aliases@.len(),
            versions@.len() == start.len(),
            forall|k: int| 0 <= k < start.len() ==> version_rest(#[trigger] versions@[k]) == version_rest(start[k]),
            names == version_names(start),
            all_noted(Seq::new(descriptions@.len(), |i: int| Seq::<char>::empty()), names, aliases@)
                == all_noted(alias_texts(versions@), names, aliases@.skip(a as int)),
        decreases aliases@.len() - a,
    {
        let al = &aliases[a];
        assert(aliases@.skip(a as int)[0] == *al);
        assert(aliases@.skip(a as int).drop_first() =~= aliases@.skip(a + 1));
        let name = or_empty_of(&al.name);
        let ghost targets = alias_targets(*al);
        let ghost mut done: int = 0;
        let ghost goal = noted_all(alias_texts(versions@), names, targets, name@);
        proof {
            assert(targets.skip(0) =~= targets);
            assert(version_names(versions@) =~= names);
        }
        match &al.function_version {
            Some(v) => {
                let ghost texts0 = alias_texts(versions@);
                note_alias(&mut versions, v.as_str(), name.as_str());
                proof {
                    assert(version_names(versions@) =~= names);
                    assert(targets[0] == v@);
                    assert(targets.skip(1) =~= targets.skip(0).drop_first());
                    done = 1;
                }
            },
            None => {},
        }
        let ghost off = done;
        assert(goal == noted_all(alias_texts(versions@), names, targets.skip(off), name@));
        let mut j: usize = 0;
        while j < al.additional_versions.len()
            invariant
                j <= al.additional_versions@.len(),
                off + al.additional_versions@.len() == targets.len(),
                0 <= off <= 1,
                forall|t: int| 0 <= t < al.additional_versions@.len() ==> targets[off + t] == (#[trigger] al.additional_versions@[t]).0@,
                versions@.len() == start.len(),
                forall|k: int| 0 <= k < start.len() ==> version_rest(#[trigger] versions@[k]) == version_rest(start[k]),
                names == version_names(start),
                goal == noted_all(alias_texts(versions@), names, targets.skip(off + j), name@),
            decreases al.additional_versions@.len() - j,
        {
            assert(targets.skip(off + j)[0] == al.additional_versions@[j as int].0@);
            assert(targets.skip(off + j).drop_first() =~= targets.skip(off + j + 1));
            assert(version_names(versions@) =~= names);
            note_alias(&mut versions, al.additional_versions[j].0.as_str(), name.as_str());
            j = j + 1;
        }
        assert(targets.skip(off + j).len() == 0);
        a = a + 1;
    }
    assert(version_names(versions@) =~= names);
    versions
}

/// The versions an alias routes to, as the alias list shows them: its own
/// version, then each further version with its weight.
pub open spec fn routing_text(a: LambdaAliasDescription) -> Seq<char> {
    routing_from(or_empty(a.function_version), a.additional_versions@)
}

/// `start`, then `, VERSION (WEIGHT%)` for each of `extra`.
pub open spec fn routing_from(start: Seq<char>, extra: Seq<(String, i32)>) -> Seq<char>
    decreases extra.len(),
{
    if extra.len() == 0 {
        start
    } else {
        routing_from(start, extra.drop_last()) + ", "@ + extra.last().0@ + " ("@ + signed_decimal(extra.last().1 as int) + "%)"@
    }
}

/// The aliases of a function as the alias list shows them, in Lambda's order.
pub fn aliases_from(descriptions: &Vec<LambdaAliasDescription>) -> (r: Vec<LambdaAlias>)
    ensures
        r@.len() == descriptions@.len(),
        forall|i: int| 0 <= i < r@.len() ==> {
            &&& #[trigger] r@[i].name@ == or_empty(descriptions@[i].name)
            &&& r@[i].versions@ == routing_text(descriptions@[i])
            &&& r@[i].description@ == or_empty(descriptions@[i].description)
        },
{
    let mut out: Vec<LambdaAlias> = Vec::new();
    let mut i: usize = 0;
    while i < descriptions.len()
        invariant
            i <= descriptions@.len(),
            out@.len() == i,
            forall|k: int| 0 <= k < i ==> {
                &&& #[trigger] out@[k].name@ == or_empty(descriptions@[k].name)
                &&& out@[k].versions@ == routing_text(descriptions@[k])
                &&& out@[k].description@ == or_empty(descriptions@[k].description)
            },
        decreases descriptions@.len() - i,
    {
        let d = &descriptions[i];
        let mut versions = or_empty_of(&d.function_version);
        let mut j: usize = 0;
        let ghost first = or_empty(d.function_version);
        assert(d.additional_versions@.take(0) =~= Seq::<(String, i32)>::empty());
        while j < d.additional_versions.len()
            invariant
                j <= d.additional_versions@.len(),
                versions@ == routing_from(first, d.additional_versions@.take(j as int)),
            decreases d.additional_versions@.len() - j,
        {
            let ghost before = versions@;
            versions.append(", ");
            versions.append(d.additional_versions[j].0.as_str());
            versions.append(" (");
            push_signed_decimal(&mut versions, d.additional_versions[j].1 as i64);
            versions.append("%)");
            assert(d.additional_versions@.take(j + 1).drop_last() =~= d.additional_versions@.take(j as int));
            assert(versions@ =~= routing_from(first, d.additional_versions@.take(j + 1)));
            j = j + 1;
        }
        assert(d.additional_versions@.take(j as int) =~= d.additional_versions@);
        out.push(LambdaAlias { name: or_empty_of(&d.name), versions, description: or_empty_of(&d.description) });
        i = i + 1;
    }
    out
}

/// A stack listed as a serverless application: its status by name, its
/// times in seconds since the Unix epoch.
pub struct ApplicationStackDescription {
    pub stack_name: Option<String>,
    pub stack_id: Option<String>,
    pub template_description: Option<String>,
    pub stack_status: Option<String>,
    pub last_updated_secs: Option<i64>,
    pub creation_secs: Option<i64>,
}

/// Whether an application stack is listed: those whose status names a
/// deletion are not.
pub open spec fn application_listed(d: ApplicationStackDescription) -> bool {
    !contains_seq(or_empty(d.stack_status), "DELETE"@)
}

/// `r` is the row of the application stack `d`: modified when last updated,
/// else when created.
pub open spec fn is_application_row_of(r: LambdaApplication, d: ApplicationStackDescription) -> bool {
    &&& r.name@ == or_empty(d.stack_name)
    &&& r.arn@ == or_empty(d.stack_id)
    &&& r.description@ == or_empty(d.template_description)
    &&& r.status@ == or_empty(d.stack_status)
    &&& r.last_modified@ == time_or_epoch_text(match d.last_updated_secs {
        Some(t) => Some(t),
        None => d.creation_secs,
    })
}

/// Each of these columns comes from its own field of the description,
/// whatever the other fields hold: two descriptions that agree on the field
/// give rows that agree on the column.
pub proof fn lemma_application_row_of_own_fields(r1: LambdaApplication, d1: ApplicationStackDescription, r2: LambdaApplication, d2: ApplicationStackDescription)
    requires
        is_application_row_of(r1, d1),
        is_application_row_of(r2, d2),
    ensures
        d1.stack_name == d2.stack_name ==> r1.name@ == r2.name@,
        d1.stack_id == d2.stack_id ==> r1.arn@ == r2.arn@,
        d1.template_description == d2.template_description ==> r1.description@ == r2.description@,
        d1.stack_status == d2.stack_status ==> r1.status@ == r2.status@,
{
}

/// The application stacks of `ds` that are listed, in order.
pub open spec fn listed_applications(ds: Seq<ApplicationStackDescription>) -> Seq<ApplicationStackDescription>
    decreases ds.len(),
{
    if ds.len() == 0 {
        Seq::empty()
    } else if application_listed(ds.last()) {
        listed_applications(ds.drop_last()).push(ds.last())
    } else {
        listed_applications(ds.drop_last())
    }
}

/// The serverless applications, in CloudFormation's order, without the
/// stacks being or having been deleted.
pub fn applications_from(descriptions: &Vec<ApplicationStackDescription>) -> (r: Vec<LambdaApplication>)
    ensures
        r@.len() == listed_applications(descriptions@).len(),
        forall|i: int| 0 <= i < r@.len() ==> is_application_row_of(#[trigger] r@[i], listed_applications(descriptions@)[i]),
{
    let mut out: Vec<LambdaApplication> = Vec::new();
    let mut i: usize = 0;
    assert(descriptions@.take(0) =~= Seq::<ApplicationStackDescription>::empty());
    while i < descriptions.len()
        invariant
            i <= descriptions@.len(),
            out@.len() == listed_applications(descriptions@.take(i as int)).len(),
            forall|k: int| 0 <= k < out@.len() ==> is_application_row_of(#[trigger] out@[k], listed_applications(descriptions@.take(i as int))[k]),
        decreases descriptions@.len() - i,
    {
        let d = &descriptions[i];
        assert(descriptions@.take(i + 1).drop_last() =~= descriptions@.take(i as int));
        assert(descriptions@.take(i + 1).last() == *d);
        let status = or_empty_of(&d.stack_status);
        if !str_contains(status.as_str(), "DELETE") {
            let when = match d.last_updated_secs {
                Some(t) => Some(t),
                None => d.creation_secs,
            };
            out.push(LambdaApplication {
                name: or_empty_of(&d.stack_name),
                arn: or_empty_of(&d.stack_id),
                description: or_empty_of(&d.template_description),
                status,
                last_modified: format_time_or_epoch(when),
            });
        }
        i = i + 1;
    }
    assert(descriptions@.take(i as int) =~= descriptions@);
    out
}

} // verus!

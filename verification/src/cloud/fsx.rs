//! FSx: the records the console shows and the client that reads them.
use vstd::prelude::*;
use crate::cloud::config::AwsConfig;
use crate::cloud::apig::{join_strings, joined, views};
use crate::sort::{sort_by_text_key, sort_by_text_key_descending, stable_reorder, TextKey, lemma_seq_lt_asymmetric, lemma_seq_lt_transitive, seq_lt, str_lt};
use crate::text::{owned, push_signed_decimal, signed_decimal, str_eq};

verus! {

/// An FSx file system, flattened for display.
#[derive(Clone, Debug)]
pub struct FsxFileSystem {
    pub name: String,
    pub file_system_id: String,
    pub file_system_arn: String,
    pub file_system_type: String,
    pub status: String,
    pub deployment_type: String,
    pub storage_class: String,
    pub storage_capacity: String,
    pub storage_capacity_gib: i64,
    pub throughput_capacity: String,
    pub per_unit_throughput: i64,
    pub total_throughput_mbps: i64,
    pub provisioned_iops: String,
    pub creation_time: String,
    pub lustre_version: String,
    pub data_compression_type: String,
    pub efa: String,
    pub root_squash: String,
    pub mount_name: String,
    pub subnet_ids: String,
    pub vpc_id: String,
    pub kms_key_id: String,
    pub dns_name: String,
    pub network_interface_ids: String,
    pub weekly_maintenance_start: String,
    pub daily_automatic_backup_start: String,
    pub automatic_backup_retention_days: i32,
    pub tags: Vec<(String, String)>,
    pub updates: Vec<FsxUpdate>,
}

/// An administrative action on a file system.
#[derive(Clone, Debug)]
pub struct FsxUpdate {
    pub update_type: String,
    pub target_value: String,
    pub status: String,
    pub progress_percent: String,
    pub request_time: String,
    pub request_time_raw: String,
}

/// A backup of a file system.
#[derive(Clone, Debug)]
pub struct FsxBackup {
    pub name: String,
    pub backup_id: String,
    pub file_system_type: String,
    pub lifecycle_state: String,
    pub progress_percent: String,
    pub backup_type: String,
    pub deployment_type: String,
    pub storage_class: String,
    pub storage: String,
    pub resource_id: String,
    pub resource_name: String,
    pub backup_time: String,
    pub active_directory: String,
    pub lustre_version: String,
    pub kms_key_id: String,
}

/// Client of FSx for one session.
pub struct FsxClient {
    config: AwsConfig,
}

impl FsxClient {
    /// A client for the session `config`.
    pub fn new(config: AwsConfig) -> (r: Self)
        ensures
            r.session() == config,
    {
        FsxClient { config }
    }

    /// The session of the client.
    pub closed spec fn session(&self) -> AwsConfig {
        self.config
    }

    /// The session of the client.
    pub fn config(&self) -> (r: &AwsConfig)
        ensures
            *r == self.session(),
    {
        &self.config
    }
}

/// The settings of a file system's type, as FSx describes them; enumerations
/// are given by their names.
pub enum FsxConfig {
    Windows {
        deployment_type: Option<String>,
        throughput_capacity: Option<i32>,
        weekly_maintenance_start: Option<String>,
        daily_backup_start: Option<String>,
        retention_days: Option<i32>,
    },
    Lustre {
        deployment_type: Option<String>,
        per_unit_throughput: Option<i32>,
        data_compression_type: Option<String>,
        efa_enabled: Option<bool>,
        root_squash: Option<String>,
        mount_name: Option<String>,
        weekly_maintenance_start: Option<String>,
        daily_backup_start: Option<String>,
        retention_days: Option<i32>,
    },
    Ontap {
        deployment_type: Option<String>,
        throughput_capacity: Option<i32>,
        iops: Option<i64>,
        weekly_maintenance_start: Option<String>,
        daily_backup_start: Option<String>,
        retention_days: Option<i32>,
    },
    OpenZfs {
        deployment_type: Option<String>,
        throughput_capacity: Option<i32>,
        iops: Option<i64>,
        weekly_maintenance_start: Option<String>,
        daily_backup_start: Option<String>,
        retention_days: Option<i32>,
    },
    Unknown,
}

/// The values an administrative action asks for: a storage capacity, or the
/// settings of a Lustre or Windows file system (present when given, with the
/// throughput they name, if any).
pub struct FsxTargetDescription {
    pub storage_capacity: Option<i32>,
    pub lustre_per_unit_throughput: Option<Option<i32>>,
    pub windows_throughput_capacity: Option<Option<i32>>,
}

/// An administrative action as FSx describes it; its type and status by name,
/// its request time written out as a date and time.
pub struct FsxActionDescription {
    pub action_type: Option<String>,
    pub status: Option<String>,
    pub progress_percent: Option<i32>,
    pub request_time: Option<String>,
    pub target: Option<FsxTargetDescription>,
}

/// A file system as FSx describes it: its enumerations by name, its creation
/// time written out as a date and time, its tags as optional keys and values.
pub struct FsxDescription {
    pub file_system_id: Option<String>,
    pub resource_arn: Option<String>,
    pub file_system_type: Option<String>,
    pub lifecycle: Option<String>,
    pub storage_type: Option<String>,
    pub storage_capacity: Option<i32>,
    pub config: FsxConfig,
    pub dns_name: Option<String>,
    pub network_interface_ids: Vec<String>,
    pub administrative_actions: Vec<FsxActionDescription>,
    pub creation_time: Option<String>,
    pub file_system_type_version: Option<String>,
    pub tags: Vec<(Option<String>, Option<String>)>,
    pub subnet_ids: Vec<String>,
    pub vpc_id: Option<String>,
    pub kms_key_id: Option<String>,
}

/// The text of an optional string: empty when absent.
pub open spec fn text_of(o: Option<String>) -> Seq<char> {
    match o {
        Some(s) => s@,
        None => Seq::empty(),
    }
}

/// The text of an optional string: empty when absent.
pub fn owned_or_empty(o: &Option<String>) -> (r: String)
    ensures
        r@ == text_of(*o),
{
    match o {
        Some(s) => s.clone(),
        None => String::new(),
    }
}

/// `n` in decimal followed by `unit`.
pub open spec fn with_unit(n: int, unit: Seq<char>) -> Seq<char> {
    signed_decimal(n) + unit
}

fn number_with_unit(n: i64, unit: &str) -> (r: String)
    ensures
        r@ == with_unit(n as int, unit@),
{
    let mut s = String::new();
    push_signed_decimal(&mut s, n);
    s.append(unit);
    assert(s@ =~= with_unit(n as int, unit@));
    s
}

fn number_text(n: i64) -> (r: String)
    ensures
        r@ == signed_decimal(n as int),
{
    let mut s = String::new();
    push_signed_decimal(&mut s, n);
    assert(s@ =~= signed_decimal(n as int));
    s
}

/// A count of MB/s followed by ` MB/s`, when there is one.
pub open spec fn mbps_of(o: Option<i32>) -> Option<Seq<char>> {
    match o {
        Some(t) => Some(with_unit(t as int, " MB/s"@)),
        None => None,
    }
}

fn mbps_text(o: Option<i32>) -> (r: Option<String>)
    ensures
        match r {
            Some(t) => mbps_of(o) == Some(t@),
            None => mbps_of(o) is None,
        },
{
    match o {
        Some(t) => Some(number_with_unit(t as i64, " MB/s")),
        None => None,
    }
}

/// The text of an optional piece of text: empty when absent.
pub open spec fn or_empty(o: Option<Seq<char>>) -> Seq<char> {
    match o {
        Some(t) => t,
        None => Seq::empty(),
    }
}

fn string_or_empty(o: Option<String>) -> (r: String)
    ensures
        r@ == or_empty(match o {
            Some(t) => Some(t@),
            None => None,
        }),
{
    match o {
        Some(t) => t,
        None => String::new(),
    }
}

/// The per-unit throughput of a Lustre file system (0 for other types).
pub open spec fn per_unit_of(c: FsxConfig) -> int {
    match c {
        FsxConfig::Lustre { per_unit_throughput, .. } => match per_unit_throughput {
            Some(p) => p as int,
            None => 0,
        },
        _ => 0,
    }
}

/// The deployment type named by the type's settings, if any.
pub open spec fn deployment_of(c: FsxConfig) -> Seq<char> {
    match c {
        FsxConfig::Windows { deployment_type, .. } => text_of(deployment_type),
        FsxConfig::Lustre { deployment_type, .. } => text_of(deployment_type),
        FsxConfig::Ontap { deployment_type, .. } => text_of(deployment_type),
        FsxConfig::OpenZfs { deployment_type, .. } => text_of(deployment_type),
        FsxConfig::Unknown => Seq::empty(),
    }
}

/// The throughput capacity: `N MB/s` for Windows, ONTAP and OpenZFS file
/// systems that give one, `N MB/s/TiB` for a Lustre file system with a
/// positive per-unit throughput, else empty.
pub open spec fn throughput_of(c: FsxConfig) -> Seq<char> {
    match c {
        FsxConfig::Windows { throughput_capacity, .. } => or_empty(mbps_of(throughput_capacity)),
        FsxConfig::Lustre { .. } => if per_unit_of(c) > 0 {
            with_unit(per_unit_of(c), " MB/s/TiB"@)
        } else {
            Seq::empty()
        },
        FsxConfig::Ontap { throughput_capacity, .. } => or_empty(mbps_of(throughput_capacity)),
        FsxConfig::OpenZfs { throughput_capacity, .. } => or_empty(mbps_of(throughput_capacity)),
        FsxConfig::Unknown => Seq::empty(),
    }
}

/// The provisioned IOPS of an ONTAP or OpenZFS file system, in decimal.
pub open spec fn iops_of(c: FsxConfig) -> Seq<char> {
    match c {
        FsxConfig::Ontap { iops, .. } => match iops {
            Some(i) => signed_decimal(i as int),
            None => Seq::empty(),
        },
        FsxConfig::OpenZfs { iops, .. } => match iops {
            Some(i) => signed_decimal(i as int),
            None => Seq::empty(),
        },
        _ => Seq::empty(),
    }
}

/// The maintenance window start, the daily backup start and the backup
/// retention in days that the type's settings give.
pub open spec fn schedule_of(c: FsxConfig) -> (Seq<char>, Seq<char>, int) {
    match c {
        FsxConfig::Windows { weekly_maintenance_start, daily_backup_start, retention_days, .. } => (
            text_of(weekly_maintenance_start), text_of(daily_backup_start),
            match retention_days { Some(d) => d as int, None => 0 }),
        FsxConfig::Lustre { weekly_maintenance_start, daily_backup_start, retention_days, .. } => (
            text_of(weekly_maintenance_start), text_of(daily_backup_start),
            match retention_days { Some(d) => d as int, None => 0 }),
        FsxConfig::Ontap { weekly_maintenance_start, daily_backup_start, retention_days, .. } => (
            text_of(weekly_maintenance_start), text_of(daily_backup_start),
            match retention_days { Some(d) => d as int, None => 0 }),
        FsxConfig::OpenZfs { weekly_maintenance_start, daily_backup_start, retention_days, .. } => (
            text_of(weekly_maintenance_start), text_of(daily_backup_start),
            match retention_days { Some(d) => d as int, None => 0 }),
        FsxConfig::Unknown => (Seq::empty(), Seq::empty(), 0),
    }
}

/// The Lustre settings shown as text: compression, EFA (`Enabled`, `Disabled`
/// or empty when not said), root squash (`Enabled` when a non-empty squash is
/// set, else `Disabled`) and the mount name; all empty for other types.
pub open spec fn lustre_texts_of(c: FsxConfig) -> (Seq<char>, Seq<char>, Seq<char>, Seq<char>) {
    match c {
        FsxConfig::Lustre { data_compression_type, efa_enabled, root_squash, mount_name, .. } => (
            text_of(data_compression_type),
            match efa_enabled {
                Some(true) => "Enabled"@,
                Some(false) => "Disabled"@,
                None => Seq::empty(),
            },
            match root_squash {
                Some(rs) => if rs@.len() > 0 { "Enabled"@ } else { "Disabled"@ },
                None => "Disabled"@,
            },
            text_of(mount_name),
        ),
        _ => (Seq::empty(), Seq::empty(), Seq::empty(), Seq::empty()),
    }
}

/// `a / b` rounded toward zero, for `b > 0`.
pub open spec fn div_toward_zero(a: int, b: int) -> int {
    if a >= 0 { a / b } else { -((-a) / b) }
}

/// The value of the first tag whose key is `Name` (empty when that tag has no
/// value or there is none).
pub open spec fn name_tag(tags: Seq<(Option<String>, Option<String>)>) -> Seq<char>
    decreases tags.len(),
{
    if tags.len() == 0 {
        Seq::empty()
    } else if tags[0].0 is Some && tags[0].0.unwrap()@ == "Name"@ {
        text_of(tags[0].1)
    } else {
        name_tag(tags.drop_first())
    }
}

/// The tags that have both a key and a value, in order.
pub open spec fn full_tags(tags: Seq<(Option<String>, Option<String>)>) -> Seq<(String, String)>
    decreases tags.len(),
{
    if tags.len() == 0 {
        Seq::empty()
    } else {
        let before = full_tags(tags.drop_last());
        match tags.last() {
            (Some(k), Some(v)) => before.push((k, v)),
            _ => before,
        }
    }
}

/// What an administrative action asks for: a storage capacity in GiB when a
/// positive one is given, else the Lustre per-unit throughput, else the
/// Windows throughput, else nothing.
pub open spec fn target_text(t: Option<FsxTargetDescription>) -> Seq<char> {
    match t {
        None => Seq::empty(),
        Some(t) => {
            let cap = match t.storage_capacity { Some(c) => c as int, None => 0 };
            if cap > 0 {
                with_unit(cap, " GiB"@)
            } else {
                match t.lustre_per_unit_throughput {
                    Some(l) => match l {
                        Some(v) => with_unit(v as int, " MB/s/TiB"@),
                        None => Seq::empty(),
                    },
                    None => match t.windows_throughput_capacity {
                        Some(w) => match w {
                            Some(v) => with_unit(v as int, " MB/s"@),
                            None => Seq::empty(),
                        },
                        None => Seq::empty(),
                    },
                }
            }
        },
    }
}

/// The update row of an administrative action.
pub open spec fn update_of(a: FsxActionDescription) -> (Seq<char>, Seq<char>, Seq<char>, Seq<char>, Seq<char>) {
    (
        text_of(a.action_type),
        target_text(a.target),
        text_of(a.status),
        match a.progress_percent {
            Some(p) => with_unit(p as int, "%"@),
            None => Seq::empty(),
        },
        text_of(a.request_time),
    )
}

/// The fields of an update row as text: type, target, status, progress and
/// request time.
pub open spec fn update_texts(u: FsxUpdate) -> (Seq<char>, Seq<char>, Seq<char>, Seq<char>, Seq<char>) {
    (u.update_type@, u.target_value@, u.status@, u.progress_percent@, u.request_time_raw@)
}

fn target_value_of(t: &Option<FsxTargetDescription>) -> (r: String)
    ensures
        r@ == target_text(*t),
{
    match t {
        None => String::new(),
        Some(t) => {
            let cap: i64 = match t.storage_capacity {
                Some(c) => c as i64,
                None => 0,
            };
            if cap > 0 {
                number_with_unit(cap, " GiB")
            } else {
                match t.lustre_per_unit_throughput {
                    Some(l) => match l {
                        Some(v) => number_with_unit(v as i64, " MB/s/TiB"),
                        None => String::new(),
                    },
                    None => match t.windows_throughput_capacity {
                        Some(w) => match w {
                            Some(v) => number_with_unit(v as i64, " MB/s"),
                            None => String::new(),
                        },
                        None => String::new(),
                    },
                }
            }
        },
    }
}

/// The update row of an administrative action; its request time is shown as
/// given and kept for ordering.
pub fn update_from(a: &FsxActionDescription) -> (r: FsxUpdate)
    ensures
        update_texts(r) == update_of(*a),
        r.request_time@ == r.request_time_raw@,
{
    let request_time_raw = owned_or_empty(&a.request_time);
    FsxUpdate {
        update_type: owned_or_empty(&a.action_type),
        target_value: target_value_of(&a.target),
        status: owned_or_empty(&a.status),
        progress_percent: match a.progress_percent {
            Some(p) => number_with_unit(p as i64, "%"),
            None => String::new(),
        },
        request_time: request_time_raw.clone(),
        request_time_raw,
    }
}

/// Update rows never go down in request time.
pub open spec fn updates_in_order(s: Seq<FsxUpdate>) -> bool {
    forall|i: int, j: int| 0 <= i < j < s.len() ==> !seq_lt(#[trigger] s[j].request_time_raw@, #[trigger] s[i].request_time_raw@)
}

/// The update rows, oldest request first; rows requested at the same time
/// keep their order (the sort is stable). Rows are moved, never changed.
pub fn sort_updates(v: Vec<FsxUpdate>) -> (r: Vec<FsxUpdate>)
    ensures
        r@.to_multiset() == v@.to_multiset(),
        updates_in_order(r@),
        exists|perm: Seq<int>| #[trigger] stable_reorder(r@, v@, perm),
{
    let r = sort_by_text_key(v);
    assert forall|i: int, j: int| 0 <= i < j < r@.len() implies !seq_lt(#[trigger] r@[j].request_time_raw@, #[trigger] r@[i].request_time_raw@) by {
        assert(!seq_lt(r@[j].text_key(), r@[i].text_key()));
    }
    r
}

impl TextKey for FsxUpdate {
    open spec fn text_key(&self) -> Seq<char> {
        self.request_time_raw@
    }

    fn key_text(&self) -> (r: &str) {
        self.request_time_raw.as_str()
    }
}

/// Records of this kind are ordered by their `request_time_raw` field.
pub proof fn lemma_fsxupdate_ordered_by_request_time_raw(r: FsxUpdate)
    ensures
        r.text_key() == r.request_time_raw@,
{
}

/// File systems never go up in creation time.
pub open spec fn newest_first(s: Seq<FsxFileSystem>) -> bool {
    forall|i: int, j: int| 0 <= i < j < s.len() ==> !seq_lt(#[trigger] s[i].creation_time@, #[trigger] s[j].creation_time@)
}

/// The file systems, newest first; file systems created at the same time keep their
/// order (the sort is stable). They are moved, never changed.
pub fn sort_file_systems(v: Vec<FsxFileSystem>) -> (r: Vec<FsxFileSystem>)
    ensures
        r@.to_multiset() == v@.to_multiset(),
        newest_first(r@),
        exists|perm: Seq<int>| #[trigger] stable_reorder(r@, v@, perm),
{
    let r = sort_by_text_key_descending(v);
    assert forall|i: int, j: int| 0 <= i < j < r@.len() implies !seq_lt(#[trigger] r@[i].creation_time@, #[trigger] r@[j].creation_time@) by {
        assert(!seq_lt(r@[i].text_key(), r@[j].text_key()));
    }
    r
}

impl TextKey for FsxFileSystem {
    open spec fn text_key(&self) -> Seq<char> {
        self.creation_time@
    }

    fn key_text(&self) -> (r: &str) {
        self.creation_time.as_str()
    }
}

/// Records of this kind are ordered by their `creation_time` field.
pub proof fn lemma_fsxfilesystem_ordered_by_creation_time(r: FsxFileSystem)
    ensures
        r.text_key() == r.creation_time@,
{
}

/// `u` holds the rows of the file systems `descriptions` describe, one for one
/// and in order.
pub open spec fn rows_of(u: Seq<FsxFileSystem>, descriptions: Seq<FsxDescription>) -> bool {
    &&& u.len() == descriptions.len()
    &&& forall|i: int| 0 <= i < u.len() ==> is_row_of(#[trigger] u[i], descriptions[i])
}

/// The rows of the file systems FSx describes, newest first.
pub fn file_systems_from(descriptions: &Vec<FsxDescription>) -> (r: Vec<FsxFileSystem>)
    ensures
        r@.len() == descriptions@.len(),
        newest_first(r@),
        exists|u: Seq<FsxFileSystem>| #[trigger] rows_of(u, descriptions@) && r@.to_multiset() == u.to_multiset()
            && (exists|perm: Seq<int>| #[trigger] stable_reorder(r@, u, perm)),
{
    broadcast use vstd::seq_lib::group_to_multiset_ensures;
    let mut rows: Vec<FsxFileSystem> = Vec::new();
    let mut i: usize = 0;
    let n = descriptions.len();
    while i < n
        invariant
            n == descriptions@.len(),
            i <= n,
            rows@.len() == i,
            forall|k: int| 0 <= k < i ==> is_row_of(#[trigger] rows@[k], descriptions@[k]),
        decreases n - i,
    {
        rows.push(file_system_from(&descriptions[i]));
        i = i + 1;
    }
    let ghost u = rows@;
    assert(rows_of(u, descriptions@));
    let r = sort_file_systems(rows);
    assert(r@.len() == u.len()) by {
        assert(r@.to_multiset().len() == u.to_multiset().len());
    }
    r
}

/// `u` holds the update rows of `actions`, one for one and in order.
pub open spec fn updates_for(u: Seq<FsxUpdate>, actions: Seq<FsxActionDescription>) -> bool {
    &&& u.len() == actions.len()
    &&& forall|i: int| 0 <= i < u.len() ==> update_texts(#[trigger] u[i]) == update_of(actions[i])
}

/// The storage capacity in GiB (0 when not given).
pub open spec fn capacity_of(d: FsxDescription) -> int {
    match d.storage_capacity {
        Some(c) => c as int,
        None => 0,
    }
}

fn name_tag_of(tags: &Vec<(Option<String>, Option<String>)>) -> (r: String)
    ensures
        r@ == name_tag(tags@),
{
    let mut i: usize = 0;
    assert(tags@.skip(0) =~= tags@);
    while i < tags.len()
        invariant
            i <= tags@.len(),
            name_tag(tags@) == name_tag(tags@.skip(i as int)),
        decreases tags@.len() - i,
    {
        assert(tags@.skip(i as int).drop_first() =~= tags@.skip(i + 1));
        match &tags[i].0 {
            Some(k) => {
                if str_eq(k.as_str(), "Name") {
                    return owned_or_empty(&tags[i].1);
                }
            },
            None => {},
        }
        i = i + 1;
    }
    String::new()
}

fn full_tags_of(tags: &Vec<(Option<String>, Option<String>)>) -> (r: Vec<(String, String)>)
    ensures
        r@ == full_tags(tags@),
{
    let mut out: Vec<(String, String)> = Vec::new();
    let mut i: usize = 0;
    assert(tags@.take(0) =~= Seq::<(Option<String>, Option<String>)>::empty());
    while i < tags.len()
        invariant
            i <= tags@.len(),
            out@ == full_tags(tags@.take(i as int)),
        decreases tags@.len() - i,
    {
        assert(tags@.take(i + 1).drop_last() =~= tags@.take(i as int));
        match (&tags[i].0, &tags[i].1) {
            (Some(k), Some(v)) => {
                out.push((k.clone(), v.clone()));
            },
            _ => {},
        }
        i = i + 1;
    }
    assert(tags@.take(tags@.len() as int) =~= tags@);
    out
}

/// `r` is the row of the file system FSx describes as `d`: the name from its
/// `Name` tag, capacities and throughputs with their units, the Lustre total
/// throughput (per-unit throughput times capacity, in thousands), the
/// settings of its type, its tags that have a key and a value, and its
/// administrative actions, oldest request first.
pub open spec fn is_row_of(r: FsxFileSystem, d: FsxDescription) -> bool {
    &&& r.name@ == name_tag(d.tags@)
    &&& r.file_system_id@ == text_of(d.file_system_id)
    &&& r.file_system_arn@ == text_of(d.resource_arn)
    &&& r.file_system_type@ == text_of(d.file_system_type)
    &&& r.status@ == text_of(d.lifecycle)
    &&& r.deployment_type@ == deployment_of(d.config)
    &&& r.storage_class@ == text_of(d.storage_type)
    &&& r.storage_capacity_gib == capacity_of(d)
    &&& r.storage_capacity@ == (if capacity_of(d) > 0 { with_unit(capacity_of(d), " GiB"@) } else { Seq::empty() })
    &&& r.throughput_capacity@ == throughput_of(d.config)
    &&& r.per_unit_throughput == per_unit_of(d.config)
    &&& r.total_throughput_mbps == (if per_unit_of(d.config) > 0 {
        div_toward_zero(per_unit_of(d.config) * capacity_of(d), 1000)
    } else {
        0
    })
    &&& r.provisioned_iops@ == iops_of(d.config)
    &&& r.creation_time@ == text_of(d.creation_time)
    &&& r.lustre_version@ == (if text_of(d.file_system_type) == "Lustre"@ && d.file_system_type is Some {
        text_of(d.file_system_type_version)
    } else {
        Seq::empty()
    })
    &&& (r.data_compression_type@, r.efa@, r.root_squash@, r.mount_name@) == lustre_texts_of(d.config)
    &&& r.subnet_ids@ == joined(views(d.subnet_ids@), ", "@)
    &&& r.vpc_id@ == text_of(d.vpc_id)
    &&& r.kms_key_id@ == text_of(d.kms_key_id)
    &&& r.dns_name@ == text_of(d.dns_name)
    &&& r.network_interface_ids@ == joined(views(d.network_interface_ids@), ", "@)
    &&& (r.weekly_maintenance_start@, r.daily_automatic_backup_start@, r.automatic_backup_retention_days as int)
        == schedule_of(d.config)
    &&& r.tags@ == full_tags(d.tags@)
    &&& exists|u: Seq<FsxUpdate>| #[trigger] updates_for(u, d.administrative_actions@)
        && r.updates@.to_multiset() == u.to_multiset()
        && (exists|perm: Seq<int>| #[trigger] stable_reorder(r.updates@, u, perm))
    &&& updates_in_order(r.updates@)
}

/// Each of these columns comes from its own field of the description,
/// whatever the other fields hold: two descriptions that agree on the field
/// give rows that agree on the column.
pub proof fn lemma_row_of_own_fields(r1: FsxFileSystem, d1: FsxDescription, r2: FsxFileSystem, d2: FsxDescription)
    requires
        is_row_of(r1, d1),
        is_row_of(r2, d2),
    ensures
        d1.file_system_id == d2.file_system_id ==> r1.file_system_id@ == r2.file_system_id@,
        d1.resource_arn == d2.resource_arn ==> r1.file_system_arn@ == r2.file_system_arn@,
        d1.file_system_type == d2.file_system_type ==> r1.file_system_type@ == r2.file_system_type@,
        d1.lifecycle == d2.lifecycle ==> r1.status@ == r2.status@,
        d1.config == d2.config ==> r1.deployment_type@ == r2.deployment_type@,
        d1.storage_type == d2.storage_type ==> r1.storage_class@ == r2.storage_class@,
        d1.config == d2.config ==> r1.throughput_capacity@ == r2.throughput_capacity@,
        d1.config == d2.config ==> r1.provisioned_iops@ == r2.provisioned_iops@,
        d1.creation_time == d2.creation_time ==> r1.creation_time@ == r2.creation_time@,
        d1.vpc_id == d2.vpc_id ==> r1.vpc_id@ == r2.vpc_id@,
        d1.kms_key_id == d2.kms_key_id ==> r1.kms_key_id@ == r2.kms_key_id@,
        d1.dns_name == d2.dns_name ==> r1.dns_name@ == r2.dns_name@,
{
}

/// The row of a file system, from FSx's description of it.
pub fn file_system_from(d: &FsxDescription) -> (r: FsxFileSystem)
    ensures
        is_row_of(r, *d),
{
    let cap: i64 = match d.storage_capacity {
        Some(c) => c as i64,
        None => 0,
    };
    let storage_capacity = if cap > 0 { number_with_unit(cap, " GiB") } else { String::new() };
    let mut per_unit: i64 = 0;
    let mut data_compression_type = String::new();
    let mut efa = String::new();
    let mut root_squash = String::new();
    let mut mount_name = String::new();
    let (deployment_type, throughput_capacity, provisioned_iops) = match &d.config {
        FsxConfig::Windows { deployment_type, throughput_capacity, .. } => {
            (owned_or_empty(deployment_type), string_or_empty(mbps_text(*throughput_capacity)), String::new())
        },
        FsxConfig::Lustre {
            deployment_type,
            per_unit_throughput,
            data_compression_type: dct,
            efa_enabled,
            root_squash: rs,
            mount_name: mn,
            ..
        } => {
            per_unit = match per_unit_throughput {
                Some(p) => *p as i64,
                None => 0,
            };
            data_compression_type = owned_or_empty(dct);
            efa = match efa_enabled {
                Some(true) => String::from_str("Enabled"),
                Some(false) => String::from_str("Disabled"),
                None => String::new(),
            };
            root_squash = match rs {
                Some(v) => if v.unicode_len() > 0 { String::from_str("Enabled") } else { String::from_str("Disabled") },
                None => String::from_str("Disabled"),
            };
            mount_name = owned_or_empty(mn);
            let tp = if per_unit > 0 { number_with_unit(per_unit, " MB/s/TiB") } else { String::new() };
            (owned_or_empty(deployment_type), tp, String::new())
        },
        FsxConfig::Ontap { deployment_type, throughput_capacity, iops, .. } => {
            let io = match iops {
                Some(i) => number_text(*i),
                None => String::new(),
            };
            (owned_or_empty(deployment_type), string_or_empty(mbps_text(*throughput_capacity)), io)
        },
        FsxConfig::OpenZfs { deployment_type, throughput_capacity, iops, .. } => {
            let io = match iops {
                Some(i) => number_text(*i),
                None => String::new(),
            };
            (owned_or_empty(deployment_type), string_or_empty(mbps_text(*throughput_capacity)), io)
        },
        FsxConfig::Unknown => (String::new(), String::new(), String::new()),
    };
    let total_throughput_mbps: i64 = if per_unit > 0 {
        assert(-2147483648 <= per_unit <= 2147483647 && -2147483648 <= cap <= 2147483647);
        assert(per_unit * cap <= 2147483647 * 2147483647 && per_unit * cap >= -2147483647 * 2147483648) by (nonlinear_arith)
            requires
                0 < per_unit <= 2147483647,
                -2147483648 <= cap <= 2147483647,
        ;
        let prod = per_unit * cap;
        if prod >= 0 {
            prod / 1000
        } else {
            -((-prod) / 1000)
        }
    } else {
        0
    };
    let (weekly, daily, retention) = match &d.config {
        FsxConfig::Windows { weekly_maintenance_start, daily_backup_start, retention_days, .. } => (
            owned_or_empty(weekly_maintenance_start), owned_or_empty(daily_backup_start),
            match retention_days { Some(r) => *r, None => 0 }),
        FsxConfig::Lustre { weekly_maintenance_start, daily_backup_start, retention_days, .. } => (
            owned_or_empty(weekly_maintenance_start), owned_or_empty(daily_backup_start),
            match retention_days { Some(r) => *r, None => 0 }),
        FsxConfig::Ontap { weekly_maintenance_start, daily_backup_start, retention_days, .. } => (
            owned_or_empty(weekly_maintenance_start), owned_or_empty(daily_backup_start),
            match retention_days { Some(r) => *r, None => 0 }),
        FsxConfig::OpenZfs { weekly_maintenance_start, daily_backup_start, retention_days, .. } => (
            owned_or_empty(weekly_maintenance_start), owned_or_empty(daily_backup_start),
            match retention_days { Some(r) => *r, None => 0 }),
        FsxConfig::Unknown => (String::new(), String::new(), 0),
    };
    let lustre_version = match &d.file_system_type {
        Some(t) => if str_eq(t.as_str(), "Lustre") { owned_or_empty(&d.file_system_type_version) } else { String::new() },
        None => String::new(),
    };
    let mut updates: Vec<FsxUpdate> = Vec::new();
    let mut i: usize = 0;
    let n = d.administrative_actions.len();
    while i < n
        invariant
            n == d.administrative_actions@.len(),
            i <= n,
            updates@.len() == i,
            forall|k: int| 0 <= k < i ==> update_texts(#[trigger] updates@[k]) == update_of(d.administrative_actions@[k]),
        decreases n - i,
    {
        let u = update_from(&d.administrative_actions[i]);
        updates.push(u);
        i = i + 1;
    }
    let ghost unsorted = updates@;
    assert(updates_for(unsorted, d.administrative_actions@));
    let updates = sort_updates(updates);
    FsxFileSystem {
        name: name_tag_of(&d.tags),
        file_system_id: owned_or_empty(&d.file_system_id),
        file_system_arn: owned_or_empty(&d.resource_arn),
        file_system_type: owned_or_empty(&d.file_system_type),
        status: owned_or_empty(&d.lifecycle),
        deployment_type,
        storage_class: owned_or_empty(&d.storage_type),
        storage_capacity,
        storage_capacity_gib: cap,
        throughput_capacity,
        per_unit_throughput: per_unit,
        total_throughput_mbps,
        provisioned_iops,
        creation_time: owned_or_empty(&d.creation_time),
        lustre_version,
        data_compression_type,
        efa,
        root_squash,
        mount_name,
        subnet_ids: join_strings(&d.subnet_ids, ", "),
        vpc_id: owned_or_empty(&d.vpc_id),
        kms_key_id: owned_or_empty(&d.kms_key_id),
        dns_name: owned_or_empty(&d.dns_name),
        network_interface_ids: join_strings(&d.network_interface_ids, ", "),
        weekly_maintenance_start: weekly,
        daily_automatic_backup_start: daily,
        automatic_backup_retention_days: retention,
        tags: full_tags_of(&d.tags),
        updates,
    }
}


/// The file system a backup was taken of, as FSx describes it.
pub struct FsxBackupSource {
    pub file_system_id: Option<String>,
    pub file_system_type: Option<String>,
    pub file_system_type_version: Option<String>,
    pub storage_type: Option<String>,
    pub storage_capacity: Option<i32>,
    pub config: FsxConfig,
    pub tags: Vec<(Option<String>, Option<String>)>,
}

/// A backup as FSx describes it: enumerations by name, its creation time
/// written out as a date and time.
pub struct FsxBackupDescription {
    pub backup_id: Option<String>,
    pub tags: Vec<(Option<String>, Option<String>)>,
    pub file_system: Option<FsxBackupSource>,
    pub active_directory_id: Option<String>,
    pub lifecycle: Option<String>,
    pub progress_percent: Option<i32>,
    pub backup_type: Option<String>,
    pub creation_time: Option<String>,
    pub kms_key_id: Option<String>,
}

/// The deployment type named by the type's settings, if any.
fn deployment_text(c: &FsxConfig) -> (r: String)
    ensures
        r@ == deployment_of(*c),
{
    match c {
        FsxConfig::Windows { deployment_type, .. } => owned_or_empty(deployment_type),
        FsxConfig::Lustre { deployment_type, .. } => owned_or_empty(deployment_type),
        FsxConfig::Ontap { deployment_type, .. } => owned_or_empty(deployment_type),
        FsxConfig::OpenZfs { deployment_type, .. } => owned_or_empty(deployment_type),
        FsxConfig::Unknown => String::new(),
    }
}

/// `r` is the row of the backup FSx describes as `d`: its name from its `Name`
/// tag; the type, deployment, storage class, capacity (in GiB), id and name of
/// the file system it was taken of (empty when unknown); the Lustre version
/// only for a Lustre file system; progress in percent.
pub open spec fn is_backup_row_of(r: FsxBackup, d: FsxBackupDescription) -> bool {
    &&& r.name@ == name_tag(d.tags@)
    &&& r.backup_id@ == text_of(d.backup_id)
    &&& r.lifecycle_state@ == text_of(d.lifecycle)
    &&& r.progress_percent@ == (match d.progress_percent {
        Some(p) => with_unit(p as int, "%"@),
        None => Seq::empty(),
    })
    &&& r.backup_type@ == text_of(d.backup_type)
    &&& r.backup_time@ == text_of(d.creation_time)
    &&& r.active_directory@ == text_of(d.active_directory_id)
    &&& r.kms_key_id@ == text_of(d.kms_key_id)
    &&& match d.file_system {
        Some(f) => {
            &&& r.file_system_type@ == text_of(f.file_system_type)
            &&& r.deployment_type@ == deployment_of(f.config)
            &&& r.storage_class@ == text_of(f.storage_type)
            &&& r.storage@ == (match f.storage_capacity {
                Some(c) => with_unit(c as int, " GiB"@),
                None => Seq::empty(),
            })
            &&& r.resource_id@ == text_of(f.file_system_id)
            &&& r.resource_name@ == name_tag(f.tags@)
            &&& r.lustre_version@ == (if f.file_system_type is Some && text_of(f.file_system_type) == "Lustre"@ {
                text_of(f.file_system_type_version)
            } else {
                Seq::empty()
            })
        },
        None => {
            &&& r.file_system_type@.len() == 0
            &&& r.deployment_type@.len() == 0
            &&& r.storage_class@.len() == 0
            &&& r.storage@.len() == 0
            &&& r.resource_id@.len() == 0
            &&& r.resource_name@.len() == 0
            &&& r.lustre_version@.len() == 0
        },
    }
}

/// Each of these columns comes from its own field of the description,
/// whatever the other fields hold: two descriptions that agree on the field
/// give rows that agree on the column.
pub proof fn lemma_backup_row_of_own_fields(r1: FsxBackup, d1: FsxBackupDescription, r2: FsxBackup, d2: FsxBackupDescription)
    requires
        is_backup_row_of(r1, d1),
        is_backup_row_of(r2, d2),
    ensures
        d1.backup_id == d2.backup_id ==> r1.backup_id@ == r2.backup_id@,
        d1.lifecycle == d2.lifecycle ==> r1.lifecycle_state@ == r2.lifecycle_state@,
        d1.backup_type == d2.backup_type ==> r1.backup_type@ == r2.backup_type@,
        d1.creation_time == d2.creation_time ==> r1.backup_time@ == r2.backup_time@,
        d1.active_directory_id == d2.active_directory_id ==> r1.active_directory@ == r2.active_directory@,
        d1.kms_key_id == d2.kms_key_id ==> r1.kms_key_id@ == r2.kms_key_id@,
{
}

/// The row of a backup, from FSx's description of it.
pub fn backup_from(d: &FsxBackupDescription) -> (r: FsxBackup)
    ensures
        is_backup_row_of(r, *d),
{
    let progress_percent = match d.progress_percent {
        Some(p) => number_with_unit(p as i64, "%"),
        None => String::new(),
    };
    let (file_system_type, deployment_type, storage_class, storage, resource_id, resource_name, lustre_version) =
        match &d.file_system {
        Some(f) => {
            let lustre = match &f.file_system_type {
                Some(t) => str_eq(t.as_str(), "Lustre"),
                None => false,
            };
            (
                owned_or_empty(&f.file_system_type),
                deployment_text(&f.config),
                owned_or_empty(&f.storage_type),
                match f.storage_capacity {
                    Some(c) => number_with_unit(c as i64, " GiB"),
                    None => String::new(),
                },
                owned_or_empty(&f.file_system_id),
                name_tag_of(&f.tags),
                if lustre { owned_or_empty(&f.file_system_type_version) } else { String::new() },
            )
        },
        None => (String::new(), String::new(), String::new(), String::new(), String::new(), String::new(), String::new()),
    };
    FsxBackup {
        name: name_tag_of(&d.tags),
        backup_id: owned_or_empty(&d.backup_id),
        file_system_type,
        lifecycle_state: owned_or_empty(&d.lifecycle),
        progress_percent,
        backup_type: owned_or_empty(&d.backup_type),
        deployment_type,
        storage_class,
        storage,
        resource_id,
        resource_name,
        backup_time: owned_or_empty(&d.creation_time),
        active_directory: owned_or_empty(&d.active_directory_id),
        lustre_version,
        kms_key_id: owned_or_empty(&d.kms_key_id),
    }
}

/// Backups never go up in backup time.
pub open spec fn backups_newest_first(s: Seq<FsxBackup>) -> bool {
    forall|i: int, j: int| 0 <= i < j < s.len() ==> !seq_lt(#[trigger] s[i].backup_time@, #[trigger] s[j].backup_time@)
}

/// `u` holds the rows of the backups `descriptions` describe, one for one and
/// in order.
pub open spec fn backup_rows_of(u: Seq<FsxBackup>, descriptions: Seq<FsxBackupDescription>) -> bool {
    &&& u.len() == descriptions.len()
    &&& forall|i: int| 0 <= i < u.len() ==> is_backup_row_of(#[trigger] u[i], descriptions[i])
}

/// The backups, newest first; backups taken at the same time keep their
/// order (the sort is stable). They are moved, never changed.
pub fn sort_backups(v: Vec<FsxBackup>) -> (r: Vec<FsxBackup>)
    ensures
        r@.to_multiset() == v@.to_multiset(),
        backups_newest_first(r@),
        exists|perm: Seq<int>| #[trigger] stable_reorder(r@, v@, perm),
{
    let r = sort_by_text_key_descending(v);
    assert forall|i: int, j: int| 0 <= i < j < r@.len() implies !seq_lt(#[trigger] r@[i].backup_time@, #[trigger] r@[j].backup_time@) by {
        assert(!seq_lt(r@[i].text_key(), r@[j].text_key()));
    }
    r
}

impl TextKey for FsxBackup {
    open spec fn text_key(&self) -> Seq<char> {
        self.backup_time@
    }

    fn key_text(&self) -> (r: &str) {
        self.backup_time.as_str()
    }
}

/// Records of this kind are ordered by their `backup_time` field.
pub proof fn lemma_fsxbackup_ordered_by_backup_time(r: FsxBackup)
    ensures
        r.text_key() == r.backup_time@,
{
}

/// The rows of the backups FSx describes for a file system, newest first.
pub fn backups_from(descriptions: &Vec<FsxBackupDescription>) -> (r: Vec<FsxBackup>)
    ensures
        r@.len() == descriptions@.len(),
        backups_newest_first(r@),
        exists|u: Seq<FsxBackup>| #[trigger] backup_rows_of(u, descriptions@) && r@.to_multiset() == u.to_multiset()
            && (exists|perm: Seq<int>| #[trigger] stable_reorder(r@, u, perm)),
{
    broadcast use vstd::seq_lib::group_to_multiset_ensures;
    let mut rows: Vec<FsxBackup> = Vec::new();
    let mut i: usize = 0;
    let n = descriptions.len();
    while i < n
        invariant
            n == descriptions@.len(),
            i <= n,
            rows@.len() == i,
            forall|k: int| 0 <= k < i ==> is_backup_row_of(#[trigger] rows@[k], descriptions@[k]),
        decreases n - i,
    {
        rows.push(backup_from(&descriptions[i]));
        i = i + 1;
    }
    let ghost u = rows@;
    assert(backup_rows_of(u, descriptions@));
    let r = sort_backups(rows);
    assert(r@.len() == u.len()) by {
        assert(r@.to_multiset().len() == u.to_multiset().len());
    }
    r
}

} // verus!

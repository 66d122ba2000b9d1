//! EFS: the records the console shows and the client that reads them.
use vstd::prelude::*;
use crate::cloud::apig::{join_strings, joined, views};
use crate::cloud::config::AwsConfig;
use crate::profile::{find_char, find_char_exec};
use crate::sort::{sort_by_text_key_descending, stable_reorder, TextKey, lemma_seq_lt_asymmetric, lemma_seq_lt_transitive, seq_lt, str_lt};
use crate::cloud::alarms::{by_time, points_reordered, sort_points, MetricQueryPlan, QueryKind};
use crate::text::{str_eq, owned, push_signed_decimal, signed_decimal};

verus! {

/// An EFS file system.
#[derive(Clone, Debug)]
pub struct EfsFileSystem {
    pub file_system_id: String,
    pub file_system_arn: String,
    pub name: String,
    pub creation_token: String,
    pub encrypted: String,
    pub kms_key_id: String,
    pub total_size: String,
    pub size_in_standard: String,
    pub size_in_ia: String,
    pub size_in_archive: String,
    pub provisioned_throughput: String,
    pub throughput_mode: String,
    pub life_cycle_state: String,
    pub number_of_mount_targets: String,
    pub owner_id: String,
    pub creation_time: String,
    pub performance_mode: String,
    pub availability_zone: String,
    pub replication_overwrite_protection: String,
    pub total_size_bytes: i64,
    pub size_in_standard_bytes: i64,
    pub size_in_ia_bytes: i64,
    pub size_in_archive_bytes: i64,
    pub dns_name: String,
    pub tags: Vec<(String, String)>,
}

/// An access point of a file system.
#[derive(Clone, Debug)]
pub struct EfsAccessPoint {
    pub access_point_id: String,
    pub name: String,
    pub path: String,
    pub posix_user: String,
    pub creation_info: String,
    pub life_cycle_state: String,
}

/// A mount target of a file system.
#[derive(Clone, Debug)]
pub struct EfsMountTarget {
    pub mount_target_id: String,
    pub availability_zone_name: String,
    pub availability_zone_id: String,
    pub owner_id: String,
    pub file_system_id: String,
    pub subnet_id: String,
    pub vpc_id: String,
    pub life_cycle_state: String,
    pub ip_address: String,
    pub ipv6_address: String,
    pub network_interface_id: String,
    pub security_groups: String,
}

/// Client of EFS for one session.
pub struct EfsClient {
    config: AwsConfig,
}

impl EfsClient {
    /// A client for the session `config`.
    pub fn new(config: AwsConfig) -> (r: Self)
        ensures
            r.session() == config,
    {
        EfsClient { config }
    }

    /// The session of the client.
    pub closed spec fn session(&self) -> AwsConfig {
        self.config
    }

    /// The session of the client.
    pub fn config(&self) -> (r: &AwsConfig)
        ensures
            *r == self.session(),
    {
        &self.config
    }
}


/// A destination of a replication, as EFS describes it: the status is the
/// name of its variant, and a time that could not be written is absent.
pub struct ReplicationDestination {
    pub file_system_id: String,
    pub region: String,
    pub status: String,
    pub last_replicated: Option<String>,
}

/// A replication configuration, as EFS describes it, its times already
/// written out.
pub struct ReplicationDescription {
    pub source_file_system_id: String,
    pub source_file_system_region: String,
    pub created: Option<String>,
    pub destinations: Vec<ReplicationDestination>,
}

/// The summary lines of one destination.
pub open spec fn destination_lines(d: ReplicationDestination) -> Seq<Seq<char>> {
    let head = "  \u{2022} "@ + d.file_system_id@ + " ("@ + d.region@ + ") \u{2014} "@ + d.status@;
    match d.last_replicated {
        Some(t) => seq![head, "    last replicated: "@ + t@],
        None => seq![head],
    }
}

/// The summary lines of the destinations `ds`, one after the other.
pub open spec fn destinations_lines(ds: Seq<ReplicationDestination>) -> Seq<Seq<char>>
    decreases ds.len(),
{
    if ds.len() == 0 {
        Seq::empty()
    } else {
        destinations_lines(ds.drop_last()) + destination_lines(ds.last())
    }
}

/// The summary lines of one replication: its source, its creation time when
/// known, a blank line, then its destinations.
pub open spec fn replication_lines(c: ReplicationDescription) -> Seq<Seq<char>> {
    let source = seq!["Source file system: "@ + c.source_file_system_id@, "Source region: "@ + c.source_file_system_region@];
    let created = match c.created {
        Some(t) => seq!["Created: "@ + t@],
        None => Seq::empty(),
    };
    source + created + seq![Seq::empty(), "Destinations:"@] + destinations_lines(c.destinations@)
}

/// The summary lines of the replications `cs`, one after the other.
pub open spec fn replications_lines(cs: Seq<ReplicationDescription>) -> Seq<Seq<char>>
    decreases cs.len(),
{
    if cs.len() == 0 {
        Seq::empty()
    } else {
        replications_lines(cs.drop_last()) + replication_lines(cs.last())
    }
}

fn prefixed(prefix: &str, text: &str) -> (r: String)
    ensures
        r@ == prefix@ + text@,
{
    let mut s = owned(prefix);
    s.append(text);
    s
}

fn push_line(lines: &mut Vec<String>, l: String)
    ensures
        views(final(lines)@) == views(old(lines)@).push(l@),
{
    let ghost before = lines@;
    lines.push(l);
    assert(views(lines@) =~= views(before).push(l@));
}

/// A multi-line summary of replication configurations: their lines joined by
/// line breaks.
pub fn format_replication(configs: &Vec<ReplicationDescription>) -> (r: String)
    ensures
        r@ == joined(replications_lines(configs@), "\n"@),
{
    let mut lines: Vec<String> = Vec::new();
    let mut i: usize = 0;
    assert(configs@.take(0) =~= Seq::<ReplicationDescription>::empty());
    assert(views(lines@) =~= Seq::<Seq<char>>::empty());
    while i < configs.len()
        invariant
            i <= configs@.len(),
            views(lines@) == replications_lines(configs@.take(i as int)),
        decreases configs.len() - i,
    {
        let c = &configs[i];
        let ghost start = views(lines@);
        push_line(&mut lines, prefixed("Source file system: ", c.source_file_system_id.as_str()));
        push_line(&mut lines, prefixed("Source region: ", c.source_file_system_region.as_str()));
        match &c.created {
            Some(t) => push_line(&mut lines, prefixed("Created: ", t.as_str())),
            None => {},
        }
        push_line(&mut lines, String::new());
        push_line(&mut lines, owned("Destinations:"));
        let ghost mid = views(lines@);
        assert(mid =~= start + (seq!["Source file system: "@ + c.source_file_system_id@, "Source region: "@ + c.source_file_system_region@]
            + (match c.created { Some(t) => seq!["Created: "@ + t@], None => Seq::empty() }) + seq![Seq::empty(), "Destinations:"@]));
        let mut j: usize = 0;
        assert(c.destinations@.take(0) =~= Seq::<ReplicationDestination>::empty());
        assert(mid + destinations_lines(c.destinations@.take(0)) =~= mid);
        while j < c.destinations.len()
            invariant
                c == &configs@[i as int],
                j <= c.destinations@.len(),
                views(lines@) == mid + destinations_lines(c.destinations@.take(j as int)),
            decreases c.destinations.len() - j,
        {
            let d = &c.destinations[j];
            let ghost before = views(lines@);
            let mut head = prefixed("  \u{2022} ", d.file_system_id.as_str());
            head.append(" (");
            head.append(d.region.as_str());
            head.append(") \u{2014} ");
            head.append(d.status.as_str());
            push_line(&mut lines, head);
            match &d.last_replicated {
                Some(t) => push_line(&mut lines, prefixed("    last replicated: ", t.as_str())),
                None => {},
            }
            assert(c.destinations@.take(j + 1).drop_last() =~= c.destinations@.take(j as int));
            assert(views(lines@) =~= before + destination_lines(*d));
            j = j + 1;
        }
        assert(c.destinations@.take(j as int) =~= c.destinations@);
        assert(configs@.take(i + 1).drop_last() =~= configs@.take(i as int));
        assert(views(lines@) =~= start + replication_lines(*c));
        i = i + 1;
    }
    assert(configs@.take(i as int) =~= configs@);
    join_strings(&lines, "\n")
}


/// The sizes of a file system in bytes, as EFS reports them.
pub struct EfsSizeDescription {
    pub value: i64,
    pub value_in_standard: Option<i64>,
    pub value_in_ia: Option<i64>,
    pub value_in_archive: Option<i64>,
}

/// A file system as EFS describes it: enumerations by name, its creation time
/// written out as a date and time (empty when it could not be), and its sizes
/// and provisioned throughput both as numbers and as the texts shown for them
/// (empty when not reported).
pub struct EfsDescription {
    pub file_system_id: String,
    pub file_system_arn: Option<String>,
    pub name: Option<String>,
    pub creation_token: String,
    pub encrypted: Option<bool>,
    pub kms_key_id: Option<String>,
    pub sizes: Option<EfsSizeDescription>,
    pub total_size_text: String,
    pub size_in_standard_text: String,
    pub size_in_ia_text: String,
    pub size_in_archive_text: String,
    pub provisioned_throughput_text: String,
    pub throughput_mode: Option<String>,
    pub life_cycle_state: String,
    pub number_of_mount_targets: i32,
    pub owner_id: String,
    pub creation_time: String,
    pub performance_mode: String,
    pub availability_zone_name: Option<String>,
    pub replication_overwrite_protection: Option<String>,
    pub tags: Vec<(String, String)>,
}

/// The text of an optional string: empty when absent.
pub open spec fn text_or_empty(o: Option<String>) -> Seq<char> {
    match o {
        Some(s) => s@,
        None => Seq::empty(),
    }
}

fn text_or_empty_of(o: &Option<String>) -> (r: String)
    ensures
        r@ == text_or_empty(*o),
{
    match o {
        Some(s) => s.clone(),
        None => String::new(),
    }
}

/// The `n`-th of the fields of `s` that `c` separates (counting from 0), if
/// there are that many.
pub open spec fn nth_field(s: Seq<char>, c: char, n: nat) -> Option<Seq<char>>
    decreases n,
{
    match find_char(s, c) {
        Some(i) => if n == 0 { Some(s.take(i)) } else { nth_field(s.skip(i + 1), c, (n - 1) as nat) },
        None => if n == 0 { Some(s) } else { None },
    }
}

fn nth_field_exec(s: &str, c: char, n: usize) -> (r: Option<String>)
    ensures
        match r {
            Some(t) => nth_field(s@, c, n as nat) == Some(t@),
            None => nth_field(s@, c, n as nat) is None,
        },
    decreases n,
{
    match find_char_exec(s, c) {
        Some(i) => {
            let len = s.unicode_len();
            assert(s@.take(i as int) =~= s@.subrange(0, i as int));
            assert(s@.skip(i + 1) =~= s@.subrange(i + 1, len as int));
            if n == 0 {
                Some(owned(s.substring_char(0, i)))
            } else {
                nth_field_exec(s.substring_char(i + 1, len), c, n - 1)
            }
        },
        None => if n == 0 { Some(owned(s)) } else { None },
    }
}

/// The region an ARN names (its fourth `:`-separated field), or `unknown`.
pub open spec fn arn_region(arn: Option<String>) -> Seq<char> {
    match arn {
        Some(a) => match nth_field(a@, ':', 3) {
            Some(r) => r,
            None => "unknown"@,
        },
        None => "unknown"@,
    }
}

/// `yes`/`no` for a flag EFS reports, empty when it does not.
pub open spec fn yes_no(b: Option<bool>) -> Seq<char> {
    match b {
        Some(true) => "Yes"@,
        Some(false) => "No"@,
        None => Seq::empty(),
    }
}

/// `r` is the row of the file system EFS describes as `d`: the texts given
/// for sizes and throughput, `Yes`/`No` for encryption, sizes in bytes (0 when
/// not reported), and its DNS name built from its id and the region of its
/// ARN.
pub open spec fn is_efs_row_of(r: EfsFileSystem, d: EfsDescription) -> bool {
    &&& r.file_system_id@ == d.file_system_id@
    &&& r.file_system_arn@ == text_or_empty(d.file_system_arn)
    &&& r.name@ == text_or_empty(d.name)
    &&& r.creation_token@ == d.creation_token@
    &&& r.encrypted@ == yes_no(d.encrypted)
    &&& r.kms_key_id@ == text_or_empty(d.kms_key_id)
    &&& r.total_size@ == d.total_size_text@
    &&& r.size_in_standard@ == d.size_in_standard_text@
    &&& r.size_in_ia@ == d.size_in_ia_text@
    &&& r.size_in_archive@ == d.size_in_archive_text@
    &&& r.provisioned_throughput@ == d.provisioned_throughput_text@
    &&& r.throughput_mode@ == text_or_empty(d.throughput_mode)
    &&& r.life_cycle_state@ == d.life_cycle_state@
    &&& r.number_of_mount_targets@ == signed_decimal(d.number_of_mount_targets as int)
    &&& r.owner_id@ == d.owner_id@
    &&& r.creation_time@ == d.creation_time@
    &&& r.performance_mode@ == d.performance_mode@
    &&& r.availability_zone@ == text_or_empty(d.availability_zone_name)
    &&& r.replication_overwrite_protection@ == text_or_empty(d.replication_overwrite_protection)
    &&& match d.sizes {
        Some(z) => {
            &&& r.total_size_bytes == z.value
            &&& r.size_in_standard_bytes == (match z.value_in_standard { Some(v) => v, None => 0 })
            &&& r.size_in_ia_bytes == (match z.value_in_ia { Some(v) => v, None => 0 })
            &&& r.size_in_archive_bytes == (match z.value_in_archive { Some(v) => v, None => 0 })
        },
        None => {
            &&& r.total_size_bytes == 0
            &&& r.size_in_standard_bytes == 0
            &&& r.size_in_ia_bytes == 0
            &&& r.size_in_archive_bytes == 0
        },
    }
    &&& r.dns_name@ == d.file_system_id@ + ".efs."@ + arn_region(d.file_system_arn) + ".amazonaws.com"@
    &&& r.tags@ == d.tags@
}

/// Each of these columns comes from its own field of the description,
/// whatever the other fields hold: two descriptions that agree on the field
/// give rows that agree on the column.
pub proof fn lemma_efs_row_of_own_fields(r1: EfsFileSystem, d1: EfsDescription, r2: EfsFileSystem, d2: EfsDescription)
    requires
        is_efs_row_of(r1, d1),
        is_efs_row_of(r2, d2),
    ensures
        d1.file_system_arn == d2.file_system_arn ==> r1.file_system_arn@ == r2.file_system_arn@,
        d1.name == d2.name ==> r1.name@ == r2.name@,
        d1.encrypted == d2.encrypted ==> r1.encrypted@ == r2.encrypted@,
        d1.kms_key_id == d2.kms_key_id ==> r1.kms_key_id@ == r2.kms_key_id@,
        d1.throughput_mode == d2.throughput_mode ==> r1.throughput_mode@ == r2.throughput_mode@,
        d1.availability_zone_name == d2.availability_zone_name ==> r1.availability_zone@ == r2.availability_zone@,
        d1.replication_overwrite_protection == d2.replication_overwrite_protection ==> r1.replication_overwrite_protection@ == r2.replication_overwrite_protection@,
        d1.file_system_id@ == d2.file_system_id@ ==> r1.file_system_id@ == r2.file_system_id@,
        d1.creation_token@ == d2.creation_token@ ==> r1.creation_token@ == r2.creation_token@,
        d1.total_size_text@ == d2.total_size_text@ ==> r1.total_size@ == r2.total_size@,
        d1.size_in_standard_text@ == d2.size_in_standard_text@ ==> r1.size_in_standard@ == r2.size_in_standard@,
        d1.size_in_ia_text@ == d2.size_in_ia_text@ ==> r1.size_in_ia@ == r2.size_in_ia@,
        d1.size_in_archive_text@ == d2.size_in_archive_text@ ==> r1.size_in_archive@ == r2.size_in_archive@,
        d1.provisioned_throughput_text@ == d2.provisioned_throughput_text@ ==> r1.provisioned_throughput@ == r2.provisioned_throughput@,
        d1.life_cycle_state@ == d2.life_cycle_state@ ==> r1.life_cycle_state@ == r2.life_cycle_state@,
        d1.owner_id@ == d2.owner_id@ ==> r1.owner_id@ == r2.owner_id@,
        d1.creation_time@ == d2.creation_time@ ==> r1.creation_time@ == r2.creation_time@,
        d1.performance_mode@ == d2.performance_mode@ ==> r1.performance_mode@ == r2.performance_mode@,
        d1.tags@ == d2.tags@ ==> r1.tags@ == r2.tags@,
{
}

fn or_zero(o: Option<i64>) -> (r: i64)
    ensures
        r == (match o { Some(v) => v, None => 0 }),
{
    match o {
        Some(v) => v,
        None => 0,
    }
}

/// The row of a file system, from EFS's description of it.
pub fn efs_file_system_from(d: &EfsDescription) -> (r: EfsFileSystem)
    ensures
        is_efs_row_of(r, *d),
{
    let encrypted = match d.encrypted {
        Some(true) => owned("Yes"),
        Some(false) => owned("No"),
        None => String::new(),
    };
    let (total, standard, ia, archive) = match &d.sizes {
        Some(z) => (z.value, or_zero(z.value_in_standard), or_zero(z.value_in_ia), or_zero(z.value_in_archive)),
        None => (0i64, 0i64, 0i64, 0i64),
    };
    let region = match &d.file_system_arn {
        Some(a) => match nth_field_exec(a.as_str(), ':', 3) {
            Some(r) => r,
            None => owned("unknown"),
        },
        None => owned("unknown"),
    };
    let mut dns_name = d.file_system_id.clone();
    dns_name.append(".efs.");
    dns_name.append(region.as_str());
    dns_name.append(".amazonaws.com");
    let mut count = String::new();
    push_signed_decimal(&mut count, d.number_of_mount_targets as i64);
    assert(count@ =~= signed_decimal(d.number_of_mount_targets as int));
    let tags = clone_pairs(&d.tags);
    EfsFileSystem {
        file_system_id: d.file_system_id.clone(),
        file_system_arn: text_or_empty_of(&d.file_system_arn),
        name: text_or_empty_of(&d.name),
        creation_token: d.creation_token.clone(),
        encrypted,
        kms_key_id: text_or_empty_of(&d.kms_key_id),
        total_size: d.total_size_text.clone(),
        size_in_standard: d.size_in_standard_text.clone(),
        size_in_ia: d.size_in_ia_text.clone(),
        size_in_archive: d.size_in_archive_text.clone(),
        provisioned_throughput: d.provisioned_throughput_text.clone(),
        throughput_mode: text_or_empty_of(&d.throughput_mode),
        life_cycle_state: d.life_cycle_state.clone(),
        number_of_mount_targets: count,
        owner_id: d.owner_id.clone(),
        creation_time: d.creation_time.clone(),
        performance_mode: d.performance_mode.clone(),
        availability_zone: text_or_empty_of(&d.availability_zone_name),
        replication_overwrite_protection: text_or_empty_of(&d.replication_overwrite_protection),
        total_size_bytes: total,
        size_in_standard_bytes: standard,
        size_in_ia_bytes: ia,
        size_in_archive_bytes: archive,
        dns_name,
        tags,
    }
}

fn clone_pairs(v: &Vec<(String, String)>) -> (r: Vec<(String, String)>)
    ensures
        r@ == v@,
{
    let mut out: Vec<(String, String)> = Vec::new();
    let mut i: usize = 0;
    while i < v.len()
        invariant
            i <= v@.len(),
            out@ == v@.take(i as int),
        decreases v@.len() - i,
    {
        out.push((v[i].0.clone(), v[i].1.clone()));
        assert(v@.take(i + 1) =~= v@.take(i as int).push(v@[i as int]));
        i = i + 1;
    }
    assert(v@.take(i as int) =~= v@);
    out
}

/// File systems never go up in creation time.
pub open spec fn efs_newest_first(s: Seq<EfsFileSystem>) -> bool {
    forall|i: int, j: int| 0 <= i < j < s.len() ==> !seq_lt(#[trigger] s[i].creation_time@, #[trigger] s[j].creation_time@)
}

/// `u` holds the rows of the file systems `descriptions` describe, one for one
/// and in order.
pub open spec fn efs_rows_of(u: Seq<EfsFileSystem>, descriptions: Seq<EfsDescription>) -> bool {
    &&& u.len() == descriptions.len()
    &&& forall|i: int| 0 <= i < u.len() ==> is_efs_row_of(#[trigger] u[i], descriptions[i])
}

/// The file systems, newest first; file systems created at the same time keep their
/// order (the sort is stable). They are moved, never changed.
pub fn sort_efs_file_systems(v: Vec<EfsFileSystem>) -> (r: Vec<EfsFileSystem>)
    ensures
        r@.to_multiset() == v@.to_multiset(),
        efs_newest_first(r@),
        exists|perm: Seq<int>| #[trigger] stable_reorder(r@, v@, perm),
{
    let r = sort_by_text_key_descending(v);
    assert forall|i: int, j: int| 0 <= i < j < r@.len() implies !seq_lt(#[trigger] r@[i].creation_time@, #[trigger] r@[j].creation_time@) by {
        assert(!seq_lt(r@[i].text_key(), r@[j].text_key()));
    }
    r
}

impl TextKey for EfsFileSystem {
    open spec fn text_key(&self) -> Seq<char> {
        self.creation_time@
    }

    fn key_text(&self) -> (r: &str) {
        self.creation_time.as_str()
    }
}

/// Records of this kind are ordered by their `creation_time` field.
pub proof fn lemma_efsfilesystem_ordered_by_creation_time(r: EfsFileSystem)
    ensures
        r.text_key() == r.creation_time@,
{
}

/// The rows of the file systems EFS describes, newest first.
pub fn efs_file_systems_from(descriptions: &Vec<EfsDescription>) -> (r: Vec<EfsFileSystem>)
    ensures
        r@.len() == descriptions@.len(),
        efs_newest_first(r@),
        exists|u: Seq<EfsFileSystem>| #[trigger] efs_rows_of(u, descriptions@) && r@.to_multiset() == u.to_multiset()
            && (exists|perm: Seq<int>| #[trigger] stable_reorder(r@, u, perm)),
{
    broadcast use vstd::seq_lib::group_to_multiset_ensures;
    let mut rows: Vec<EfsFileSystem> = Vec::new();
    let mut i: usize = 0;
    let n = descriptions.len();
    while i < n
        invariant
            n == descriptions@.len(),
            i <= n,
            rows@.len() == i,
            forall|k: int| 0 <= k < i ==> is_efs_row_of(#[trigger] rows@[k], descriptions@[k]),
        decreases n - i,
    {
        rows.push(efs_file_system_from(&descriptions[i]));
        i = i + 1;
    }
    let ghost u = rows@;
    assert(efs_rows_of(u, descriptions@));
    let r = sort_efs_file_systems(rows);
    assert(r@.len() == u.len()) by {
        assert(r@.to_multiset().len() == u.to_multiset().len());
    }
    r
}


/// The POSIX user of an access point: user and group id.
pub struct PosixUserDescription {
    pub uid: i64,
    pub gid: i64,
}

/// How EFS creates an access point's root directory.
pub struct CreationInfoDescription {
    pub owner_uid: i64,
    pub owner_gid: i64,
    pub permissions: String,
}

/// The root directory of an access point.
pub struct RootDirectoryDescription {
    pub path: Option<String>,
    pub creation_info: Option<CreationInfoDescription>,
}

/// An access point as EFS describes it: its state by name.
pub struct AccessPointDescription {
    pub access_point_id: Option<String>,
    pub name: Option<String>,
    pub posix_user: Option<PosixUserDescription>,
    pub root_directory: Option<RootDirectoryDescription>,
    pub life_cycle_state: Option<String>,
}

/// `r` is the row of the access point EFS describes as `d`: the POSIX user as
/// `UID:GID`; the root directory's path (`/` when not given) and creation info
/// as `UID:GID PERMISSIONS`, both empty without a root directory.
pub open spec fn is_access_point_row_of(r: EfsAccessPoint, d: AccessPointDescription) -> bool {
    &&& r.access_point_id@ == text_or_empty(d.access_point_id)
    &&& r.name@ == text_or_empty(d.name)
    &&& r.posix_user@ == (match d.posix_user {
        Some(p) => signed_decimal(p.uid as int) + ":"@ + signed_decimal(p.gid as int),
        None => Seq::empty(),
    })
    &&& match d.root_directory {
        Some(rd) => {
            &&& r.path@ == (match rd.path { Some(p) => p@, None => "/"@ })
            &&& r.creation_info@ == (match rd.creation_info {
                Some(c) => signed_decimal(c.owner_uid as int) + ":"@ + signed_decimal(c.owner_gid as int) + " "@ + c.permissions@,
                None => Seq::empty(),
            })
        },
        None => r.path@.len() == 0 && r.creation_info@.len() == 0,
    }
    &&& r.life_cycle_state@ == text_or_empty(d.life_cycle_state)
}

/// Each of these columns comes from its own field of the description,
/// whatever the other fields hold: two descriptions that agree on the field
/// give rows that agree on the column.
pub proof fn lemma_access_point_row_of_own_fields(r1: EfsAccessPoint, d1: AccessPointDescription, r2: EfsAccessPoint, d2: AccessPointDescription)
    requires
        is_access_point_row_of(r1, d1),
        is_access_point_row_of(r2, d2),
    ensures
        d1.access_point_id == d2.access_point_id ==> r1.access_point_id@ == r2.access_point_id@,
        d1.name == d2.name ==> r1.name@ == r2.name@,
        d1.life_cycle_state == d2.life_cycle_state ==> r1.life_cycle_state@ == r2.life_cycle_state@,
{
}

fn id_pair(a: i64, b: i64) -> (r: String)
    ensures
        r@ == signed_decimal(a as int) + ":"@ + signed_decimal(b as int),
{
    let mut s = String::new();
    push_signed_decimal(&mut s, a);
    s.append(":");
    push_signed_decimal(&mut s, b);
    assert(s@ =~= signed_decimal(a as int) + ":"@ + signed_decimal(b as int));
    s
}

/// The row of an access point, from EFS's description of it.
pub fn access_point_from(d: &AccessPointDescription) -> (r: EfsAccessPoint)
    ensures
        is_access_point_row_of(r, *d),
{
    let posix_user = match &d.posix_user {
        Some(p) => id_pair(p.uid, p.gid),
        None => String::new(),
    };
    let (path, creation_info) = match &d.root_directory {
        Some(rd) => {
            let path = match &rd.path {
                Some(p) => p.clone(),
                None => owned("/"),
            };
            let ci = match &rd.creation_info {
                Some(c) => {
                    let mut t = id_pair(c.owner_uid, c.owner_gid);
                    t.append(" ");
                    t.append(c.permissions.as_str());
                    t
                },
                None => String::new(),
            };
            (path, ci)
        },
        None => (String::new(), String::new()),
    };
    EfsAccessPoint {
        access_point_id: text_or_empty_of(&d.access_point_id),
        name: text_or_empty_of(&d.name),
        path,
        posix_user,
        creation_info,
        life_cycle_state: text_or_empty_of(&d.life_cycle_state),
    }
}

/// The rows of the access points EFS describes, in its order.
pub fn access_points_from(descriptions: &Vec<AccessPointDescription>) -> (r: Vec<EfsAccessPoint>)
    ensures
        r@.len() == descriptions@.len(),
        forall|i: int| 0 <= i < r@.len() ==> is_access_point_row_of(#[trigger] r@[i], descriptions@[i]),
{
    let mut out: Vec<EfsAccessPoint> = Vec::new();
    let mut i: usize = 0;
    while i < descriptions.len()
        invariant
            i <= descriptions@.len(),
            out@.len() == i,
            forall|k: int| 0 <= k < i ==> is_access_point_row_of(#[trigger] out@[k], descriptions@[k]),
        decreases descriptions@.len() - i,
    {
        out.push(access_point_from(&descriptions[i]));
        i = i + 1;
    }
    out
}

/// A mount target as EFS describes it: its state by name, and its security
/// groups when EFS gave them (it gives them only for an available mount
/// target).
pub struct MountTargetDescription {
    pub mount_target_id: String,
    pub availability_zone_name: Option<String>,
    pub availability_zone_id: Option<String>,
    pub owner_id: Option<String>,
    pub file_system_id: String,
    pub subnet_id: String,
    pub vpc_id: Option<String>,
    pub life_cycle_state: String,
    pub ip_address: Option<String>,
    pub ipv6_address: Option<String>,
    pub network_interface_id: Option<String>,
    pub security_groups: Option<Vec<String>>,
}

/// `r` is the row of the mount target EFS describes as `d`: its security
/// groups joined by `, `, empty when EFS did not give them.
pub open spec fn is_mount_target_row_of(r: EfsMountTarget, d: MountTargetDescription) -> bool {
    &&& r.mount_target_id@ == d.mount_target_id@
    &&& r.availability_zone_name@ == text_or_empty(d.availability_zone_name)
    &&& r.availability_zone_id@ == text_or_empty(d.availability_zone_id)
    &&& r.owner_id@ == text_or_empty(d.owner_id)
    &&& r.file_system_id@ == d.file_system_id@
    &&& r.subnet_id@ == d.subnet_id@
    &&& r.vpc_id@ == text_or_empty(d.vpc_id)
    &&& r.life_cycle_state@ == d.life_cycle_state@
    &&& r.ip_address@ == text_or_empty(d.ip_address)
    &&& r.ipv6_address@ == text_or_empty(d.ipv6_address)
    &&& r.network_interface_id@ == text_or_empty(d.network_interface_id)
    &&& r.security_groups@ == (match d.security_groups {
        Some(g) => joined(views(g@), ", "@),
        None => Seq::empty(),
    })
}

/// Each column of a mount target's row comes from its own field of the
/// description, whatever the other fields hold: two descriptions that agree
/// on a field give rows that agree on its column.
pub proof fn lemma_mount_target_columns_own_field(
    r1: EfsMountTarget,
    d1: MountTargetDescription,
    r2: EfsMountTarget,
    d2: MountTargetDescription,
)
    requires
        is_mount_target_row_of(r1, d1),
        is_mount_target_row_of(r2, d2),
    ensures
        d1.availability_zone_name == d2.availability_zone_name ==> r1.availability_zone_name@ == r2.availability_zone_name@,
        d1.availability_zone_id == d2.availability_zone_id ==> r1.availability_zone_id@ == r2.availability_zone_id@,
        d1.owner_id == d2.owner_id ==> r1.owner_id@ == r2.owner_id@,
        d1.vpc_id == d2.vpc_id ==> r1.vpc_id@ == r2.vpc_id@,
        d1.ip_address == d2.ip_address ==> r1.ip_address@ == r2.ip_address@,
        d1.ipv6_address == d2.ipv6_address ==> r1.ipv6_address@ == r2.ipv6_address@,
        d1.network_interface_id == d2.network_interface_id ==> r1.network_interface_id@ == r2.network_interface_id@,
        d1.mount_target_id@ == d2.mount_target_id@ ==> r1.mount_target_id@ == r2.mount_target_id@,
        d1.file_system_id@ == d2.file_system_id@ ==> r1.file_system_id@ == r2.file_system_id@,
        d1.subnet_id@ == d2.subnet_id@ ==> r1.subnet_id@ == r2.subnet_id@,
        d1.life_cycle_state@ == d2.life_cycle_state@ ==> r1.life_cycle_state@ == r2.life_cycle_state@,
        d1.security_groups == d2.security_groups ==> r1.security_groups@ == r2.security_groups@,
{
}

/// A column whose field the description gives shows that field's text; one
/// whose field is absent is empty. The IP address column shows the IPv4
/// address, the IPv6 address column the IPv6 one.
pub proof fn lemma_mount_target_fields(r: EfsMountTarget, d: MountTargetDescription)
    requires
        is_mount_target_row_of(r, d),
    ensures
        d.availability_zone_name matches Some(x) ==> r.availability_zone_name@ == x@,
        d.availability_zone_name is None ==> r.availability_zone_name@.len() == 0,
        d.availability_zone_id matches Some(x) ==> r.availability_zone_id@ == x@,
        d.availability_zone_id is None ==> r.availability_zone_id@.len() == 0,
        d.owner_id matches Some(x) ==> r.owner_id@ == x@,
        d.owner_id is None ==> r.owner_id@.len() == 0,
        d.vpc_id matches Some(x) ==> r.vpc_id@ == x@,
        d.vpc_id is None ==> r.vpc_id@.len() == 0,
        d.ip_address matches Some(x) ==> r.ip_address@ == x@,
        d.ip_address is None ==> r.ip_address@.len() == 0,
        d.ipv6_address matches Some(x) ==> r.ipv6_address@ == x@,
        d.ipv6_address is None ==> r.ipv6_address@.len() == 0,
        d.network_interface_id matches Some(x) ==> r.network_interface_id@ == x@,
        d.network_interface_id is None ==> r.network_interface_id@.len() == 0,
        r.mount_target_id@ == d.mount_target_id@,
        r.file_system_id@ == d.file_system_id@,
        r.subnet_id@ == d.subnet_id@,
        r.life_cycle_state@ == d.life_cycle_state@,
{
}

/// The row of a mount target, from EFS's description of it.
pub fn mount_target_from(d: &MountTargetDescription) -> (r: EfsMountTarget)
    ensures
        is_mount_target_row_of(r, *d),
{
    EfsMountTarget {
        mount_target_id: d.mount_target_id.clone(),
        availability_zone_name: text_or_empty_of(&d.availability_zone_name),
        availability_zone_id: text_or_empty_of(&d.availability_zone_id),
        owner_id: text_or_empty_of(&d.owner_id),
        file_system_id: d.file_system_id.clone(),
        subnet_id: d.subnet_id.clone(),
        vpc_id: text_or_empty_of(&d.vpc_id),
        life_cycle_state: d.life_cycle_state.clone(),
        ip_address: text_or_empty_of(&d.ip_address),
        ipv6_address: text_or_empty_of(&d.ipv6_address),
        network_interface_id: text_or_empty_of(&d.network_interface_id),
        security_groups: match &d.security_groups {
            Some(g) => join_strings(g, ", "),
            None => String::new(),
        },
    }
}

/// The rows of the mount targets EFS describes, in its order.
pub fn mount_targets_from(descriptions: &Vec<MountTargetDescription>) -> (r: Vec<EfsMountTarget>)
    ensures
        r@.len() == descriptions@.len(),
        forall|i: int| 0 <= i < r@.len() ==> is_mount_target_row_of(#[trigger] r@[i], descriptions@[i]),
{
    let mut out: Vec<EfsMountTarget> = Vec::new();
    let mut i: usize = 0;
    while i < descriptions.len()
        invariant
            i <= descriptions@.len(),
            out@.len() == i,
            forall|k: int| 0 <= k < i ==> is_mount_target_row_of(#[trigger] out@[k], descriptions@[k]),
        decreases descriptions@.len() - i,
    {
        out.push(mount_target_from(&descriptions[i]));
        i = i + 1;
    }
    out
}


/// The texts of a list of dimensions.
pub open spec fn dimension_texts(v: Seq<(String, String)>) -> Seq<(Seq<char>, Seq<char>)> {
    Seq::new(v.len(), |i: int| (v[i].0@, v[i].1@))
}

/// `p` is the metric-math expression query `id` over `period` seconds.
pub open spec fn is_expression_query(p: MetricQueryPlan, id: Seq<char>, expression: Seq<char>, period: i32, return_data: bool) -> bool {
    &&& p.id@ == id
    &&& p.return_data == return_data
    &&& p.kind matches QueryKind::Expression { expression: e, period: q } && e@ == expression && q == period
}

/// `p` is query `id` of statistic `stat` of the EFS metric `metric` of file
/// system `fs` over `period` seconds; its dimensions are the extra one, if
/// any, then the file system.
pub open spec fn is_efs_metric_query(
    p: MetricQueryPlan,
    id: Seq<char>,
    metric: Seq<char>,
    stat: Seq<char>,
    period: i32,
    fs: Seq<char>,
    extra: Option<(Seq<char>, Seq<char>)>,
    return_data: bool,
) -> bool {
    &&& p.id@ == id
    &&& p.return_data == return_data
    &&& p.kind matches QueryKind::Stat { namespace, metric_name, dimensions, period: q, stat: st }
        && namespace@ == "AWS/EFS"@ && metric_name@ == metric && q == period && st@ == stat
        && dimension_texts(dimensions@) == (match extra {
            Some(x) => seq![x],
            None => Seq::empty(),
        }) + seq![("FileSystemId"@, fs)]
}

fn expression_query(id: &str, expression: &str, period: i32, return_data: bool) -> (r: MetricQueryPlan)
    ensures
        is_expression_query(r, id@, expression@, period, return_data),
{
    MetricQueryPlan { id: owned(id), return_data, kind: QueryKind::Expression { expression: owned(expression), period } }
}

fn efs_metric_query(
    id: &str,
    metric: &str,
    stat: &str,
    period: i32,
    fs: &str,
    extra: Option<(&str, &str)>,
    return_data: bool,
) -> (r: MetricQueryPlan)
    ensures
        is_efs_metric_query(r, id@, metric@, stat@, period, fs@, match extra {
            Some(x) => Some((x.0@, x.1@)),
            None => None,
        }, return_data),
{
    let mut dims: Vec<(String, String)> = Vec::new();
    match extra {
        Some(x) => dims.push((owned(x.0), owned(x.1))),
        None => {},
    }
    dims.push((owned("FileSystemId"), owned(fs)));
    assert(dimension_texts(dims@) =~= (match extra {
        Some(x) => seq![(x.0@, x.1@)],
        None => Seq::<(Seq<char>, Seq<char>)>::empty(),
    }) + seq![("FileSystemId"@, fs@)]);
    MetricQueryPlan {
        id: owned(id),
        return_data,
        kind: QueryKind::Stat {
            namespace: owned("AWS/EFS"),
            metric_name: owned(metric),
            dimensions: dims,
            period,
            stat: owned(stat),
        },
    }
}

/// The queries shared by the graphs of IOPS and of throughput by type: data
/// written, data read and metadata as percentages of all I/O bytes, with the
/// given statistic.
pub open spec fn is_by_type_group(g: Seq<MetricQueryPlan>, stat: Seq<char>, fs: Seq<char>) -> bool {
    &&& g.len() == 7
    &&& is_expression_query(g[0], "e2"@, "(m2*100)/m1"@, 60, true)
    &&& is_expression_query(g[1], "e3"@, "(m3*100)/m1"@, 60, true)
    &&& is_expression_query(g[2], "e4"@, "(m4*100)/m1"@, 60, true)
    &&& is_efs_metric_query(g[3], "m1"@, "TotalIOBytes"@, stat, 60, fs, None, false)
    &&& is_efs_metric_query(g[4], "m2"@, "DataWriteIOBytes"@, stat, 60, fs, None, false)
    &&& is_efs_metric_query(g[5], "m3"@, "DataReadIOBytes"@, stat, 60, fs, None, false)
    &&& is_efs_metric_query(g[6], "m4"@, "MetadataIOBytes"@, stat, 60, fs, None, false)
}

fn by_type_group(stat: &str, fs: &str) -> (r: Vec<MetricQueryPlan>)
    ensures
        is_by_type_group(r@, stat@, fs@),
{
    vec![
        expression_query("e2", "(m2*100)/m1", 60, true),
        expression_query("e3", "(m3*100)/m1", 60, true),
        expression_query("e4", "(m4*100)/m1", 60, true),
        efs_metric_query("m1", "TotalIOBytes", stat, 60, fs, None, false),
        efs_metric_query("m2", "DataWriteIOBytes", stat, 60, fs, None, false),
        efs_metric_query("m3", "DataReadIOBytes", stat, 60, fs, None, false),
        efs_metric_query("m4", "MetadataIOBytes", stat, 60, fs, None, false),
    ]
}

/// The queries of the six graphs of a file system's monitoring tab:
/// throughput utilization, IOPS by type, throughput by type, IOPS
/// utilization, client connections and storage by storage class.
pub fn efs_monitoring_queries(file_system_id: &str) -> (r: Vec<Vec<MetricQueryPlan>>)
    ensures
        r@.len() == 6,
        r@[0]@.len() == 5,
        is_expression_query(r@[0]@[0], "e1"@, "(m1/1048576)/PERIOD(m1)"@, 60, false),
        is_expression_query(r@[0]@[1], "e2"@, "m2/1048576"@, 60, false),
        is_expression_query(r@[0]@[2], "e4"@, "((e1)*100)/(e2)"@, 60, true),
        is_efs_metric_query(r@[0]@[3], "m1"@, "MeteredIOBytes"@, "Sum"@, 60, file_system_id@, None, false),
        is_efs_metric_query(r@[0]@[4], "m2"@, "PermittedThroughput"@, "Average"@, 60, file_system_id@, None, false),
        is_by_type_group(r@[1]@, "SampleCount"@, file_system_id@),
        is_by_type_group(r@[2]@, "Sum"@, file_system_id@),
        r@[3]@.len() == 1,
        is_efs_metric_query(r@[3]@[0], "m1"@, "PercentIOLimit"@, "Average"@, 60, file_system_id@, None, true),
        r@[4]@.len() == 1,
        is_efs_metric_query(r@[4]@[0], "m1"@, "ClientConnections"@, "Sum"@, 60, file_system_id@, None, true),
        r@[5]@.len() == 3,
        is_efs_metric_query(r@[5]@[0], "mStandard"@, "StorageBytes"@, "Average"@, 3600, file_system_id@,
            Some(("StorageClass"@, "Standard"@)), true),
        is_efs_metric_query(r@[5]@[1], "mIA"@, "StorageBytes"@, "Average"@, 3600, file_system_id@,
            Some(("StorageClass"@, "IA"@)), true),
        is_efs_metric_query(r@[5]@[2], "mArchive"@, "StorageBytes"@, "Average"@, 3600, file_system_id@,
            Some(("StorageClass"@, "Archive"@)), true),
{
    let fs = file_system_id;
    let g1 = vec![
        expression_query("e1", "(m1/1048576)/PERIOD(m1)", 60, false),
        expression_query("e2", "m2/1048576", 60, false),
        expression_query("e4", "((e1)*100)/(e2)", 60, true),
        efs_metric_query("m1", "MeteredIOBytes", "Sum", 60, fs, None, false),
        efs_metric_query("m2", "PermittedThroughput", "Average", 60, fs, None, false),
    ];
    let g2 = by_type_group("SampleCount", fs);
    let g3 = by_type_group("Sum", fs);
    let g4 = vec![efs_metric_query("m1", "PercentIOLimit", "Average", 60, fs, None, true)];
    let g5 = vec![efs_metric_query("m1", "ClientConnections", "Sum", 60, fs, None, true)];
    let g6 = vec![
        efs_metric_query("mStandard", "StorageBytes", "Average", 3600, fs, Some(("StorageClass", "Standard")), true),
        efs_metric_query("mIA", "StorageBytes", "Average", 3600, fs, Some(("StorageClass", "IA")), true),
        efs_metric_query("mArchive", "StorageBytes", "Average", 3600, fs, Some(("StorageClass", "Archive")), true),
    ];
    vec![g1, g2, g3, g4, g5, g6]
}

/// The points of the last result of `results` with id `id`, when there is
/// one (later results of an id replace earlier ones).
pub open spec fn last_with_id(results: Seq<(Option<String>, Vec<(i64, u64)>)>, id: Seq<char>) -> Option<Seq<(i64, u64)>>
    decreases results.len(),
{
    if results.len() == 0 {
        None
    } else if results.last().0 is Some && results.last().0.unwrap()@ == id {
        Some(results.last().1@)
    } else {
        last_with_id(results.drop_last(), id)
    }
}

/// `s` is the series of query `id` among `results`: the points of its last
/// result, oldest first (points of the same time in their order), or none
/// when no result has that id.
pub open spec fn is_series_of(s: Seq<(i64, u64)>, results: Seq<(Option<String>, Vec<(i64, u64)>)>, id: Seq<char>) -> bool {
    &&& last_with_id(results, id) is None ==> s.len() == 0
    &&& last_with_id(results, id) is Some ==> by_time(s)
        && exists|perm: Seq<int>| #[trigger] points_reordered(s, last_with_id(results, id).unwrap(), perm)
}

/// The series of query `id` among the results of a metric request (each an
/// id and points, a value carried as the bits of its float).
pub fn series_of(results: &Vec<(Option<String>, Vec<(i64, u64)>)>, id: &str) -> (r: Vec<(i64, u64)>)
    ensures
        is_series_of(r@, results@, id@),
{
    let mut i: usize = results.len();
    assert(results@.take(i as int) =~= results@);
    while i > 0
        invariant
            i <= results@.len(),
            last_with_id(results@, id@) == last_with_id(results@.take(i as int), id@),
        decreases i,
    {
        assert(results@.take(i as int).drop_last() =~= results@.take(i - 1));
        assert(results@.take(i as int).last() == results@[i - 1]);
        match &results[i - 1].0 {
            Some(k) => {
                if str_eq(k.as_str(), id) {
                    let pts = clone_points(&results[i - 1].1);
                    assert(last_with_id(results@, id@) == Some(results@[i - 1].1@));
                    let ghost before = pts@;
                    let r = sort_points(pts);
                    proof {
                        let perm = choose|perm: Seq<int>| points_reordered(r@, before, perm);
                        assert(before == results@[i - 1].1@);
                        assert(by_time(r@));
                        assert(last_with_id(results@, id@).unwrap() == results@[i - 1].1@);
                        assert(points_reordered(r@, last_with_id(results@, id@).unwrap(), perm));
                        assert(last_with_id(results@, id@) is Some ==> by_time(r@));
                        assert(is_series_of(r@, results@, id@));
                    }
                    return r;
                }
            },
            None => {},
        }
        i = i - 1;
    }
    Vec::new()
}

fn clone_points(v: &Vec<(i64, u64)>) -> (r: Vec<(i64, u64)>)
    ensures
        r@ == v@,
{
    let mut out: Vec<(i64, u64)> = Vec::new();
    let mut i: usize = 0;
    while i < v.len()
        invariant
            i <= v@.len(),
            out@ == v@.take(i as int),
        decreases v@.len() - i,
    {
        out.push(v[i]);
        assert(v@.take(i + 1) =~= v@.take(i as int).push(v@[i as int]));
        i = i + 1;
    }
    assert(v@.take(i as int) =~= v@);
    out
}

/// The series of the six monitoring graphs of a file system, each a list of
/// times and values (carried as the bits of their floats).
pub struct EfsMonitoringData {
    pub throughput_utilization: Vec<(i64, u64)>,
    pub iops_data_write: Vec<(i64, u64)>,
    pub iops_data_read: Vec<(i64, u64)>,
    pub iops_metadata: Vec<(i64, u64)>,
    pub throughput_data_write: Vec<(i64, u64)>,
    pub throughput_data_read: Vec<(i64, u64)>,
    pub throughput_metadata: Vec<(i64, u64)>,
    pub iops_utilization: Vec<(i64, u64)>,
    pub client_connections: Vec<(i64, u64)>,
    pub storage_standard: Vec<(i64, u64)>,
    pub storage_ia: Vec<(i64, u64)>,
    pub storage_archive: Vec<(i64, u64)>,
}

/// The monitoring tab's series from the results of the six requests of
/// `efs_monitoring_queries`, in that order: each field is the series of the
/// query that draws it.
pub fn monitoring_from(
    utilization: &Vec<(Option<String>, Vec<(i64, u64)>)>,
    iops: &Vec<(Option<String>, Vec<(i64, u64)>)>,
    throughput: &Vec<(Option<String>, Vec<(i64, u64)>)>,
    iops_limit: &Vec<(Option<String>, Vec<(i64, u64)>)>,
    connections: &Vec<(Option<String>, Vec<(i64, u64)>)>,
    storage: &Vec<(Option<String>, Vec<(i64, u64)>)>,
) -> (r: EfsMonitoringData)
    ensures
        is_series_of(r.throughput_utilization@, utilization@, "e4"@),
        is_series_of(r.iops_data_write@, iops@, "e2"@),
        is_series_of(r.iops_data_read@, iops@, "e3"@),
        is_series_of(r.iops_metadata@, iops@, "e4"@),
        is_series_of(r.throughput_data_write@, throughput@, "e2"@),
        is_series_of(r.throughput_data_read@, throughput@, "e3"@),
        is_series_of(r.throughput_metadata@, throughput@, "e4"@),
        is_series_of(r.iops_utilization@, iops_limit@, "m1"@),
        is_series_of(r.client_connections@, connections@, "m1"@),
        is_series_of(r.storage_standard@, storage@, "mStandard"@),
        is_series_of(r.storage_ia@, storage@, "mIA"@),
        is_series_of(r.storage_archive@, storage@, "mArchive"@),
{
    EfsMonitoringData {
        throughput_utilization: series_of(utilization, "e4"),
        iops_data_write: series_of(iops, "e2"),
        iops_data_read: series_of(iops, "e3"),
        iops_metadata: series_of(iops, "e4"),
        throughput_data_write: series_of(throughput, "e2"),
        throughput_data_read: series_of(throughput, "e3"),
        throughput_metadata: series_of(throughput, "e4"),
        iops_utilization: series_of(iops_limit, "m1"),
        client_connections: series_of(connections, "m1"),
        storage_standard: series_of(storage, "mStandard"),
        storage_ia: series_of(storage, "mIA"),
        storage_archive: series_of(storage, "mArchive"),
    }
}

} // verus!

//! The columns of the file systems table.
use vstd::prelude::*;
use vstd::string::*;
use crate::common::{
    column_width, label_width, lookup, translated_label, with_defaults, ColumnId, Translations,
    UTC_TIMESTAMP_WIDTH,
};
pub use crate::cloud::efs::EfsFileSystem as FileSystem;
use crate::efs::{format_life_cycle_state, life_cycle_label, CellColor};
use crate::text::{owned, str_eq};
use crate::timestamp::{format_iso_timestamp, iso_label};

verus! {

/// The column keys and default labels that `init` lays down, in order.
pub open spec fn default_labels() -> (Seq<Seq<char>>, Seq<Seq<char>>) {
    (
        seq!["column.efs.fs.name"@, "column.efs.fs.file_system_id"@, "column.efs.fs.creation_token"@, "column.efs.fs.encrypted"@, "column.efs.fs.kms_key_id"@, "column.efs.fs.total_size"@, "column.efs.fs.size_in_standard"@, "column.efs.fs.size_in_ia"@, "column.efs.fs.size_in_archive"@, "column.efs.fs.provisioned_throughput"@, "column.efs.fs.throughput_mode"@, "column.efs.fs.life_cycle_state"@, "column.efs.fs.number_of_mount_targets"@, "column.efs.fs.owner_id"@, "column.efs.fs.creation_time"@, "column.efs.fs.performance_mode"@, "column.efs.fs.availability_zone"@, "column.efs.fs.replication_overwrite_protection"@],
        seq!["Name"@, "File system ID"@, "Creation token"@, "Encrypted"@, "KMS Key ID"@, "Total size"@, "Size in Standard"@, "Size in IA"@, "Size in Archive"@, "Provisioned Throughput (MiB/s)"@, "Throughput mode"@, "File system state"@, "Number of mount targets"@, "Owner ID"@, "Creation time"@, "Performance mode"@, "Availability Zone"@, "Replication overwrite protection"@],
    )
}

/// Gives every column key its default label, unless it already has a translation.
pub fn init(tr: &mut Translations)
    ensures
        forall|k: Seq<char>| #[trigger] lookup(final(tr).entries@, k) == with_defaults(
            lookup(old(tr).entries@, k), default_labels().0, default_labels().1, k),
{
    let keys: Vec<ColumnId> = vec!["column.efs.fs.name", "column.efs.fs.file_system_id", "column.efs.fs.creation_token", "column.efs.fs.encrypted", "column.efs.fs.kms_key_id", "column.efs.fs.total_size", "column.efs.fs.size_in_standard", "column.efs.fs.size_in_ia", "column.efs.fs.size_in_archive", "column.efs.fs.provisioned_throughput", "column.efs.fs.throughput_mode", "column.efs.fs.life_cycle_state", "column.efs.fs.number_of_mount_targets", "column.efs.fs.owner_id", "column.efs.fs.creation_time", "column.efs.fs.performance_mode", "column.efs.fs.availability_zone", "column.efs.fs.replication_overwrite_protection"];
    let labels: Vec<&'static str> = vec!["Name", "File system ID", "Creation token", "Encrypted", "KMS Key ID", "Total size", "Size in Standard", "Size in IA", "Size in Archive", "Provisioned Throughput (MiB/s)", "Throughput mode", "File system state", "Number of mount targets", "Owner ID", "Creation time", "Performance mode", "Availability Zone", "Replication overwrite protection"];
    assert(keys@.map_values(|s: &str| s@) =~= default_labels().0);
    assert(labels@.map_values(|s: &str| s@) =~= default_labels().1);
    tr.set_defaults(&keys, &labels);
}

/// The colour of the encryption cell: green for `Yes`, yellow for `No`.
pub open spec fn encrypted_color(s: Seq<char>) -> CellColor {
    if s == "Yes"@ {
        CellColor::Green
    } else if s == "No"@ {
        CellColor::Yellow
    } else {
        CellColor::White
    }
}

/// The colour of the encryption cell.
pub fn encryption_color(s: &str) -> (r: CellColor)
    ensures
        r == encrypted_color(s@),
{
    if str_eq(s, "Yes") {
        CellColor::Green
    } else if str_eq(s, "No") {
        CellColor::Yellow
    } else {
        CellColor::White
    }
}

/// The label of a performance mode: `GeneralPurpose` reads `General Purpose`
/// and `MaxIo` reads `Max I/O`; any other mode is shown as it is.
pub open spec fn performance_label(s: Seq<char>) -> Seq<char> {
    if s == "GeneralPurpose"@ {
        "General Purpose"@
    } else if s == "MaxIo"@ {
        "Max I/O"@
    } else {
        s
    }
}

/// The label of a throughput mode: the known modes `Bursting`, `Provisioned`
/// and `Elastic` show as they are, and so does any other text.
fn format_throughput_mode(mode: &str) -> (r: String)
    ensures
        r@ == mode@,
{
    if str_eq(mode, "Bursting") {
        owned("Bursting")
    } else if str_eq(mode, "Provisioned") {
        owned("Provisioned")
    } else if str_eq(mode, "Elastic") {
        owned("Elastic")
    } else {
        owned(mode)
    }
}

/// The label of a replication overwrite protection setting: `Enabled`,
/// `Disabled` and `Replicating` show as they are, and so does any other text.
fn format_replication_protection(val: &str) -> (r: String)
    ensures
        r@ == val@,
{
    if str_eq(val, "Enabled") {
        owned("Enabled")
    } else if str_eq(val, "Disabled") {
        owned("Disabled")
    } else if str_eq(val, "Replicating") {
        owned("Replicating")
    } else {
        owned(val)
    }
}

/// The label of a performance mode.
pub fn format_performance_mode(mode: &str) -> (r: String)
    ensures
        r@ == performance_label(mode@),
{
    if str_eq(mode, "GeneralPurpose") {
        String::from_str("General Purpose")
    } else if str_eq(mode, "MaxIo") {
        String::from_str("Max I/O")
    } else {
        owned(mode)
    }
}

/// The colour of the replication overwrite protection cell: green when
/// enabled, yellow when disabled, cyan while replicating, in either of the
/// two spellings EFS uses.
pub open spec fn replication_color(s: Seq<char>) -> CellColor {
    if s == "Enabled"@ || s == "ENABLED"@ {
        CellColor::Green
    } else if s == "Disabled"@ || s == "DISABLED"@ {
        CellColor::Yellow
    } else if s == "Replicating"@ || s == "REPLICATING"@ {
        CellColor::Cyan
    } else {
        CellColor::White
    }
}

/// The colour of the replication overwrite protection cell.
pub fn replication_protection_color(s: &str) -> (r: CellColor)
    ensures
        r == replication_color(s@),
{
    if str_eq(s, "Enabled") || str_eq(s, "ENABLED") {
        CellColor::Green
    } else if str_eq(s, "Disabled") || str_eq(s, "DISABLED") {
        CellColor::Yellow
    } else if str_eq(s, "Replicating") || str_eq(s, "REPLICATING") {
        CellColor::Cyan
    } else {
        CellColor::White
    }
}

/// A column of the file systems table.
#[derive(Clone, Copy, Debug, PartialEq, Eq, Structural)]
pub enum Column {
    Name,
    FileSystemId,
    CreationToken,
    Encrypted,
    KmsKeyId,
    TotalSize,
    SizeInStandard,
    SizeInIa,
    SizeInArchive,
    ProvisionedThroughput,
    ThroughputMode,
    LifeCycleState,
    NumberOfMountTargets,
    OwnerId,
    CreationTime,
    PerformanceMode,
    AvailabilityZone,
    ReplicationOverwriteProtection,
}

impl Column {
    /// The translation key of the column.
    pub open spec fn key(self) -> Seq<char> {
        match self {
            Column::Name => "column.efs.fs.name"@,
            Column::FileSystemId => "column.efs.fs.file_system_id"@,
            Column::CreationToken => "column.efs.fs.creation_token"@,
            Column::Encrypted => "column.efs.fs.encrypted"@,
            Column::KmsKeyId => "column.efs.fs.kms_key_id"@,
            Column::TotalSize => "column.efs.fs.total_size"@,
            Column::SizeInStandard => "column.efs.fs.size_in_standard"@,
            Column::SizeInIa => "column.efs.fs.size_in_ia"@,
            Column::SizeInArchive => "column.efs.fs.size_in_archive"@,
            Column::ProvisionedThroughput => "column.efs.fs.provisioned_throughput"@,
            Column::ThroughputMode => "column.efs.fs.throughput_mode"@,
            Column::LifeCycleState => "column.efs.fs.life_cycle_state"@,
            Column::NumberOfMountTargets => "column.efs.fs.number_of_mount_targets"@,
            Column::OwnerId => "column.efs.fs.owner_id"@,
            Column::CreationTime => "column.efs.fs.creation_time"@,
            Column::PerformanceMode => "column.efs.fs.performance_mode"@,
            Column::AvailabilityZone => "column.efs.fs.availability_zone"@,
            Column::ReplicationOverwriteProtection => "column.efs.fs.replication_overwrite_protection"@,
        }
    }

    /// The label of the column when no translation replaces it.
    pub open spec fn default_label(self) -> Seq<char> {
        match self {
            Column::Name => "Name"@,
            Column::FileSystemId => "File system ID"@,
            Column::CreationToken => "Creation token"@,
            Column::Encrypted => "Encrypted"@,
            Column::KmsKeyId => "KMS Key ID"@,
            Column::TotalSize => "Total size"@,
            Column::SizeInStandard => "Size in Standard"@,
            Column::SizeInIa => "Size in IA"@,
            Column::SizeInArchive => "Size in Archive"@,
            Column::ProvisionedThroughput => "Provisioned Throughput (MiB/s)"@,
            Column::ThroughputMode => "Throughput mode"@,
            Column::LifeCycleState => "File system state"@,
            Column::NumberOfMountTargets => "Number of mount targets"@,
            Column::OwnerId => "Owner ID"@,
            Column::CreationTime => "Creation time"@,
            Column::PerformanceMode => "Performance mode"@,
            Column::AvailabilityZone => "Availability Zone"@,
            Column::ReplicationOverwriteProtection => "Replication overwrite protection"@,
        }
    }

    /// The column whose key is `id`, if any.
    pub open spec fn with_key(id: Seq<char>) -> Option<Self> {
        if id == "column.efs.fs.name"@ {
            Some(Column::Name)
        } else if id == "column.efs.fs.file_system_id"@ {
            Some(Column::FileSystemId)
        } else if id == "column.efs.fs.creation_token"@ {
            Some(Column::CreationToken)
        } else if id == "column.efs.fs.encrypted"@ {
            Some(Column::Encrypted)
        } else if id == "column.efs.fs.kms_key_id"@ {
            Some(Column::KmsKeyId)
        } else if id == "column.efs.fs.total_size"@ {
            Some(Column::TotalSize)
        } else if id == "column.efs.fs.size_in_standard"@ {
            Some(Column::SizeInStandard)
        } else if id == "column.efs.fs.size_in_ia"@ {
            Some(Column::SizeInIa)
        } else if id == "column.efs.fs.size_in_archive"@ {
            Some(Column::SizeInArchive)
        } else if id == "column.efs.fs.provisioned_throughput"@ {
            Some(Column::ProvisionedThroughput)
        } else if id == "column.efs.fs.throughput_mode"@ {
            Some(Column::ThroughputMode)
        } else if id == "column.efs.fs.life_cycle_state"@ {
            Some(Column::LifeCycleState)
        } else if id == "column.efs.fs.number_of_mount_targets"@ {
            Some(Column::NumberOfMountTargets)
        } else if id == "column.efs.fs.owner_id"@ {
            Some(Column::OwnerId)
        } else if id == "column.efs.fs.creation_time"@ {
            Some(Column::CreationTime)
        } else if id == "column.efs.fs.performance_mode"@ {
            Some(Column::PerformanceMode)
        } else if id == "column.efs.fs.availability_zone"@ {
            Some(Column::AvailabilityZone)
        } else if id == "column.efs.fs.replication_overwrite_protection"@ {
            Some(Column::ReplicationOverwriteProtection)
        } else {
            None
        }
    }

    /// Reading a column back from its key gives the column: no two columns
    /// share a key.
    pub proof fn lemma_key_roundtrip(c: Self)
        ensures
            Self::with_key(c.key()) == Some(c),
    {
        reveal_strlit("column.efs.fs.name");
        reveal_strlit("column.efs.fs.file_system_id");
        reveal_strlit("column.efs.fs.creation_token");
        reveal_strlit("column.efs.fs.encrypted");
        reveal_strlit("column.efs.fs.kms_key_id");
        reveal_strlit("column.efs.fs.total_size");
        reveal_strlit("column.efs.fs.size_in_standard");
        reveal_strlit("column.efs.fs.size_in_ia");
        reveal_strlit("column.efs.fs.size_in_archive");
        reveal_strlit("column.efs.fs.provisioned_throughput");
        reveal_strlit("column.efs.fs.throughput_mode");
        reveal_strlit("column.efs.fs.life_cycle_state");
        reveal_strlit("column.efs.fs.number_of_mount_targets");
        reveal_strlit("column.efs.fs.owner_id");
        reveal_strlit("column.efs.fs.creation_time");
        reveal_strlit("column.efs.fs.performance_mode");
        reveal_strlit("column.efs.fs.availability_zone");
        reveal_strlit("column.efs.fs.replication_overwrite_protection");
        assert("column.efs.fs.name"@.len() == 18);
        assert("column.efs.fs.file_system_id"@.len() == 28);
        assert("column.efs.fs.creation_token"@.len() == 28);
        assert("column.efs.fs.encrypted"@.len() == 23);
        assert("column.efs.fs.kms_key_id"@.len() == 24);
        assert("column.efs.fs.total_size"@.len() == 24);
        assert("column.efs.fs.size_in_standard"@.len() == 30);
        assert("column.efs.fs.size_in_ia"@.len() == 24);
        assert("column.efs.fs.size_in_archive"@.len() == 29);
        assert("column.efs.fs.provisioned_throughput"@.len() == 36);
        assert("column.efs.fs.throughput_mode"@.len() == 29);
        assert("column.efs.fs.life_cycle_state"@.len() == 30);
        assert("column.efs.fs.number_of_mount_targets"@.len() == 37);
        assert("column.efs.fs.owner_id"@.len() == 22);
        assert("column.efs.fs.creation_time"@.len() == 27);
        assert("column.efs.fs.performance_mode"@.len() == 30);
        assert("column.efs.fs.availability_zone"@.len() == 31);
        assert("column.efs.fs.replication_overwrite_protection"@.len() == 46);
        assert("column.efs.fs.creation_token"@[14] != "column.efs.fs.file_system_id"@[14]);
        assert("column.efs.fs.total_size"@[14] != "column.efs.fs.kms_key_id"@[14]);
        assert("column.efs.fs.size_in_ia"@[14] != "column.efs.fs.kms_key_id"@[14]);
        assert("column.efs.fs.size_in_ia"@[14] != "column.efs.fs.total_size"@[14]);
        assert("column.efs.fs.throughput_mode"@[14] != "column.efs.fs.size_in_archive"@[14]);
        assert("column.efs.fs.life_cycle_state"@[14] != "column.efs.fs.size_in_standard"@[14]);
        assert("column.efs.fs.performance_mode"@[14] != "column.efs.fs.size_in_standard"@[14]);
        assert("column.efs.fs.performance_mode"@[14] != "column.efs.fs.life_cycle_state"@[14]);
    }

    /// Every column, in display order.
    pub open spec fn every() -> Seq<Self> {
        seq![Column::Name, Column::FileSystemId, Column::CreationToken, Column::Encrypted, Column::KmsKeyId, Column::TotalSize, Column::SizeInStandard, Column::SizeInIa, Column::SizeInArchive, Column::ProvisionedThroughput, Column::ThroughputMode, Column::LifeCycleState, Column::NumberOfMountTargets, Column::OwnerId, Column::CreationTime, Column::PerformanceMode, Column::AvailabilityZone, Column::ReplicationOverwriteProtection]
    }

    /// The translation key of the column.
    pub fn id(&self) -> (r: ColumnId)
        ensures
            r@ == self.key(),
    {
        match self {
            Column::Name => "column.efs.fs.name",
            Column::FileSystemId => "column.efs.fs.file_system_id",
            Column::CreationToken => "column.efs.fs.creation_token",
            Column::Encrypted => "column.efs.fs.encrypted",
            Column::KmsKeyId => "column.efs.fs.kms_key_id",
            Column::TotalSize => "column.efs.fs.total_size",
            Column::SizeInStandard => "column.efs.fs.size_in_standard",
            Column::SizeInIa => "column.efs.fs.size_in_ia",
            Column::SizeInArchive => "column.efs.fs.size_in_archive",
            Column::ProvisionedThroughput => "column.efs.fs.provisioned_throughput",
            Column::ThroughputMode => "column.efs.fs.throughput_mode",
            Column::LifeCycleState => "column.efs.fs.life_cycle_state",
            Column::NumberOfMountTargets => "column.efs.fs.number_of_mount_targets",
            Column::OwnerId => "column.efs.fs.owner_id",
            Column::CreationTime => "column.efs.fs.creation_time",
            Column::PerformanceMode => "column.efs.fs.performance_mode",
            Column::AvailabilityZone => "column.efs.fs.availability_zone",
            Column::ReplicationOverwriteProtection => "column.efs.fs.replication_overwrite_protection",
        }
    }

    /// The label of the column when no translation replaces it.
    pub fn default_name(&self) -> (r: &'static str)
        ensures
            r@ == self.default_label(),
    {
        match self {
            Column::Name => "Name",
            Column::FileSystemId => "File system ID",
            Column::CreationToken => "Creation token",
            Column::Encrypted => "Encrypted",
            Column::KmsKeyId => "KMS Key ID",
            Column::TotalSize => "Total size",
            Column::SizeInStandard => "Size in Standard",
            Column::SizeInIa => "Size in IA",
            Column::SizeInArchive => "Size in Archive",
            Column::ProvisionedThroughput => "Provisioned Throughput (MiB/s)",
            Column::ThroughputMode => "Throughput mode",
            Column::LifeCycleState => "File system state",
            Column::NumberOfMountTargets => "Number of mount targets",
            Column::OwnerId => "Owner ID",
            Column::CreationTime => "Creation time",
            Column::PerformanceMode => "Performance mode",
            Column::AvailabilityZone => "Availability Zone",
            Column::ReplicationOverwriteProtection => "Replication overwrite protection",
        }
    }

    /// The label of the column: its translation, else its default label.
    pub fn name(&self, tr: &Translations) -> (r: String)
        ensures
            r@ == translated_label(tr.entries@, self.key(), self.default_label()),
    {
        tr.translate_column(self.id(), self.default_name())
    }

    /// The column whose key is `id`, if any.
    pub fn from_id(id: &str) -> (r: Option<Self>)
        ensures
            r == Self::with_key(id@),
    {
        if str_eq(id, "column.efs.fs.name") {
            Some(Column::Name)
        } else if str_eq(id, "column.efs.fs.file_system_id") {
            Some(Column::FileSystemId)
        } else if str_eq(id, "column.efs.fs.creation_token") {
            Some(Column::CreationToken)
        } else if str_eq(id, "column.efs.fs.encrypted") {
            Some(Column::Encrypted)
        } else if str_eq(id, "column.efs.fs.kms_key_id") {
            Some(Column::KmsKeyId)
        } else if str_eq(id, "column.efs.fs.total_size") {
            Some(Column::TotalSize)
        } else if str_eq(id, "column.efs.fs.size_in_standard") {
            Some(Column::SizeInStandard)
        } else if str_eq(id, "column.efs.fs.size_in_ia") {
            Some(Column::SizeInIa)
        } else if str_eq(id, "column.efs.fs.size_in_archive") {
            Some(Column::SizeInArchive)
        } else if str_eq(id, "column.efs.fs.provisioned_throughput") {
            Some(Column::ProvisionedThroughput)
        } else if str_eq(id, "column.efs.fs.throughput_mode") {
            Some(Column::ThroughputMode)
        } else if str_eq(id, "column.efs.fs.life_cycle_state") {
            Some(Column::LifeCycleState)
        } else if str_eq(id, "column.efs.fs.number_of_mount_targets") {
            Some(Column::NumberOfMountTargets)
        } else if str_eq(id, "column.efs.fs.owner_id") {
            Some(Column::OwnerId)
        } else if str_eq(id, "column.efs.fs.creation_time") {
            Some(Column::CreationTime)
        } else if str_eq(id, "column.efs.fs.performance_mode") {
            Some(Column::PerformanceMode)
        } else if str_eq(id, "column.efs.fs.availability_zone") {
            Some(Column::AvailabilityZone)
        } else if str_eq(id, "column.efs.fs.replication_overwrite_protection") {
            Some(Column::ReplicationOverwriteProtection)
        } else {
            None
        }
    }

    /// Every column, in display order.
    pub fn all() -> (r: [Self; 18])
        ensures
            r@ == Self::every(),
    {
        let r = [Column::Name, Column::FileSystemId, Column::CreationToken, Column::Encrypted, Column::KmsKeyId, Column::TotalSize, Column::SizeInStandard, Column::SizeInIa, Column::SizeInArchive, Column::ProvisionedThroughput, Column::ThroughputMode, Column::LifeCycleState, Column::NumberOfMountTargets, Column::OwnerId, Column::CreationTime, Column::PerformanceMode, Column::AvailabilityZone, Column::ReplicationOverwriteProtection];
        assert(r@ =~= Self::every());
        r
    }

    /// The keys of every column, in display order.
    pub fn ids() -> (r: Vec<ColumnId>)
        ensures
            r@.len() == Self::every().len(),
            forall|i: int| 0 <= i < r@.len() ==> (#[trigger] r@[i])@ == Self::every()[i].key(),
    {
        let r: Vec<ColumnId> = vec!["column.efs.fs.name", "column.efs.fs.file_system_id", "column.efs.fs.creation_token", "column.efs.fs.encrypted", "column.efs.fs.kms_key_id", "column.efs.fs.total_size", "column.efs.fs.size_in_standard", "column.efs.fs.size_in_ia", "column.efs.fs.size_in_archive", "column.efs.fs.provisioned_throughput", "column.efs.fs.throughput_mode", "column.efs.fs.life_cycle_state", "column.efs.fs.number_of_mount_targets", "column.efs.fs.owner_id", "column.efs.fs.creation_time", "column.efs.fs.performance_mode", "column.efs.fs.availability_zone", "column.efs.fs.replication_overwrite_protection"];
        assert forall|i: int| 0 <= i < r@.len() implies (#[trigger] r@[i])@ == Self::every()[i].key() by {
            assert(r@ =~= seq!["column.efs.fs.name", "column.efs.fs.file_system_id", "column.efs.fs.creation_token", "column.efs.fs.encrypted", "column.efs.fs.kms_key_id", "column.efs.fs.total_size", "column.efs.fs.size_in_standard", "column.efs.fs.size_in_ia", "column.efs.fs.size_in_archive", "column.efs.fs.provisioned_throughput", "column.efs.fs.throughput_mode", "column.efs.fs.life_cycle_state", "column.efs.fs.number_of_mount_targets", "column.efs.fs.owner_id", "column.efs.fs.creation_time", "column.efs.fs.performance_mode", "column.efs.fs.availability_zone", "column.efs.fs.replication_overwrite_protection"]);
        }
        r
    }

    /// The least display width of the column.
    pub open spec fn base_width(self) -> usize {
        match self {
            Column::Name => 30,
            Column::FileSystemId => 21,
            Column::CreationToken => 20,
            Column::Encrypted => 10,
            Column::KmsKeyId => 30,
            Column::TotalSize => 12,
            Column::SizeInStandard => 16,
            Column::SizeInIa => 10,
            Column::SizeInArchive => 14,
            Column::ProvisionedThroughput => 30,
            Column::ThroughputMode => 16,
            Column::LifeCycleState => 16,
            Column::NumberOfMountTargets => 23,
            Column::OwnerId => 14,
            Column::CreationTime => UTC_TIMESTAMP_WIDTH as usize,
            Column::PerformanceMode => 16,
            Column::AvailabilityZone => 20,
            Column::ReplicationOverwriteProtection => 34,
        }
    }

    /// The display width of the column: its label's byte length, at least its base width.
    pub fn width(&self, tr: &Translations) -> (r: u16)
        ensures
            r == label_width(translated_label(tr.entries@, self.key(), self.default_label()), self.base_width()),
    {
        let base: usize = match self {
            Column::Name => 30,
            Column::FileSystemId => 21,
            Column::CreationToken => 20,
            Column::Encrypted => 10,
            Column::KmsKeyId => 30,
            Column::TotalSize => 12,
            Column::SizeInStandard => 16,
            Column::SizeInIa => 10,
            Column::SizeInArchive => 14,
            Column::ProvisionedThroughput => 30,
            Column::ThroughputMode => 16,
            Column::LifeCycleState => 16,
            Column::NumberOfMountTargets => 23,
            Column::OwnerId => 14,
            Column::CreationTime => UTC_TIMESTAMP_WIDTH as usize,
            Column::PerformanceMode => 16,
            Column::AvailabilityZone => 20,
            Column::ReplicationOverwriteProtection => 34,
        };
        column_width(tr, self.id(), self.default_name(), base)
    }

    /// The text of the column's cell for `item`, and the colour it is drawn in
    /// where the column gives it one.
    pub open spec fn cell(self, item: FileSystem) -> (Seq<char>, Option<CellColor>) {
        match self {
            Column::Name => (item.name@, None),
            Column::FileSystemId => (item.file_system_id@, None),
            Column::CreationToken => (item.creation_token@, None),
            Column::Encrypted => (item.encrypted@, Some(encrypted_color(item.encrypted@))),
            Column::KmsKeyId => (item.kms_key_id@, None),
            Column::TotalSize => (item.total_size@, None),
            Column::SizeInStandard => (item.size_in_standard@, None),
            Column::SizeInIa => (item.size_in_ia@, None),
            Column::SizeInArchive => (item.size_in_archive@, None),
            Column::ProvisionedThroughput => (item.provisioned_throughput@, None),
            Column::ThroughputMode => (item.throughput_mode@, None),
            Column::LifeCycleState => (life_cycle_label(item.life_cycle_state@).0, Some(life_cycle_label(item.life_cycle_state@).1)),
            Column::NumberOfMountTargets => (item.number_of_mount_targets@, None),
            Column::OwnerId => (item.owner_id@, None),
            Column::CreationTime => (iso_label(item.creation_time@), None),
            Column::PerformanceMode => (performance_label(item.performance_mode@), None),
            Column::AvailabilityZone => (item.availability_zone@, None),
            Column::ReplicationOverwriteProtection => (item.replication_overwrite_protection@, Some(replication_color(item.replication_overwrite_protection@))),
        }
    }

    /// The cell of the column for `item`, with its colour where it has one.
    pub fn render(&self, item: &FileSystem) -> (r: (String, Option<CellColor>))
        ensures
            (r.0@, r.1) == self.cell(*item),
    {
        match self {
            Column::Name => (item.name.clone(), None),
            Column::FileSystemId => (item.file_system_id.clone(), None),
            Column::CreationToken => (item.creation_token.clone(), None),
            Column::Encrypted => (item.encrypted.clone(), Some(encryption_color(item.encrypted.as_str()))),
            Column::KmsKeyId => (item.kms_key_id.clone(), None),
            Column::TotalSize => (item.total_size.clone(), None),
            Column::SizeInStandard => (item.size_in_standard.clone(), None),
            Column::SizeInIa => (item.size_in_ia.clone(), None),
            Column::SizeInArchive => (item.size_in_archive.clone(), None),
            Column::ProvisionedThroughput => (item.provisioned_throughput.clone(), None),
            Column::ThroughputMode => (format_throughput_mode(item.throughput_mode.as_str()), None),
            Column::LifeCycleState => {
                let (text, color) = format_life_cycle_state(item.life_cycle_state.as_str());
                (owned(text), Some(color))
            },
            Column::NumberOfMountTargets => (item.number_of_mount_targets.clone(), None),
            Column::OwnerId => (item.owner_id.clone(), None),
            Column::CreationTime => (format_iso_timestamp(item.creation_time.as_str()), None),
            Column::PerformanceMode => (format_performance_mode(item.performance_mode.as_str()), None),
            Column::AvailabilityZone => (item.availability_zone.clone(), None),
            Column::ReplicationOverwriteProtection => (format_replication_protection(item.replication_overwrite_protection.as_str()), Some(replication_protection_color(item.replication_overwrite_protection.as_str()))),
        }
    }

}

/// The keys of the columns shown before any is hidden.
pub open spec fn default_visible_keys() -> Seq<Seq<char>> {
    seq!["column.efs.fs.name"@, "column.efs.fs.file_system_id"@, "column.efs.fs.encrypted"@, "column.efs.fs.total_size"@, "column.efs.fs.size_in_standard"@, "column.efs.fs.size_in_ia"@, "column.efs.fs.size_in_archive"@, "column.efs.fs.provisioned_throughput"@, "column.efs.fs.life_cycle_state"@, "column.efs.fs.creation_time"@, "column.efs.fs.availability_zone"@, "column.efs.fs.replication_overwrite_protection"@]
}

impl Column {
    /// The keys of the columns shown before any is hidden: all but the
    /// creation token, the key, the throughput and performance modes, the
    /// number of mount targets and the owner.
    pub fn default_visible_ids() -> (r: Vec<ColumnId>)
        ensures
            r@.map_values(|s: &str| s@) == default_visible_keys(),
    {
        let r: Vec<ColumnId> = vec!["column.efs.fs.name", "column.efs.fs.file_system_id", "column.efs.fs.encrypted", "column.efs.fs.total_size", "column.efs.fs.size_in_standard", "column.efs.fs.size_in_ia", "column.efs.fs.size_in_archive", "column.efs.fs.provisioned_throughput", "column.efs.fs.life_cycle_state", "column.efs.fs.creation_time", "column.efs.fs.availability_zone", "column.efs.fs.replication_overwrite_protection"];
        assert(r@.map_values(|s: &str| s@) =~= default_visible_keys());
        r
    }
}

} // verus!

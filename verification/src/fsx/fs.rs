//! The columns of the file systems table.
use vstd::prelude::*;
use vstd::string::*;
use crate::common::{
    column_width, label_width, lookup, translated_label, with_defaults, ColumnId, Translations,
    UTC_TIMESTAMP_WIDTH,
};
pub use crate::cloud::fsx::FsxFileSystem as FileSystem;
use crate::text::{owned, str_eq};
use crate::timestamp::{format_iso_timestamp, iso_label};

verus! {

/// The column keys and default labels that `init` lays down, in order.
pub open spec fn default_labels() -> (Seq<Seq<char>>, Seq<Seq<char>>) {
    (
        seq!["column.fsx.fs.name"@, "column.fsx.fs.file_system_id"@, "column.fsx.fs.file_system_type"@, "column.fsx.fs.status"@, "column.fsx.fs.deployment_type"@, "column.fsx.fs.storage_class"@, "column.fsx.fs.storage_capacity"@, "column.fsx.fs.throughput_capacity"@, "column.fsx.fs.provisioned_iops"@, "column.fsx.fs.creation_time"@, "column.fsx.fs.lustre_version"@, "column.fsx.fs.vpc"@, "column.fsx.fs.kms_key_id"@],
        seq!["File system name"@, "File system ID"@, "File system type"@, "Status"@, "Deployment type"@, "Storage class"@, "Storage capacity"@, "Throughput capacity"@, "Provisioned IOPS"@, "Creation time"@, "File system Lustre version"@, "VPC"@, "KMS key ID"@],
    )
}

/// Gives every column key its default label, unless it already has a translation.
pub fn init(tr: &mut Translations)
    ensures
        forall|k: Seq<char>| #[trigger] lookup(final(tr).entries@, k) == with_defaults(
            lookup(old(tr).entries@, k), default_labels().0, default_labels().1, k),
{
    let keys: Vec<ColumnId> = vec!["column.fsx.fs.name", "column.fsx.fs.file_system_id", "column.fsx.fs.file_system_type", "column.fsx.fs.status", "column.fsx.fs.deployment_type", "column.fsx.fs.storage_class", "column.fsx.fs.storage_capacity", "column.fsx.fs.throughput_capacity", "column.fsx.fs.provisioned_iops", "column.fsx.fs.creation_time", "column.fsx.fs.lustre_version", "column.fsx.fs.vpc", "column.fsx.fs.kms_key_id"];
    let labels: Vec<&'static str> = vec!["File system name", "File system ID", "File system type", "Status", "Deployment type", "Storage class", "Storage capacity", "Throughput capacity", "Provisioned IOPS", "Creation time", "File system Lustre version", "VPC", "KMS key ID"];
    assert(keys@.map_values(|s: &str| s@) =~= default_labels().0);
    assert(labels@.map_values(|s: &str| s@) =~= default_labels().1);
    tr.set_defaults(&keys, &labels);
}

/// The colour a file system status is drawn in.
#[derive(Clone, Copy, Debug, PartialEq, Eq, Structural)]
pub enum StatusColor {
    Green,
    Yellow,
    Red,
    White,
}

/// `s` is one of the three spellings `a`, `b`, `c`.
pub open spec fn one_of(s: Seq<char>, a: Seq<char>, b: Seq<char>, c: Seq<char>) -> bool {
    s == a || s == b || s == c
}

/// The label and colour of a file system status in any of the spellings FSx
/// uses; `Unknown` in white for any other status.
pub open spec fn status_label(s: Seq<char>) -> (Seq<char>, StatusColor) {
    if one_of(s, "AVAILABLE"@, "Available"@, "available"@) {
        ("✅ Available"@, StatusColor::Green)
    } else if one_of(s, "CREATING"@, "Creating"@, "creating"@) {
        ("⏳ Creating"@, StatusColor::Yellow)
    } else if one_of(s, "UPDATING"@, "Updating"@, "updating"@) {
        ("🔄 Updating"@, StatusColor::Yellow)
    } else if one_of(s, "DELETING"@, "Deleting"@, "deleting"@) {
        ("🗑 Deleting"@, StatusColor::Red)
    } else if one_of(s, "FAILED"@, "Failed"@, "failed"@) {
        ("⚠ Failed"@, StatusColor::Red)
    } else if one_of(s, "MISCONFIGURED"@, "Misconfigured"@, "MISCONFIGURED_UNAVAILABLE"@) {
        ("⚠ Misconfigured"@, StatusColor::Red)
    } else {
        ("Unknown"@, StatusColor::White)
    }
}

/// The label and colour of a file system status.
pub fn format_status(status: &str) -> (r: (&'static str, StatusColor))
    ensures
        (r.0@, r.1) == status_label(status@),
{
    if str_eq(status, "AVAILABLE") || str_eq(status, "Available") || str_eq(status, "available") {
        ("✅ Available", StatusColor::Green)
    } else if str_eq(status, "CREATING") || str_eq(status, "Creating") || str_eq(status, "creating") {
        ("⏳ Creating", StatusColor::Yellow)
    } else if str_eq(status, "UPDATING") || str_eq(status, "Updating") || str_eq(status, "updating") {
        ("🔄 Updating", StatusColor::Yellow)
    } else if str_eq(status, "DELETING") || str_eq(status, "Deleting") || str_eq(status, "deleting") {
        ("🗑 Deleting", StatusColor::Red)
    } else if str_eq(status, "FAILED") || str_eq(status, "Failed") || str_eq(status, "failed") {
        ("⚠ Failed", StatusColor::Red)
    } else if str_eq(status, "MISCONFIGURED") || str_eq(status, "Misconfigured")
        || str_eq(status, "MISCONFIGURED_UNAVAILABLE") {
        ("⚠ Misconfigured", StatusColor::Red)
    } else {
        ("Unknown", StatusColor::White)
    }
}

/// The label of a deployment type: the type as FSx names it, split into words with the version number apart; any other type as it is.
pub open spec fn deployment_label(s: Seq<char>) -> Seq<char> {
    if s == "Persistent1"@ {
        "Persistent 1"@
    } else if s == "Persistent2"@ {
        "Persistent 2"@
    } else if s == "Scratch1"@ {
        "Scratch 1"@
    } else if s == "Scratch2"@ {
        "Scratch 2"@
    } else if s == "MultiAz1"@ {
        "Multi-AZ 1"@
    } else if s == "MultiAz2"@ {
        "Multi-AZ 2"@
    } else if s == "SingleAz1"@ {
        "Single-AZ 1"@
    } else if s == "SingleAz2"@ {
        "Single-AZ 2"@
    } else if s == "SingleAzHa1"@ {
        "Single-AZ HA 1"@
    } else if s == "SingleAzHa2"@ {
        "Single-AZ HA 2"@
    } else {
        s
    }
}

/// The label of a deployment type.
pub fn format_deployment_type(s: &str) -> (r: String)
    ensures
        r@ == deployment_label(s@),
{
    if str_eq(s, "Persistent1") {
        String::from_str("Persistent 1")
    } else if str_eq(s, "Persistent2") {
        String::from_str("Persistent 2")
    } else if str_eq(s, "Scratch1") {
        String::from_str("Scratch 1")
    } else if str_eq(s, "Scratch2") {
        String::from_str("Scratch 2")
    } else if str_eq(s, "MultiAz1") {
        String::from_str("Multi-AZ 1")
    } else if str_eq(s, "MultiAz2") {
        String::from_str("Multi-AZ 2")
    } else if str_eq(s, "SingleAz1") {
        String::from_str("Single-AZ 1")
    } else if str_eq(s, "SingleAz2") {
        String::from_str("Single-AZ 2")
    } else if str_eq(s, "SingleAzHa1") {
        String::from_str("Single-AZ HA 1")
    } else if str_eq(s, "SingleAzHa2") {
        String::from_str("Single-AZ HA 2")
    } else {
        owned(s)
    }
}

/// The label of a storage class: SSD, HDD and Intelligent-Tiering as AWS writes them; any other class as it is.
pub open spec fn storage_class_label(s: Seq<char>) -> Seq<char> {
    if s == "Ssd"@ {
        "SSD"@
    } else if s == "Hdd"@ {
        "HDD"@
    } else if s == "IntelligentTiering"@ {
        "Intelligent-Tiering"@
    } else {
        s
    }
}

/// The label of a storage class.
pub fn format_storage_class(s: &str) -> (r: String)
    ensures
        r@ == storage_class_label(s@),
{
    if str_eq(s, "Ssd") {
        String::from_str("SSD")
    } else if str_eq(s, "Hdd") {
        String::from_str("HDD")
    } else if str_eq(s, "IntelligentTiering") {
        String::from_str("Intelligent-Tiering")
    } else {
        owned(s)
    }
}

/// A column of the file systems table.
#[derive(Clone, Copy, Debug, PartialEq, Eq, Structural)]
pub enum Column {
    Name,
    FileSystemId,
    FileSystemType,
    Status,
    DeploymentType,
    StorageClass,
    StorageCapacity,
    ThroughputCapacity,
    ProvisionedIops,
    CreationTime,
    LustreVersion,
    Vpc,
    KmsKeyId,
}

impl Column {
    /// The translation key of the column.
    pub open spec fn key(self) -> Seq<char> {
        match self {
            Column::Name => "column.fsx.fs.name"@,
            Column::FileSystemId => "column.fsx.fs.file_system_id"@,
            Column::FileSystemType => "column.fsx.fs.file_system_type"@,
            Column::Status => "column.fsx.fs.status"@,
            Column::DeploymentType => "column.fsx.fs.deployment_type"@,
            Column::StorageClass => "column.fsx.fs.storage_class"@,
            Column::StorageCapacity => "column.fsx.fs.storage_capacity"@,
            Column::ThroughputCapacity => "column.fsx.fs.throughput_capacity"@,
            Column::ProvisionedIops => "column.fsx.fs.provisioned_iops"@,
            Column::CreationTime => "column.fsx.fs.creation_time"@,
            Column::LustreVersion => "column.fsx.fs.lustre_version"@,
            Column::Vpc => "column.fsx.fs.vpc"@,
            Column::KmsKeyId => "column.fsx.fs.kms_key_id"@,
        }
    }

    /// The label of the column when no translation replaces it.
    pub open spec fn default_label(self) -> Seq<char> {
        match self {
            Column::Name => "File system name"@,
            Column::FileSystemId => "File system ID"@,
            Column::FileSystemType => "File system type"@,
            Column::Status => "Status"@,
            Column::DeploymentType => "Deployment type"@,
            Column::StorageClass => "Storage class"@,
            Column::StorageCapacity => "Storage capacity"@,
            Column::ThroughputCapacity => "Throughput capacity"@,
            Column::ProvisionedIops => "Provisioned IOPS"@,
            Column::CreationTime => "Creation time"@,
            Column::LustreVersion => "File system Lustre version"@,
            Column::Vpc => "VPC"@,
            Column::KmsKeyId => "KMS key ID"@,
        }
    }

    /// The column whose key is `id`, if any.
    pub open spec fn with_key(id: Seq<char>) -> Option<Self> {
        if id == "column.fsx.fs.name"@ {
            Some(Column::Name)
        } else if id == "column.fsx.fs.file_system_id"@ {
            Some(Column::FileSystemId)
        } else if id == "column.fsx.fs.file_system_type"@ {
            Some(Column::FileSystemType)
        } else if id == "column.fsx.fs.status"@ {
            Some(Column::Status)
        } else if id == "column.fsx.fs.deployment_type"@ {
            Some(Column::DeploymentType)
        } else if id == "column.fsx.fs.storage_class"@ {
            Some(Column::StorageClass)
        } else if id == "column.fsx.fs.storage_capacity"@ {
            Some(Column::StorageCapacity)
        } else if id == "column.fsx.fs.throughput_capacity"@ {
            Some(Column::ThroughputCapacity)
        } else if id == "column.fsx.fs.provisioned_iops"@ {
            Some(Column::ProvisionedIops)
        } else if id == "column.fsx.fs.creation_time"@ {
            Some(Column::CreationTime)
        } else if id == "column.fsx.fs.lustre_version"@ {
            Some(Column::LustreVersion)
        } else if id == "column.fsx.fs.vpc"@ {
            Some(Column::Vpc)
        } else if id == "column.fsx.fs.kms_key_id"@ {
            Some(Column::KmsKeyId)
        } else {
            None
        }
    }

    /// Reading a column back from its key gives the column: no two columns
    /// share a key.
    pub proof fn lemma_key_roundtrip(c: Self)
        ensures
            Self::with_key(c.key()) == Some(c),
    {
        reveal_strlit("column.fsx.fs.name");
        reveal_strlit("column.fsx.fs.file_system_id");
        reveal_strlit("column.fsx.fs.file_system_type");
        reveal_strlit("column.fsx.fs.status");
        reveal_strlit("column.fsx.fs.deployment_type");
        reveal_strlit("column.fsx.fs.storage_class");
        reveal_strlit("column.fsx.fs.storage_capacity");
        reveal_strlit("column.fsx.fs.throughput_capacity");
        reveal_strlit("column.fsx.fs.provisioned_iops");
        reveal_strlit("column.fsx.fs.creation_time");
        reveal_strlit("column.fsx.fs.lustre_version");
        reveal_strlit("column.fsx.fs.vpc");
        reveal_strlit("column.fsx.fs.kms_key_id");
        assert("column.fsx.fs.name"@.len() == 18);
        assert("column.fsx.fs.file_system_id"@.len() == 28);
        assert("column.fsx.fs.file_system_type"@.len() == 30);
        assert("column.fsx.fs.status"@.len() == 20);
        assert("column.fsx.fs.deployment_type"@.len() == 29);
        assert("column.fsx.fs.storage_class"@.len() == 27);
        assert("column.fsx.fs.storage_capacity"@.len() == 30);
        assert("column.fsx.fs.throughput_capacity"@.len() == 33);
        assert("column.fsx.fs.provisioned_iops"@.len() == 30);
        assert("column.fsx.fs.creation_time"@.len() == 27);
        assert("column.fsx.fs.lustre_version"@.len() == 28);
        assert("column.fsx.fs.vpc"@.len() == 17);
        assert("column.fsx.fs.kms_key_id"@.len() == 24);
        assert("column.fsx.fs.storage_capacity"@[14] != "column.fsx.fs.file_system_type"@[14]);
        assert("column.fsx.fs.provisioned_iops"@[14] != "column.fsx.fs.file_system_type"@[14]);
        assert("column.fsx.fs.provisioned_iops"@[14] != "column.fsx.fs.storage_capacity"@[14]);
        assert("column.fsx.fs.creation_time"@[14] != "column.fsx.fs.storage_class"@[14]);
        assert("column.fsx.fs.lustre_version"@[14] != "column.fsx.fs.file_system_id"@[14]);
    }

    /// Every column, in display order.
    pub open spec fn every() -> Seq<Self> {
        seq![Column::Name, Column::FileSystemId, Column::FileSystemType, Column::Status, Column::DeploymentType, Column::StorageClass, Column::StorageCapacity, Column::ThroughputCapacity, Column::ProvisionedIops, Column::CreationTime, Column::LustreVersion, Column::Vpc, Column::KmsKeyId]
    }

    /// The translation key of the column.
    pub fn id(&self) -> (r: ColumnId)
        ensures
            r@ == self.key(),
    {
        match self {
            Column::Name => "column.fsx.fs.name",
            Column::FileSystemId => "column.fsx.fs.file_system_id",
            Column::FileSystemType => "column.fsx.fs.file_system_type",
            Column::Status => "column.fsx.fs.status",
            Column::DeploymentType => "column.fsx.fs.deployment_type",
            Column::StorageClass => "column.fsx.fs.storage_class",
            Column::StorageCapacity => "column.fsx.fs.storage_capacity",
            Column::ThroughputCapacity => "column.fsx.fs.throughput_capacity",
            Column::ProvisionedIops => "column.fsx.fs.provisioned_iops",
            Column::CreationTime => "column.fsx.fs.creation_time",
            Column::LustreVersion => "column.fsx.fs.lustre_version",
            Column::Vpc => "column.fsx.fs.vpc",
            Column::KmsKeyId => "column.fsx.fs.kms_key_id",
        }
    }

    /// The label of the column when no translation replaces it.
    pub fn default_name(&self) -> (r: &'static str)
        ensures
            r@ == self.default_label(),
    {
        match self {
            Column::Name => "File system name",
            Column::FileSystemId => "File system ID",
            Column::FileSystemType => "File system type",
            Column::Status => "Status",
            Column::DeploymentType => "Deployment type",
            Column::StorageClass => "Storage class",
            Column::StorageCapacity => "Storage capacity",
            Column::ThroughputCapacity => "Throughput capacity",
            Column::ProvisionedIops => "Provisioned IOPS",
            Column::CreationTime => "Creation time",
            Column::LustreVersion => "File system Lustre version",
            Column::Vpc => "VPC",
            Column::KmsKeyId => "KMS key ID",
        }
    }

    /// The label of the column: its translation, else its default label.
    pub fn name(&self, tr: &Translations) -> (r: String)
        ensures
            r@ == translated_label(tr.entries@, self.key(), self.default_label()),
    {
        tr.translate_column(self.id(), self.default_name())
    }

    /// The column whose key is `id`, if any.
    pub fn from_id(id: &str) -> (r: Option<Self>)
        ensures
            r == Self::with_key(id@),
    {
        if str_eq(id, "column.fsx.fs.name") {
            Some(Column::Name)
        } else if str_eq(id, "column.fsx.fs.file_system_id") {
            Some(Column::FileSystemId)
        } else if str_eq(id, "column.fsx.fs.file_system_type") {
            Some(Column::FileSystemType)
        } else if str_eq(id, "column.fsx.fs.status") {
            Some(Column::Status)
        } else if str_eq(id, "column.fsx.fs.deployment_type") {
            Some(Column::DeploymentType)
        } else if str_eq(id, "column.fsx.fs.storage_class") {
            Some(Column::StorageClass)
        } else if str_eq(id, "column.fsx.fs.storage_capacity") {
            Some(Column::StorageCapacity)
        } else if str_eq(id, "column.fsx.fs.throughput_capacity") {
            Some(Column::ThroughputCapacity)
        } else if str_eq(id, "column.fsx.fs.provisioned_iops") {
            Some(Column::ProvisionedIops)
        } else if str_eq(id, "column.fsx.fs.creation_time") {
            Some(Column::CreationTime)
        } else if str_eq(id, "column.fsx.fs.lustre_version") {
            Some(Column::LustreVersion)
        } else if str_eq(id, "column.fsx.fs.vpc") {
            Some(Column::Vpc)
        } else if str_eq(id, "column.fsx.fs.kms_key_id") {
            Some(Column::KmsKeyId)
        } else {
            None
        }
    }

    /// Every column, in display order.
    pub fn all() -> (r: [Self; 13])
        ensures
            r@ == Self::every(),
    {
        let r = [Column::Name, Column::FileSystemId, Column::FileSystemType, Column::Status, Column::DeploymentType, Column::StorageClass, Column::StorageCapacity, Column::ThroughputCapacity, Column::ProvisionedIops, Column::CreationTime, Column::LustreVersion, Column::Vpc, Column::KmsKeyId];
        assert(r@ =~= Self::every());
        r
    }

    /// The keys of every column, in display order.
    pub fn ids() -> (r: Vec<ColumnId>)
        ensures
            r@.len() == Self::every().len(),
            forall|i: int| 0 <= i < r@.len() ==> (#[trigger] r@[i])@ == Self::every()[i].key(),
    {
        let r: Vec<ColumnId> = vec!["column.fsx.fs.name", "column.fsx.fs.file_system_id", "column.fsx.fs.file_system_type", "column.fsx.fs.status", "column.fsx.fs.deployment_type", "column.fsx.fs.storage_class", "column.fsx.fs.storage_capacity", "column.fsx.fs.throughput_capacity", "column.fsx.fs.provisioned_iops", "column.fsx.fs.creation_time", "column.fsx.fs.lustre_version", "column.fsx.fs.vpc", "column.fsx.fs.kms_key_id"];
        assert forall|i: int| 0 <= i < r@.len() implies (#[trigger] r@[i])@ == Self::every()[i].key() by {
            assert(r@ =~= seq!["column.fsx.fs.name", "column.fsx.fs.file_system_id", "column.fsx.fs.file_system_type", "column.fsx.fs.status", "column.fsx.fs.deployment_type", "column.fsx.fs.storage_class", "column.fsx.fs.storage_capacity", "column.fsx.fs.throughput_capacity", "column.fsx.fs.provisioned_iops", "column.fsx.fs.creation_time", "column.fsx.fs.lustre_version", "column.fsx.fs.vpc", "column.fsx.fs.kms_key_id"]);
        }
        r
    }

    /// The least display width of the column.
    pub open spec fn base_width(self) -> usize {
        match self {
            Column::Name => 24,
            Column::FileSystemId => 21,
            Column::FileSystemType => 16,
            Column::Status => 14,
            Column::DeploymentType => 18,
            Column::StorageClass => 13,
            Column::StorageCapacity => 16,
            Column::ThroughputCapacity => 19,
            Column::ProvisionedIops => 16,
            Column::CreationTime => UTC_TIMESTAMP_WIDTH as usize,
            Column::LustreVersion => 26,
            Column::Vpc => 21,
            Column::KmsKeyId => 30,
        }
    }

    /// The display width of the column: its label's byte length, at least its base width.
    pub fn width(&self, tr: &Translations) -> (r: u16)
        ensures
            r == label_width(translated_label(tr.entries@, self.key(), self.default_label()), self.base_width()),
    {
        let base: usize = match self {
            Column::Name => 24,
            Column::FileSystemId => 21,
            Column::FileSystemType => 16,
            Column::Status => 14,
            Column::DeploymentType => 18,
            Column::StorageClass => 13,
            Column::StorageCapacity => 16,
            Column::ThroughputCapacity => 19,
            Column::ProvisionedIops => 16,
            Column::CreationTime => UTC_TIMESTAMP_WIDTH as usize,
            Column::LustreVersion => 26,
            Column::Vpc => 21,
            Column::KmsKeyId => 30,
        };
        column_width(tr, self.id(), self.default_name(), base)
    }

    /// The text of the column's cell for `item`, and the colour it is drawn in
    /// where the column gives it one.
    pub open spec fn cell(self, item: FileSystem) -> (Seq<char>, Option<StatusColor>) {
        match self {
            Column::Name => (item.name@, None),
            Column::FileSystemId => (item.file_system_id@, None),
            Column::FileSystemType => (item.file_system_type@, None),
            Column::Status => (status_label(item.status@).0, Some(status_label(item.status@).1)),
            Column::DeploymentType => (deployment_label(item.deployment_type@), None),
            Column::StorageClass => (storage_class_label(item.storage_class@), None),
            Column::StorageCapacity => (item.storage_capacity@, None),
            Column::ThroughputCapacity => (item.throughput_capacity@, None),
            Column::ProvisionedIops => (item.provisioned_iops@, None),
            Column::CreationTime => (iso_label(item.creation_time@), None),
            Column::LustreVersion => (item.lustre_version@, None),
            Column::Vpc => (item.vpc_id@, None),
            Column::KmsKeyId => (item.kms_key_id@, None),
        }
    }

    /// The cell of the column for `item`, with its colour where it has one.
    pub fn render(&self, item: &FileSystem) -> (r: (String, Option<StatusColor>))
        ensures
            (r.0@, r.1) == self.cell(*item),
    {
        match self {
            Column::Name => (item.name.clone(), None),
            Column::FileSystemId => (item.file_system_id.clone(), None),
            Column::FileSystemType => (item.file_system_type.clone(), None),
            Column::Status => {
                let (text, color) = format_status(item.status.as_str());
                (owned(text), Some(color))
            },
            Column::DeploymentType => (format_deployment_type(item.deployment_type.as_str()), None),
            Column::StorageClass => (format_storage_class(item.storage_class.as_str()), None),
            Column::StorageCapacity => (item.storage_capacity.clone(), None),
            Column::ThroughputCapacity => (item.throughput_capacity.clone(), None),
            Column::ProvisionedIops => (item.provisioned_iops.clone(), None),
            Column::CreationTime => (format_iso_timestamp(item.creation_time.as_str()), None),
            Column::LustreVersion => (item.lustre_version.clone(), None),
            Column::Vpc => (item.vpc_id.clone(), None),
            Column::KmsKeyId => (item.kms_key_id.clone(), None),
        }
    }

}

/// The keys of the columns shown before any is hidden: all but the provisioned
/// IOPS, the Lustre version, the VPC and the KMS key.
pub open spec fn default_visible_keys() -> Seq<Seq<char>> {
    seq!["column.fsx.fs.name"@, "column.fsx.fs.file_system_id"@, "column.fsx.fs.file_system_type"@, "column.fsx.fs.status"@, "column.fsx.fs.deployment_type"@, "column.fsx.fs.storage_class"@, "column.fsx.fs.storage_capacity"@, "column.fsx.fs.throughput_capacity"@, "column.fsx.fs.creation_time"@]
}

impl Column {
    /// The keys of the columns shown before any is hidden.
    pub fn default_visible_ids() -> (r: Vec<ColumnId>)
        ensures
            r@.map_values(|s: &str| s@) == default_visible_keys(),
    {
        let r: Vec<ColumnId> = vec!["column.fsx.fs.name", "column.fsx.fs.file_system_id", "column.fsx.fs.file_system_type", "column.fsx.fs.status", "column.fsx.fs.deployment_type", "column.fsx.fs.storage_class", "column.fsx.fs.storage_capacity", "column.fsx.fs.throughput_capacity", "column.fsx.fs.creation_time"];
        assert(r@.map_values(|s: &str| s@) =~= default_visible_keys());
        r
    }
}

} // verus!

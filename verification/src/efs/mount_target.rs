//! The columns of the mount targets table.
use vstd::prelude::*;
use vstd::string::*;
use crate::common::{
    column_width, label_width, lookup, translated_label, with_defaults, ColumnId, Translations,
};
pub use crate::cloud::efs::EfsMountTarget as MountTarget;
use crate::efs::{format_life_cycle_state, life_cycle_label, CellColor};
use crate::text::{owned, str_eq};

verus! {

/// The column keys and default labels that `init` lays down, in order.
pub open spec fn default_labels() -> (Seq<Seq<char>>, Seq<Seq<char>>) {
    (
        seq!["column.efs.mt.availability_zone"@, "column.efs.mt.mount_target_id"@, "column.efs.mt.owner_id"@, "column.efs.mt.file_system_id"@, "column.efs.mt.subnet_id"@, "column.efs.mt.vpc_id"@, "column.efs.mt.state"@, "column.efs.mt.ipv4_address"@, "column.efs.mt.ipv6_address"@, "column.efs.mt.network_interface_id"@, "column.efs.mt.security_groups"@],
        seq!["Availability zone (AZ-ID)"@, "Mount target ID"@, "Owner ID"@, "File system ID"@, "Subnet ID"@, "VPC ID"@, "File system state"@, "IPv4 address"@, "IPv6 address"@, "Network interface ID"@, "Security groups"@],
    )
}

/// Gives every column key its default label, unless it already has a translation.
pub fn init(tr: &mut Translations)
    ensures
        forall|k: Seq<char>| #[trigger] lookup(final(tr).entries@, k) == with_defaults(
            lookup(old(tr).entries@, k), default_labels().0, default_labels().1, k),
{
    let keys: Vec<ColumnId> = vec!["column.efs.mt.availability_zone", "column.efs.mt.mount_target_id", "column.efs.mt.owner_id", "column.efs.mt.file_system_id", "column.efs.mt.subnet_id", "column.efs.mt.vpc_id", "column.efs.mt.state", "column.efs.mt.ipv4_address", "column.efs.mt.ipv6_address", "column.efs.mt.network_interface_id", "column.efs.mt.security_groups"];
    let labels: Vec<&'static str> = vec!["Availability zone (AZ-ID)", "Mount target ID", "Owner ID", "File system ID", "Subnet ID", "VPC ID", "File system state", "IPv4 address", "IPv6 address", "Network interface ID", "Security groups"];
    assert(keys@.map_values(|s: &str| s@) =~= default_labels().0);
    assert(labels@.map_values(|s: &str| s@) =~= default_labels().1);
    tr.set_defaults(&keys, &labels);
}

/// The zone of a mount target: its name, followed by its id in brackets when
/// it has one.
pub open spec fn zone_label(name: Seq<char>, id: Seq<char>) -> Seq<char> {
    if id.len() == 0 { name } else { name + " ("@ + id + ")"@ }
}

/// The zone of a mount target, as the zone column shows it.
pub fn format_zone(name: &str, id: &str) -> (r: String)
    ensures
        r@ == zone_label(name@, id@),
{
    if id.unicode_len() == 0 {
        owned(name)
    } else {
        let mut s = owned(name);
        s.append(" (");
        s.append(id);
        s.append(")");
        s
    }
}

/// A column of the mount targets table.
#[derive(Clone, Copy, Debug, PartialEq, Eq, Structural)]
pub enum Column {
    AvailabilityZone,
    MountTargetId,
    OwnerId,
    FileSystemId,
    SubnetId,
    VpcId,
    State,
    Ipv4Address,
    Ipv6Address,
    NetworkInterfaceId,
    SecurityGroups,
}

impl Column {
    /// The translation key of the column.
    pub open spec fn key(self) -> Seq<char> {
        match self {
            Column::AvailabilityZone => "column.efs.mt.availability_zone"@,
            Column::MountTargetId => "column.efs.mt.mount_target_id"@,
            Column::OwnerId => "column.efs.mt.owner_id"@,
            Column::FileSystemId => "column.efs.mt.file_system_id"@,
            Column::SubnetId => "column.efs.mt.subnet_id"@,
            Column::VpcId => "column.efs.mt.vpc_id"@,
            Column::State => "column.efs.mt.state"@,
            Column::Ipv4Address => "column.efs.mt.ipv4_address"@,
            Column::Ipv6Address => "column.efs.mt.ipv6_address"@,
            Column::NetworkInterfaceId => "column.efs.mt.network_interface_id"@,
            Column::SecurityGroups => "column.efs.mt.security_groups"@,
        }
    }

    /// The label of the column when no translation replaces it.
    pub open spec fn default_label(self) -> Seq<char> {
        match self {
            Column::AvailabilityZone => "Availability zone (AZ-ID)"@,
            Column::MountTargetId => "Mount target ID"@,
            Column::OwnerId => "Owner ID"@,
            Column::FileSystemId => "File system ID"@,
            Column::SubnetId => "Subnet ID"@,
            Column::VpcId => "VPC ID"@,
            Column::State => "File system state"@,
            Column::Ipv4Address => "IPv4 address"@,
            Column::Ipv6Address => "IPv6 address"@,
            Column::NetworkInterfaceId => "Network interface ID"@,
            Column::SecurityGroups => "Security groups"@,
        }
    }

    /// The column whose key is `id`, if any.
    pub open spec fn with_key(id: Seq<char>) -> Option<Self> {
        if id == "column.efs.mt.availability_zone"@ {
            Some(Column::AvailabilityZone)
        } else if id == "column.efs.mt.mount_target_id"@ {
            Some(Column::MountTargetId)
        } else if id == "column.efs.mt.owner_id"@ {
            Some(Column::OwnerId)
        } else if id == "column.efs.mt.file_system_id"@ {
            Some(Column::FileSystemId)
        } else if id == "column.efs.mt.subnet_id"@ {
            Some(Column::SubnetId)
        } else if id == "column.efs.mt.vpc_id"@ {
            Some(Column::VpcId)
        } else if id == "column.efs.mt.state"@ {
            Some(Column::State)
        } else if id == "column.efs.mt.ipv4_address"@ {
            Some(Column::Ipv4Address)
        } else if id == "column.efs.mt.ipv6_address"@ {
            Some(Column::Ipv6Address)
        } else if id == "column.efs.mt.network_interface_id"@ {
            Some(Column::NetworkInterfaceId)
        } else if id == "column.efs.mt.security_groups"@ {
            Some(Column::SecurityGroups)
        } else {
            None
        }
    }

    /// Reading a column back from its key gives the column: no two columns
    /// share a key.
    pub proof fn lemma_key_roundtrip(c: Self)
        ensures
            Self::with_key(c.key()) == Some(c),
    {
        reveal_strlit("column.efs.mt.availability_zone");
        reveal_strlit("column.efs.mt.mount_target_id");
        reveal_strlit("column.efs.mt.owner_id");
        reveal_strlit("column.efs.mt.file_system_id");
        reveal_strlit("column.efs.mt.subnet_id");
        reveal_strlit("column.efs.mt.vpc_id");
        reveal_strlit("column.efs.mt.state");
        reveal_strlit("column.efs.mt.ipv4_address");
        reveal_strlit("column.efs.mt.ipv6_address");
        reveal_strlit("column.efs.mt.network_interface_id");
        reveal_strlit("column.efs.mt.security_groups");
        assert("column.efs.mt.availability_zone"@.len() == 31);
        assert("column.efs.mt.mount_target_id"@.len() == 29);
        assert("column.efs.mt.owner_id"@.len() == 22);
        assert("column.efs.mt.file_system_id"@.len() == 28);
        assert("column.efs.mt.subnet_id"@.len() == 23);
        assert("column.efs.mt.vpc_id"@.len() == 20);
        assert("column.efs.mt.state"@.len() == 19);
        assert("column.efs.mt.ipv4_address"@.len() == 26);
        assert("column.efs.mt.ipv6_address"@.len() == 26);
        assert("column.efs.mt.network_interface_id"@.len() == 34);
        assert("column.efs.mt.security_groups"@.len() == 29);
        assert("column.efs.mt.ipv6_address"@[17] != "column.efs.mt.ipv4_address"@[17]);
        assert("column.efs.mt.security_groups"@[14] != "column.efs.mt.mount_target_id"@[14]);
    }

    /// Every column, in display order.
    pub open spec fn every() -> Seq<Self> {
        seq![Column::AvailabilityZone, Column::MountTargetId, Column::OwnerId, Column::FileSystemId, Column::SubnetId, Column::VpcId, Column::State, Column::Ipv4Address, Column::Ipv6Address, Column::NetworkInterfaceId, Column::SecurityGroups]
    }

    /// The translation key of the column.
    pub fn id(&self) -> (r: ColumnId)
        ensures
            r@ == self.key(),
    {
        match self {
            Column::AvailabilityZone => "column.efs.mt.availability_zone",
            Column::MountTargetId => "column.efs.mt.mount_target_id",
            Column::OwnerId => "column.efs.mt.owner_id",
            Column::FileSystemId => "column.efs.mt.file_system_id",
            Column::SubnetId => "column.efs.mt.subnet_id",
            Column::VpcId => "column.efs.mt.vpc_id",
            Column::State => "column.efs.mt.state",
            Column::Ipv4Address => "column.efs.mt.ipv4_address",
            Column::Ipv6Address => "column.efs.mt.ipv6_address",
            Column::NetworkInterfaceId => "column.efs.mt.network_interface_id",
            Column::SecurityGroups => "column.efs.mt.security_groups",
        }
    }

    /// The label of the column when no translation replaces it.
    pub fn default_name(&self) -> (r: &'static str)
        ensures
            r@ == self.default_label(),
    {
        match self {
            Column::AvailabilityZone => "Availability zone (AZ-ID)",
            Column::MountTargetId => "Mount target ID",
            Column::OwnerId => "Owner ID",
            Column::FileSystemId => "File system ID",
            Column::SubnetId => "Subnet ID",
            Column::VpcId => "VPC ID",
            Column::State => "File system state",
            Column::Ipv4Address => "IPv4 address",
            Column::Ipv6Address => "IPv6 address",
            Column::NetworkInterfaceId => "Network interface ID",
            Column::SecurityGroups => "Security groups",
        }
    }

    /// The label of the column: its translation, else its default label.
    pub fn name(&self, tr: &Translations) -> (r: String)
        ensures
            r@ == translated_label(tr.entries@, self.key(), self.default_label()),
    {
        tr.translate_column(self.id(), self.default_name())
    }

    /// The column whose key is `id`, if any.
    pub fn from_id(id: &str) -> (r: Option<Self>)
        ensures
            r == Self::with_key(id@),
    {
        if str_eq(id, "column.efs.mt.availability_zone") {
            Some(Column::AvailabilityZone)
        } else if str_eq(id, "column.efs.mt.mount_target_id") {
            Some(Column::MountTargetId)
        } else if str_eq(id, "column.efs.mt.owner_id") {
            Some(Column::OwnerId)
        } else if str_eq(id, "column.efs.mt.file_system_id") {
            Some(Column::FileSystemId)
        } else if str_eq(id, "column.efs.mt.subnet_id") {
            Some(Column::SubnetId)
        } else if str_eq(id, "column.efs.mt.vpc_id") {
            Some(Column::VpcId)
        } else if str_eq(id, "column.efs.mt.state") {
            Some(Column::State)
        } else if str_eq(id, "column.efs.mt.ipv4_address") {
            Some(Column::Ipv4Address)
        } else if str_eq(id, "column.efs.mt.ipv6_address") {
            Some(Column::Ipv6Address)
        } else if str_eq(id, "column.efs.mt.network_interface_id") {
            Some(Column::NetworkInterfaceId)
        } else if str_eq(id, "column.efs.mt.security_groups") {
            Some(Column::SecurityGroups)
        } else {
            None
        }
    }

    /// Every column, in display order.
    pub fn all() -> (r: [Self; 11])
        ensures
            r@ == Self::every(),
    {
        let r = [Column::AvailabilityZone, Column::MountTargetId, Column::OwnerId, Column::FileSystemId, Column::SubnetId, Column::VpcId, Column::State, Column::Ipv4Address, Column::Ipv6Address, Column::NetworkInterfaceId, Column::SecurityGroups];
        assert(r@ =~= Self::every());
        r
    }

    /// The keys of every column, in display order.
    pub fn ids() -> (r: Vec<ColumnId>)
        ensures
            r@.len() == Self::every().len(),
            forall|i: int| 0 <= i < r@.len() ==> (#[trigger] r@[i])@ == Self::every()[i].key(),
    {
        let r: Vec<ColumnId> = vec!["column.efs.mt.availability_zone", "column.efs.mt.mount_target_id", "column.efs.mt.owner_id", "column.efs.mt.file_system_id", "column.efs.mt.subnet_id", "column.efs.mt.vpc_id", "column.efs.mt.state", "column.efs.mt.ipv4_address", "column.efs.mt.ipv6_address", "column.efs.mt.network_interface_id", "column.efs.mt.security_groups"];
        assert forall|i: int| 0 <= i < r@.len() implies (#[trigger] r@[i])@ == Self::every()[i].key() by {
            assert(r@ =~= seq!["column.efs.mt.availability_zone", "column.efs.mt.mount_target_id", "column.efs.mt.owner_id", "column.efs.mt.file_system_id", "column.efs.mt.subnet_id", "column.efs.mt.vpc_id", "column.efs.mt.state", "column.efs.mt.ipv4_address", "column.efs.mt.ipv6_address", "column.efs.mt.network_interface_id", "column.efs.mt.security_groups"]);
        }
        r
    }

    /// The least display width of the column.
    pub open spec fn base_width(self) -> usize {
        match self {
            Column::AvailabilityZone => 25,
            Column::MountTargetId => 22,
            Column::OwnerId => 14,
            Column::FileSystemId => 21,
            Column::SubnetId => 24,
            Column::VpcId => 22,
            Column::State => 18,
            Column::Ipv4Address => 15,
            Column::Ipv6Address => 20,
            Column::NetworkInterfaceId => 22,
            Column::SecurityGroups => 24,
        }
    }

    /// The display width of the column: its label's byte length, at least its base width.
    pub fn width(&self, tr: &Translations) -> (r: u16)
        ensures
            r == label_width(translated_label(tr.entries@, self.key(), self.default_label()), self.base_width()),
    {
        let base: usize = match self {
            Column::AvailabilityZone => 25,
            Column::MountTargetId => 22,
            Column::OwnerId => 14,
            Column::FileSystemId => 21,
            Column::SubnetId => 24,
            Column::VpcId => 22,
            Column::State => 18,
            Column::Ipv4Address => 15,
            Column::Ipv6Address => 20,
            Column::NetworkInterfaceId => 22,
            Column::SecurityGroups => 24,
        };
        column_width(tr, self.id(), self.default_name(), base)
    }

    /// The text of the column's cell for `item`, and the colour it is drawn in
    /// where the column gives it one.
    pub open spec fn cell(self, item: MountTarget) -> (Seq<char>, Option<CellColor>) {
        match self {
            Column::AvailabilityZone => (zone_label(item.availability_zone_name@, item.availability_zone_id@), None),
            Column::MountTargetId => (item.mount_target_id@, None),
            Column::OwnerId => (item.owner_id@, None),
            Column::FileSystemId => (item.file_system_id@, None),
            Column::SubnetId => (item.subnet_id@, None),
            Column::VpcId => (item.vpc_id@, None),
            Column::State => (life_cycle_label(item.life_cycle_state@).0, Some(life_cycle_label(item.life_cycle_state@).1)),
            Column::Ipv4Address => (item.ip_address@, None),
            Column::Ipv6Address => (item.ipv6_address@, None),
            Column::NetworkInterfaceId => (item.network_interface_id@, None),
            Column::SecurityGroups => (item.security_groups@, None),
        }
    }

    /// The cell of the column for `item`, with its colour where it has one.
    pub fn render(&self, item: &MountTarget) -> (r: (String, Option<CellColor>))
        ensures
            (r.0@, r.1) == self.cell(*item),
    {
        match self {
            Column::AvailabilityZone => (format_zone(item.availability_zone_name.as_str(), item.availability_zone_id.as_str()), None),
            Column::MountTargetId => (item.mount_target_id.clone(), None),
            Column::OwnerId => (item.owner_id.clone(), None),
            Column::FileSystemId => (item.file_system_id.clone(), None),
            Column::SubnetId => (item.subnet_id.clone(), None),
            Column::VpcId => (item.vpc_id.clone(), None),
            Column::State => {
                let (text, color) = format_life_cycle_state(item.life_cycle_state.as_str());
                (owned(text), Some(color))
            },
            Column::Ipv4Address => (item.ip_address.clone(), None),
            Column::Ipv6Address => (item.ipv6_address.clone(), None),
            Column::NetworkInterfaceId => (item.network_interface_id.clone(), None),
            Column::SecurityGroups => (item.security_groups.clone(), None),
        }
    }

}

/// The keys of the columns shown before any is hidden: all but the owner
/// and the file system.
pub open spec fn default_visible_keys() -> Seq<Seq<char>> {
    seq!["column.efs.mt.availability_zone"@, "column.efs.mt.mount_target_id"@, "column.efs.mt.subnet_id"@, "column.efs.mt.vpc_id"@, "column.efs.mt.state"@, "column.efs.mt.ipv4_address"@, "column.efs.mt.ipv6_address"@, "column.efs.mt.network_interface_id"@, "column.efs.mt.security_groups"@]
}

impl Column {
    /// The keys of the columns shown before any is hidden.
    pub fn default_visible_ids() -> (r: Vec<ColumnId>)
        ensures
            r@.map_values(|s: &str| s@) == default_visible_keys(),
    {
        let r: Vec<ColumnId> = vec!["column.efs.mt.availability_zone", "column.efs.mt.mount_target_id", "column.efs.mt.subnet_id", "column.efs.mt.vpc_id", "column.efs.mt.state", "column.efs.mt.ipv4_address", "column.efs.mt.ipv6_address", "column.efs.mt.network_interface_id", "column.efs.mt.security_groups"];
        assert(r@.map_values(|s: &str| s@) =~= default_visible_keys());
        r
    }
}

} // verus!

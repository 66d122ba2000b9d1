//! EC2 instances view: rows, detail tabs, state filter and the view's state.
use vstd::prelude::*;
use vstd::string::*;
use crate::common::{
    column_width, first_value, label_width, lookup, translated_label, with_defaults, ColumnId, InputFocus,
    Translations, UTC_TIMESTAMP_WIDTH,
};
use crate::table::{kept_indices, TableState};
use crate::text::{filter_keeps, filter_matches, owned, str_eq};

pub mod actions;
pub mod tag;

use crate::common::{cyclic_next, cyclic_prev, lemma_cyclic_law, CyclicEnum};

verus! {

/// An EC2 instance as the instances table shows it.
#[derive(Clone, Debug)]
pub struct Instance {
    pub instance_id: String,
    pub name: String,
    pub state: String,
    pub instance_type: String,
    pub availability_zone: String,
    pub public_ipv4_dns: String,
    pub public_ipv4_address: String,
    pub elastic_ip: String,
    pub ipv6_ips: String,
    pub monitoring: String,
    pub security_groups: String,
    pub key_name: String,
    pub launch_time: String,
    pub platform_details: String,
    pub status_checks: String,
    pub alarm_status: String,
    pub private_dns_name: String,
    pub private_ip_address: String,
    pub security_group_ids: String,
    pub owner_id: String,
    pub volume_id: String,
    pub root_device_name: String,
    pub root_device_type: String,
    pub ebs_optimized: String,
    pub image_id: String,
    pub kernel_id: String,
    pub ramdisk_id: String,
    pub ami_launch_index: String,
    pub reservation_id: String,
    pub vpc_id: String,
    pub subnet_ids: String,
    pub instance_lifecycle: String,
    pub architecture: String,
    pub virtualization_type: String,
    pub platform: String,
    pub iam_instance_profile_arn: String,
    pub tenancy: String,
    pub affinity: String,
    pub host_id: String,
    pub placement_group: String,
    pub partition_number: String,
    pub capacity_reservation_id: String,
    pub state_transition_reason_code: String,
    pub state_transition_reason_message: String,
    pub stop_hibernation_behavior: String,
    pub outpost_arn: String,
    pub product_codes: String,
    pub availability_zone_id: String,
    pub imdsv2: String,
    pub usage_operation: String,
    pub managed: String,
    pub operator: String,
}

/// The instance and tag column keys and their default labels, in the order `init` lays them down.
pub open spec fn default_labels() -> (Seq<Seq<char>>, Seq<Seq<char>>) {
    (
        seq!["column.ec2.instance.instance_id"@, "column.ec2.instance.name"@, "column.ec2.instance.state"@, "column.ec2.instance.instance_type"@, "column.ec2.instance.status_check"@, "column.ec2.instance.alarm_status"@, "column.ec2.instance.availability_zone"@, "column.ec2.instance.public_ipv4_dns"@, "column.ec2.instance.public_ipv4_address"@, "column.ec2.instance.elastic_ip"@, "column.ec2.instance.ipv6_ips"@, "column.ec2.instance.monitoring"@, "column.ec2.instance.security_group_name"@, "column.ec2.instance.key_name"@, "column.ec2.instance.launch_time"@, "column.ec2.instance.platform_details"@, "column.ec2.instance.private_dns_name"@, "column.ec2.instance.private_ip_address"@, "column.ec2.instance.security_group_ids"@, "column.ec2.instance.owner_id"@, "column.ec2.instance.volume_id"@, "column.ec2.instance.root_device_name"@, "column.ec2.instance.root_device_type"@, "column.ec2.instance.ebs_optimized"@, "column.ec2.instance.image_id"@, "column.ec2.instance.kernel_id"@, "column.ec2.instance.ramdisk_id"@, "column.ec2.instance.ami_launch_index"@, "column.ec2.instance.reservation_id"@, "column.ec2.instance.vpc_id"@, "column.ec2.instance.subnet_ids"@, "column.ec2.instance.instance_lifecycle"@, "column.ec2.instance.architecture"@, "column.ec2.instance.virtualization_type"@, "column.ec2.instance.platform"@, "column.ec2.instance.iam_instance_profile_arn"@, "column.ec2.instance.tenancy"@, "column.ec2.instance.affinity"@, "column.ec2.instance.host_id"@, "column.ec2.instance.placement_group"@, "column.ec2.instance.partition_number"@, "column.ec2.instance.capacity_reservation_id"@, "column.ec2.instance.state_transition_reason_code"@, "column.ec2.instance.state_transition_reason_message"@, "column.ec2.instance.stop_hibernation_behavior"@, "column.ec2.instance.outpost_arn"@, "column.ec2.instance.product_codes"@, "column.ec2.instance.availability_zone_id"@, "column.ec2.instance.imdsv2"@, "column.ec2.instance.usage_operation"@, "column.ec2.instance.managed"@, "column.ec2.instance.operator"@, "column.ec2.tag.key"@, "column.ec2.tag.value"@],
        seq!["Instance ID"@, "Name"@, "Instance state"@, "Instance type"@, "Status check"@, "Alarm status"@, "Availability Zone"@, "Public IPv4 DNS"@, "Public IPv4 address"@, "Elastic IP"@, "IPv6 IPs"@, "Monitoring"@, "Security group name"@, "Key name"@, "Launch time"@, "Platform details"@, "Private DNS name"@, "Private IP address"@, "Security group IDs"@, "Owner ID"@, "Volume ID"@, "Root device name"@, "Root device type"@, "EBS optimized"@, "Image ID"@, "Kernel ID"@, "RAM disk ID"@, "AMI launch index"@, "Reservation ID"@, "VPC ID"@, "Subnet IDs"@, "Instance lifecycle"@, "Architecture"@, "Virtualization type"@, "Platform"@, "IAM instance profile ARN"@, "Tenancy"@, "Affinity"@, "Host ID"@, "Placement group"@, "Partition number"@, "Capacity Reservation ID"@, "State transition reason code"@, "State transition reason message"@, "Stop-hibernation behavior"@, "Outpost ARN"@, "Product codes"@, "Availability Zone ID"@, "IMDSv2"@, "Usage operation"@, "Managed"@, "Operator"@, "Key"@, "Value"@],
    )
}

/// Gives every instance column and tag column its default label, unless it already has a translation.
pub fn init(tr: &mut Translations)
    ensures
        forall|k: Seq<char>| #[trigger] lookup(final(tr).entries@, k) == with_defaults(
            lookup(old(tr).entries@, k), default_labels().0, default_labels().1, k),
{
    let keys: Vec<ColumnId> = vec!["column.ec2.instance.instance_id", "column.ec2.instance.name", "column.ec2.instance.state", "column.ec2.instance.instance_type", "column.ec2.instance.status_check", "column.ec2.instance.alarm_status", "column.ec2.instance.availability_zone", "column.ec2.instance.public_ipv4_dns", "column.ec2.instance.public_ipv4_address", "column.ec2.instance.elastic_ip", "column.ec2.instance.ipv6_ips", "column.ec2.instance.monitoring", "column.ec2.instance.security_group_name", "column.ec2.instance.key_name", "column.ec2.instance.launch_time", "column.ec2.instance.platform_details", "column.ec2.instance.private_dns_name", "column.ec2.instance.private_ip_address", "column.ec2.instance.security_group_ids", "column.ec2.instance.owner_id", "column.ec2.instance.volume_id", "column.ec2.instance.root_device_name", "column.ec2.instance.root_device_type", "column.ec2.instance.ebs_optimized", "column.ec2.instance.image_id", "column.ec2.instance.kernel_id", "column.ec2.instance.ramdisk_id", "column.ec2.instance.ami_launch_index", "column.ec2.instance.reservation_id", "column.ec2.instance.vpc_id", "column.ec2.instance.subnet_ids", "column.ec2.instance.instance_lifecycle", "column.ec2.instance.architecture", "column.ec2.instance.virtualization_type", "column.ec2.instance.platform", "column.ec2.instance.iam_instance_profile_arn", "column.ec2.instance.tenancy", "column.ec2.instance.affinity", "column.ec2.instance.host_id", "column.ec2.instance.placement_group", "column.ec2.instance.partition_number", "column.ec2.instance.capacity_reservation_id", "column.ec2.instance.state_transition_reason_code", "column.ec2.instance.state_transition_reason_message", "column.ec2.instance.stop_hibernation_behavior", "column.ec2.instance.outpost_arn", "column.ec2.instance.product_codes", "column.ec2.instance.availability_zone_id", "column.ec2.instance.imdsv2", "column.ec2.instance.usage_operation", "column.ec2.instance.managed", "column.ec2.instance.operator", "column.ec2.tag.key", "column.ec2.tag.value"];
    let labels: Vec<&'static str> = vec!["Instance ID", "Name", "Instance state", "Instance type", "Status check", "Alarm status", "Availability Zone", "Public IPv4 DNS", "Public IPv4 address", "Elastic IP", "IPv6 IPs", "Monitoring", "Security group name", "Key name", "Launch time", "Platform details", "Private DNS name", "Private IP address", "Security group IDs", "Owner ID", "Volume ID", "Root device name", "Root device type", "EBS optimized", "Image ID", "Kernel ID", "RAM disk ID", "AMI launch index", "Reservation ID", "VPC ID", "Subnet IDs", "Instance lifecycle", "Architecture", "Virtualization type", "Platform", "IAM instance profile ARN", "Tenancy", "Affinity", "Host ID", "Placement group", "Partition number", "Capacity Reservation ID", "State transition reason code", "State transition reason message", "Stop-hibernation behavior", "Outpost ARN", "Product codes", "Availability Zone ID", "IMDSv2", "Usage operation", "Managed", "Operator", "Key", "Value"];
    assert(keys@.map_values(|s: &str| s@) =~= default_labels().0);
    assert(labels@.map_values(|s: &str| s@) =~= default_labels().1);
    tr.set_defaults(&keys, &labels);
}

/// A column of the instances table.
#[derive(Clone, Copy, Debug, PartialEq, Eq, Structural)]
pub enum Column {
    InstanceId,
    Name,
    InstanceState,
    InstanceType,
    StatusCheck,
    AlarmStatus,
    AvailabilityZone,
    PublicIpv4Dns,
    PublicIpv4Address,
    ElasticIp,
    Ipv6Ips,
    Monitoring,
    SecurityGroupName,
    KeyName,
    LaunchTime,
    PlatformDetails,
    PrivateDnsName,
    PrivateIpAddress,
    SecurityGroupIds,
    OwnerId,
    VolumeId,
    RootDeviceName,
    RootDeviceType,
    EbsOptimized,
    ImageId,
    KernelId,
    RamdiskId,
    AmiLaunchIndex,
    ReservationId,
    VpcId,
    SubnetIds,
    InstanceLifecycle,
    Architecture,
    VirtualizationType,
    Platform,
    IamInstanceProfileArn,
    Tenancy,
    Affinity,
    HostId,
    PlacementGroup,
    PartitionNumber,
    CapacityReservationId,
    StateTransitionReasonCode,
    StateTransitionReasonMessage,
    StopHibernationBehavior,
    OutpostArn,
    ProductCodes,
    AvailabilityZoneId,
    Imdsv2,
    UsageOperation,
    Managed,
    Operator,
}

impl Column {
    /// The translation key of the column.
    pub open spec fn key(self) -> Seq<char> {
        match self {
            Column::InstanceId => "column.ec2.instance.instance_id"@,
            Column::Name => "column.ec2.instance.name"@,
            Column::InstanceState => "column.ec2.instance.state"@,
            Column::InstanceType => "column.ec2.instance.instance_type"@,
            Column::StatusCheck => "column.ec2.instance.status_check"@,
            Column::AlarmStatus => "column.ec2.instance.alarm_status"@,
            Column::AvailabilityZone => "column.ec2.instance.availability_zone"@,
            Column::PublicIpv4Dns => "column.ec2.instance.public_ipv4_dns"@,
            Column::PublicIpv4Address => "column.ec2.instance.public_ipv4_address"@,
            Column::ElasticIp => "column.ec2.instance.elastic_ip"@,
            Column::Ipv6Ips => "column.ec2.instance.ipv6_ips"@,
            Column::Monitoring => "column.ec2.instance.monitoring"@,
            Column::SecurityGroupName => "column.ec2.instance.security_group_name"@,
            Column::KeyName => "column.ec2.instance.key_name"@,
            Column::LaunchTime => "column.ec2.instance.launch_time"@,
            Column::PlatformDetails => "column.ec2.instance.platform_details"@,
            Column::PrivateDnsName => "column.ec2.instance.private_dns_name"@,
            Column::PrivateIpAddress => "column.ec2.instance.private_ip_address"@,
            Column::SecurityGroupIds => "column.ec2.instance.security_group_ids"@,
            Column::OwnerId => "column.ec2.instance.owner_id"@,
            Column::VolumeId => "column.ec2.instance.volume_id"@,
            Column::RootDeviceName => "column.ec2.instance.root_device_name"@,
            Column::RootDeviceType => "column.ec2.instance.root_device_type"@,
            Column::EbsOptimized => "column.ec2.instance.ebs_optimized"@,
            Column::ImageId => "column.ec2.instance.image_id"@,
            Column::KernelId => "column.ec2.instance.kernel_id"@,
            Column::RamdiskId => "column.ec2.instance.ramdisk_id"@,
            Column::AmiLaunchIndex => "column.ec2.instance.ami_launch_index"@,
            Column::ReservationId => "column.ec2.instance.reservation_id"@,
            Column::VpcId => "column.ec2.instance.vpc_id"@,
            Column::SubnetIds => "column.ec2.instance.subnet_ids"@,
            Column::InstanceLifecycle => "column.ec2.instance.instance_lifecycle"@,
            Column::Architecture => "column.ec2.instance.architecture"@,
            Column::VirtualizationType => "column.ec2.instance.virtualization_type"@,
            Column::Platform => "column.ec2.instance.platform"@,
            Column::IamInstanceProfileArn => "column.ec2.instance.iam_instance_profile_arn"@,
            Column::Tenancy => "column.ec2.instance.tenancy"@,
            Column::Affinity => "column.ec2.instance.affinity"@,
            Column::HostId => "column.ec2.instance.host_id"@,
            Column::PlacementGroup => "column.ec2.instance.placement_group"@,
            Column::PartitionNumber => "column.ec2.instance.partition_number"@,
            Column::CapacityReservationId => "column.ec2.instance.capacity_reservation_id"@,
            Column::StateTransitionReasonCode => "column.ec2.instance.state_transition_reason_code"@,
            Column::StateTransitionReasonMessage => "column.ec2.instance.state_transition_reason_message"@,
            Column::StopHibernationBehavior => "column.ec2.instance.stop_hibernation_behavior"@,
            Column::OutpostArn => "column.ec2.instance.outpost_arn"@,
            Column::ProductCodes => "column.ec2.instance.product_codes"@,
            Column::AvailabilityZoneId => "column.ec2.instance.availability_zone_id"@,
            Column::Imdsv2 => "column.ec2.instance.imdsv2"@,
            Column::UsageOperation => "column.ec2.instance.usage_operation"@,
            Column::Managed => "column.ec2.instance.managed"@,
            Column::Operator => "column.ec2.instance.operator"@,
        }
    }

    /// The label of the column when no translation replaces it.
    pub open spec fn default_label(self) -> Seq<char> {
        match self {
            Column::InstanceId => "Instance ID"@,
            Column::Name => "Name"@,
            Column::InstanceState => "Instance state"@,
            Column::InstanceType => "Instance type"@,
            Column::StatusCheck => "Status check"@,
            Column::AlarmStatus => "Alarm status"@,
            Column::AvailabilityZone => "Availability Zone"@,
            Column::PublicIpv4Dns => "Public IPv4 DNS"@,
            Column::PublicIpv4Address => "Public IPv4 address"@,
            Column::ElasticIp => "Elastic IP"@,
            Column::Ipv6Ips => "IPv6 IPs"@,
            Column::Monitoring => "Monitoring"@,
            Column::SecurityGroupName => "Security group name"@,
            Column::KeyName => "Key name"@,
            Column::LaunchTime => "Launch time"@,
            Column::PlatformDetails => "Platform details"@,
            Column::PrivateDnsName => "Private DNS name"@,
            Column::PrivateIpAddress => "Private IP address"@,
            Column::SecurityGroupIds => "Security group IDs"@,
            Column::OwnerId => "Owner ID"@,
            Column::VolumeId => "Volume ID"@,
            Column::RootDeviceName => "Root device name"@,
            Column::RootDeviceType => "Root device type"@,
            Column::EbsOptimized => "EBS optimized"@,
            Column::ImageId => "Image ID"@,
            Column::KernelId => "Kernel ID"@,
            Column::RamdiskId => "RAM disk ID"@,
            Column::AmiLaunchIndex => "AMI launch index"@,
            Column::ReservationId => "Reservation ID"@,
            Column::VpcId => "VPC ID"@,
            Column::SubnetIds => "Subnet IDs"@,
            Column::InstanceLifecycle => "Instance lifecycle"@,
            Column::Architecture => "Architecture"@,
            Column::VirtualizationType => "Virtualization type"@,
            Column::Platform => "Platform"@,
            Column::IamInstanceProfileArn => "IAM instance profile ARN"@,
            Column::Tenancy => "Tenancy"@,
            Column::Affinity => "Affinity"@,
            Column::HostId => "Host ID"@,
            Column::PlacementGroup => "Placement group"@,
            Column::PartitionNumber => "Partition number"@,
            Column::CapacityReservationId => "Capacity Reservation ID"@,
            Column::StateTransitionReasonCode => "State transition reason code"@,
            Column::StateTransitionReasonMessage => "State transition reason message"@,
            Column::StopHibernationBehavior => "Stop-hibernation behavior"@,
            Column::OutpostArn => "Outpost ARN"@,
            Column::ProductCodes => "Product codes"@,
            Column::AvailabilityZoneId => "Availability Zone ID"@,
            Column::Imdsv2 => "IMDSv2"@,
            Column::UsageOperation => "Usage operation"@,
            Column::Managed => "Managed"@,
            Column::Operator => "Operator"@,
        }
    }

    /// The column whose key is `id`, if any.
    pub open spec fn with_key(id: Seq<char>) -> Option<Self> {
        if id == "column.ec2.instance.instance_id"@ {
            Some(Column::InstanceId)
        } else if id == "column.ec2.instance.name"@ {
            Some(Column::Name)
        } else if id == "column.ec2.instance.state"@ {
            Some(Column::InstanceState)
        } else if id == "column.ec2.instance.instance_type"@ {
            Some(Column::InstanceType)
        } else if id == "column.ec2.instance.status_check"@ {
            Some(Column::StatusCheck)
        } else if id == "column.ec2.instance.alarm_status"@ {
            Some(Column::AlarmStatus)
        } else if id == "column.ec2.instance.availability_zone"@ {
            Some(Column::AvailabilityZone)
        } else if id == "column.ec2.instance.public_ipv4_dns"@ {
            Some(Column::PublicIpv4Dns)
        } else if id == "column.ec2.instance.public_ipv4_address"@ {
            Some(Column::PublicIpv4Address)
        } else if id == "column.ec2.instance.elastic_ip"@ {
            Some(Column::ElasticIp)
        } else if id == "column.ec2.instance.ipv6_ips"@ {
            Some(Column::Ipv6Ips)
        } else if id == "column.ec2.instance.monitoring"@ {
            Some(Column::Monitoring)
        } else if id == "column.ec2.instance.security_group_name"@ {
            Some(Column::SecurityGroupName)
        } else if id == "column.ec2.instance.key_name"@ {
            Some(Column::KeyName)
        } else if id == "column.ec2.instance.launch_time"@ {
            Some(Column::LaunchTime)
        } else if id == "column.ec2.instance.platform_details"@ {
            Some(Column::PlatformDetails)
        } else if id == "column.ec2.instance.private_dns_name"@ {
            Some(Column::PrivateDnsName)
        } else if id == "column.ec2.instance.private_ip_address"@ {
            Some(Column::PrivateIpAddress)
        } else if id == "column.ec2.instance.security_group_ids"@ {
            Some(Column::SecurityGroupIds)
        } else if id == "column.ec2.instance.owner_id"@ {
            Some(Column::OwnerId)
        } else if id == "column.ec2.instance.volume_id"@ {
            Some(Column::VolumeId)
        } else if id == "column.ec2.instance.root_device_name"@ {
            Some(Column::RootDeviceName)
        } else if id == "column.ec2.instance.root_device_type"@ {
            Some(Column::RootDeviceType)
        } else if id == "column.ec2.instance.ebs_optimized"@ {
            Some(Column::EbsOptimized)
        } else if id == "column.ec2.instance.image_id"@ {
            Some(Column::ImageId)
        } else if id == "column.ec2.instance.kernel_id"@ {
            Some(Column::KernelId)
        } else if id == "column.ec2.instance.ramdisk_id"@ {
            Some(Column::RamdiskId)
        } else if id == "column.ec2.instance.ami_launch_index"@ {
            Some(Column::AmiLaunchIndex)
        } else if id == "column.ec2.instance.reservation_id"@ {
            Some(Column::ReservationId)
        } else if id == "column.ec2.instance.vpc_id"@ {
            Some(Column::VpcId)
        } else if id == "column.ec2.instance.subnet_ids"@ {
            Some(Column::SubnetIds)
        } else if id == "column.ec2.instance.instance_lifecycle"@ {
            Some(Column::InstanceLifecycle)
        } else if id == "column.ec2.instance.architecture"@ {
            Some(Column::Architecture)
        } else if id == "column.ec2.instance.virtualization_type"@ {
            Some(Column::VirtualizationType)
        } else if id == "column.ec2.instance.platform"@ {
            Some(Column::Platform)
        } else if id == "column.ec2.instance.iam_instance_profile_arn"@ {
            Some(Column::IamInstanceProfileArn)
        } else if id == "column.ec2.instance.tenancy"@ {
            Some(Column::Tenancy)
        } else if id == "column.ec2.instance.affinity"@ {
            Some(Column::Affinity)
        } else if id == "column.ec2.instance.host_id"@ {
            Some(Column::HostId)
        } else if id == "column.ec2.instance.placement_group"@ {
            Some(Column::PlacementGroup)
        } else if id == "column.ec2.instance.partition_number"@ {
            Some(Column::PartitionNumber)
        } else if id == "column.ec2.instance.capacity_reservation_id"@ {
            Some(Column::CapacityReservationId)
        } else if id == "column.ec2.instance.state_transition_reason_code"@ {
            Some(Column::StateTransitionReasonCode)
        } else if id == "column.ec2.instance.state_transition_reason_message"@ {
            Some(Column::StateTransitionReasonMessage)
        } else if id == "column.ec2.instance.stop_hibernation_behavior"@ {
            Some(Column::StopHibernationBehavior)
        } else if id == "column.ec2.instance.outpost_arn"@ {
            Some(Column::OutpostArn)
        } else if id == "column.ec2.instance.product_codes"@ {
            Some(Column::ProductCodes)
        } else if id == "column.ec2.instance.availability_zone_id"@ {
            Some(Column::AvailabilityZoneId)
        } else if id == "column.ec2.instance.imdsv2"@ {
            Some(Column::Imdsv2)
        } else if id == "column.ec2.instance.usage_operation"@ {
            Some(Column::UsageOperation)
        } else if id == "column.ec2.instance.managed"@ {
            Some(Column::Managed)
        } else if id == "column.ec2.instance.operator"@ {
            Some(Column::Operator)
        } else {
            None
        }
    }

    /// Reading a column back from its key gives the column: no two columns
    /// share a key.
    pub proof fn lemma_key_roundtrip(c: Self)
        ensures
            Self::with_key(c.key()) == Some(c),
    {
        reveal_strlit("column.ec2.instance.instance_id");
        reveal_strlit("column.ec2.instance.name");
        reveal_strlit("column.ec2.instance.state");
        reveal_strlit("column.ec2.instance.instance_type");
        reveal_strlit("column.ec2.instance.status_check");
        reveal_strlit("column.ec2.instance.alarm_status");
        reveal_strlit("column.ec2.instance.availability_zone");
        reveal_strlit("column.ec2.instance.public_ipv4_dns");
        reveal_strlit("column.ec2.instance.public_ipv4_address");
        reveal_strlit("column.ec2.instance.elastic_ip");
        reveal_strlit("column.ec2.instance.ipv6_ips");
        reveal_strlit("column.ec2.instance.monitoring");
        reveal_strlit("column.ec2.instance.security_group_name");
        reveal_strlit("column.ec2.instance.key_name");
        reveal_strlit("column.ec2.instance.launch_time");
        reveal_strlit("column.ec2.instance.platform_details");
        reveal_strlit("column.ec2.instance.private_dns_name");
        reveal_strlit("column.ec2.instance.private_ip_address");
        reveal_strlit("column.ec2.instance.security_group_ids");
        reveal_strlit("column.ec2.instance.owner_id");
        reveal_strlit("column.ec2.instance.volume_id");
        reveal_strlit("column.ec2.instance.root_device_name");
        reveal_strlit("column.ec2.instance.root_device_type");
        reveal_strlit("column.ec2.instance.ebs_optimized");
        reveal_strlit("column.ec2.instance.image_id");
        reveal_strlit("column.ec2.instance.kernel_id");
        reveal_strlit("column.ec2.instance.ramdisk_id");
        reveal_strlit("column.ec2.instance.ami_launch_index");
        reveal_strlit("column.ec2.instance.reservation_id");
        reveal_strlit("column.ec2.instance.vpc_id");
        reveal_strlit("column.ec2.instance.subnet_ids");
        reveal_strlit("column.ec2.instance.instance_lifecycle");
        reveal_strlit("column.ec2.instance.architecture");
        reveal_strlit("column.ec2.instance.virtualization_type");
        reveal_strlit("column.ec2.instance.platform");
        reveal_strlit("column.ec2.instance.iam_instance_profile_arn");
        reveal_strlit("column.ec2.instance.tenancy");
        reveal_strlit("column.ec2.instance.affinity");
        reveal_strlit("column.ec2.instance.host_id");
        reveal_strlit("column.ec2.instance.placement_group");
        reveal_strlit("column.ec2.instance.partition_number");
        reveal_strlit("column.ec2.instance.capacity_reservation_id");
        reveal_strlit("column.ec2.instance.state_transition_reason_code");
        reveal_strlit("column.ec2.instance.state_transition_reason_message");
        reveal_strlit("column.ec2.instance.stop_hibernation_behavior");
        reveal_strlit("column.ec2.instance.outpost_arn");
        reveal_strlit("column.ec2.instance.product_codes");
        reveal_strlit("column.ec2.instance.availability_zone_id");
        reveal_strlit("column.ec2.instance.imdsv2");
        reveal_strlit("column.ec2.instance.usage_operation");
        reveal_strlit("column.ec2.instance.managed");
        reveal_strlit("column.ec2.instance.operator");
        assert("column.ec2.instance.instance_id"@.len() == 31);
        assert("column.ec2.instance.name"@.len() == 24);
        assert("column.ec2.instance.state"@.len() == 25);
        assert("column.ec2.instance.instance_type"@.len() == 33);
        assert("column.ec2.instance.status_check"@.len() == 32);
        assert("column.ec2.instance.alarm_status"@.len() == 32);
        assert("column.ec2.instance.availability_zone"@.len() == 37);
        assert("column.ec2.instance.public_ipv4_dns"@.len() == 35);
        assert("column.ec2.instance.public_ipv4_address"@.len() == 39);
        assert("column.ec2.instance.elastic_ip"@.len() == 30);
        assert("column.ec2.instance.ipv6_ips"@.len() == 28);
        assert("column.ec2.instance.monitoring"@.len() == 30);
        assert("column.ec2.instance.security_group_name"@.len() == 39);
        assert("column.ec2.instance.key_name"@.len() == 28);
        assert("column.ec2.instance.launch_time"@.len() == 31);
        assert("column.ec2.instance.platform_details"@.len() == 36);
        assert("column.ec2.instance.private_dns_name"@.len() == 36);
        assert("column.ec2.instance.private_ip_address"@.len() == 38);
        assert("column.ec2.instance.security_group_ids"@.len() == 38);
        assert("column.ec2.instance.owner_id"@.len() == 28);
        assert("column.ec2.instance.volume_id"@.len() == 29);
        assert("column.ec2.instance.root_device_name"@.len() == 36);
        assert("column.ec2.instance.root_device_type"@.len() == 36);
        assert("column.ec2.instance.ebs_optimized"@.len() == 33);
        assert("column.ec2.instance.image_id"@.len() == 28);
        assert("column.ec2.instance.kernel_id"@.len() == 29);
        assert("column.ec2.instance.ramdisk_id"@.len() == 30);
        assert("column.ec2.instance.ami_launch_index"@.len() == 36);
        assert("column.ec2.instance.reservation_id"@.len() == 34);
        assert("column.ec2.instance.vpc_id"@.len() == 26);
        assert("column.ec2.instance.subnet_ids"@.len() == 30);
        assert("column.ec2.instance.instance_lifecycle"@.len() == 38);
        assert("column.ec2.instance.architecture"@.len() == 32);
        assert("column.ec2.instance.virtualization_type"@.len() == 39);
        assert("column.ec2.instance.platform"@.len() == 28);
        assert("column.ec2.instance.iam_instance_profile_arn"@.len() == 44);
        assert("column.ec2.instance.tenancy"@.len() == 27);
        assert("column.ec2.instance.affinity"@.len() == 28);
        assert("column.ec2.instance.host_id"@.len() == 27);
        assert("column.ec2.instance.placement_group"@.len() == 35);
        assert("column.ec2.instance.partition_number"@.len() == 36);
        assert("column.ec2.instance.capacity_reservation_id"@.len() == 43);
        assert("column.ec2.instance.state_transition_reason_code"@.len() == 48);
        assert("column.ec2.instance.state_transition_reason_message"@.len() == 51);
        assert("column.ec2.instance.stop_hibernation_behavior"@.len() == 45);
        assert("column.ec2.instance.outpost_arn"@.len() == 31);
        assert("column.ec2.instance.product_codes"@.len() == 33);
        assert("column.ec2.instance.availability_zone_id"@.len() == 40);
        assert("column.ec2.instance.imdsv2"@.len() == 26);
        assert("column.ec2.instance.usage_operation"@.len() == 35);
        assert("column.ec2.instance.managed"@.len() == 27);
        assert("column.ec2.instance.operator"@.len() == 28);
        assert("column.ec2.instance.alarm_status"@[20] != "column.ec2.instance.status_check"@[20]);
        assert("column.ec2.instance.monitoring"@[20] != "column.ec2.instance.elastic_ip"@[20]);
        assert("column.ec2.instance.security_group_name"@[20] != "column.ec2.instance.public_ipv4_address"@[20]);
        assert("column.ec2.instance.key_name"@[20] != "column.ec2.instance.ipv6_ips"@[20]);
        assert("column.ec2.instance.launch_time"@[20] != "column.ec2.instance.instance_id"@[20]);
        assert("column.ec2.instance.private_dns_name"@[21] != "column.ec2.instance.platform_details"@[21]);
        assert("column.ec2.instance.security_group_ids"@[20] != "column.ec2.instance.private_ip_address"@[20]);
        assert("column.ec2.instance.owner_id"@[20] != "column.ec2.instance.ipv6_ips"@[20]);
        assert("column.ec2.instance.owner_id"@[20] != "column.ec2.instance.key_name"@[20]);
        assert("column.ec2.instance.root_device_name"@[20] != "column.ec2.instance.platform_details"@[20]);
        assert("column.ec2.instance.root_device_name"@[20] != "column.ec2.instance.private_dns_name"@[20]);
        assert("column.ec2.instance.root_device_type"@[20] != "column.ec2.instance.platform_details"@[20]);
        assert("column.ec2.instance.root_device_type"@[20] != "column.ec2.instance.private_dns_name"@[20]);
        assert("column.ec2.instance.root_device_type"@[32] != "column.ec2.instance.root_device_name"@[32]);
        assert("column.ec2.instance.ebs_optimized"@[20] != "column.ec2.instance.instance_type"@[20]);
        assert("column.ec2.instance.image_id"@[21] != "column.ec2.instance.ipv6_ips"@[21]);
        assert("column.ec2.instance.image_id"@[20] != "column.ec2.instance.key_name"@[20]);
        assert("column.ec2.instance.image_id"@[20] != "column.ec2.instance.owner_id"@[20]);
        assert("column.ec2.instance.kernel_id"@[20] != "column.ec2.instance.volume_id"@[20]);
        assert("column.ec2.instance.ramdisk_id"@[20] != "column.ec2.instance.elastic_ip"@[20]);
        assert("column.ec2.instance.ramdisk_id"@[20] != "column.ec2.instance.monitoring"@[20]);
        assert("column.ec2.instance.ami_launch_index"@[20] != "column.ec2.instance.platform_details"@[20]);
        assert("column.ec2.instance.ami_launch_index"@[20] != "column.ec2.instance.private_dns_name"@[20]);
        assert("column.ec2.instance.ami_launch_index"@[20] != "column.ec2.instance.root_device_name"@[20]);
        assert("column.ec2.instance.ami_launch_index"@[20] != "column.ec2.instance.root_device_type"@[20]);
        assert("column.ec2.instance.subnet_ids"@[20] != "column.ec2.instance.elastic_ip"@[20]);
        assert("column.ec2.instance.subnet_ids"@[20] != "column.ec2.instance.monitoring"@[20]);
        assert("column.ec2.instance.subnet_ids"@[20] != "column.ec2.instance.ramdisk_id"@[20]);
        assert("column.ec2.instance.instance_lifecycle"@[20] != "column.ec2.instance.private_ip_address"@[20]);
        assert("column.ec2.instance.instance_lifecycle"@[20] != "column.ec2.instance.security_group_ids"@[20]);
        assert("column.ec2.instance.architecture"@[20] != "column.ec2.instance.status_check"@[20]);
        assert("column.ec2.instance.architecture"@[21] != "column.ec2.instance.alarm_status"@[21]);
        assert("column.ec2.instance.virtualization_type"@[20] != "column.ec2.instance.public_ipv4_address"@[20]);
        assert("column.ec2.instance.virtualization_type"@[20] != "column.ec2.instance.security_group_name"@[20]);
        assert("column.ec2.instance.platform"@[20] != "column.ec2.instance.ipv6_ips"@[20]);
        assert("column.ec2.instance.platform"@[20] != "column.ec2.instance.key_name"@[20]);
        assert("column.ec2.instance.platform"@[20] != "column.ec2.instance.owner_id"@[20]);
        assert("column.ec2.instance.platform"@[20] != "column.ec2.instance.image_id"@[20]);
        assert("column.ec2.instance.affinity"@[20] != "column.ec2.instance.ipv6_ips"@[20]);
        assert("column.ec2.instance.affinity"@[20] != "column.ec2.instance.key_name"@[20]);
        assert("column.ec2.instance.affinity"@[20] != "column.ec2.instance.owner_id"@[20]);
        assert("column.ec2.instance.affinity"@[20] != "column.ec2.instance.image_id"@[20]);
        assert("column.ec2.instance.affinity"@[20] != "column.ec2.instance.platform"@[20]);
        assert("column.ec2.instance.host_id"@[20] != "column.ec2.instance.tenancy"@[20]);
        assert("column.ec2.instance.placement_group"@[21] != "column.ec2.instance.public_ipv4_dns"@[21]);
        assert("column.ec2.instance.partition_number"@[21] != "column.ec2.instance.platform_details"@[21]);
        assert("column.ec2.instance.partition_number"@[21] != "column.ec2.instance.private_dns_name"@[21]);
        assert("column.ec2.instance.partition_number"@[20] != "column.ec2.instance.root_device_name"@[20]);
        assert("column.ec2.instance.partition_number"@[20] != "column.ec2.instance.root_device_type"@[20]);
        assert("column.ec2.instance.partition_number"@[20] != "column.ec2.instance.ami_launch_index"@[20]);
        assert("column.ec2.instance.outpost_arn"@[20] != "column.ec2.instance.instance_id"@[20]);
        assert("column.ec2.instance.outpost_arn"@[20] != "column.ec2.instance.launch_time"@[20]);
        assert("column.ec2.instance.product_codes"@[20] != "column.ec2.instance.instance_type"@[20]);
        assert("column.ec2.instance.product_codes"@[20] != "column.ec2.instance.ebs_optimized"@[20]);
        assert("column.ec2.instance.imdsv2"@[20] != "column.ec2.instance.vpc_id"@[20]);
        assert("column.ec2.instance.usage_operation"@[20] != "column.ec2.instance.public_ipv4_dns"@[20]);
        assert("column.ec2.instance.usage_operation"@[20] != "column.ec2.instance.placement_group"@[20]);
        assert("column.ec2.instance.managed"@[20] != "column.ec2.instance.tenancy"@[20]);
        assert("column.ec2.instance.managed"@[20] != "column.ec2.instance.host_id"@[20]);
        assert("column.ec2.instance.operator"@[20] != "column.ec2.instance.ipv6_ips"@[20]);
        assert("column.ec2.instance.operator"@[20] != "column.ec2.instance.key_name"@[20]);
        assert("column.ec2.instance.operator"@[21] != "column.ec2.instance.owner_id"@[21]);
        assert("column.ec2.instance.operator"@[20] != "column.ec2.instance.image_id"@[20]);
        assert("column.ec2.instance.operator"@[20] != "column.ec2.instance.platform"@[20]);
        assert("column.ec2.instance.operator"@[20] != "column.ec2.instance.affinity"@[20]);
    }

    /// Every column, in display order.
    pub open spec fn every() -> Seq<Self> {
        seq![Column::InstanceId, Column::Name, Column::InstanceState, Column::InstanceType, Column::StatusCheck, Column::AlarmStatus, Column::AvailabilityZone, Column::PublicIpv4Dns, Column::PublicIpv4Address, Column::ElasticIp, Column::Ipv6Ips, Column::Monitoring, Column::SecurityGroupName, Column::KeyName, Column::LaunchTime, Column::PlatformDetails, Column::PrivateDnsName, Column::PrivateIpAddress, Column::SecurityGroupIds, Column::OwnerId, Column::VolumeId, Column::RootDeviceName, Column::RootDeviceType, Column::EbsOptimized, Column::ImageId, Column::KernelId, Column::RamdiskId, Column::AmiLaunchIndex, Column::ReservationId, Column::VpcId, Column::SubnetIds, Column::InstanceLifecycle, Column::Architecture, Column::VirtualizationType, Column::Platform, Column::IamInstanceProfileArn, Column::Tenancy, Column::Affinity, Column::HostId, Column::PlacementGroup, Column::PartitionNumber, Column::CapacityReservationId, Column::StateTransitionReasonCode, Column::StateTransitionReasonMessage, Column::StopHibernationBehavior, Column::OutpostArn, Column::ProductCodes, Column::AvailabilityZoneId, Column::Imdsv2, Column::UsageOperation, Column::Managed, Column::Operator]
    }

    /// The translation key of the column.
    pub fn id(&self) -> (r: ColumnId)
        ensures
            r@ == self.key(),
    {
        match self {
            Column::InstanceId => "column.ec2.instance.instance_id",
            Column::Name => "column.ec2.instance.name",
            Column::InstanceState => "column.ec2.instance.state",
            Column::InstanceType => "column.ec2.instance.instance_type",
            Column::StatusCheck => "column.ec2.instance.status_check",
            Column::AlarmStatus => "column.ec2.instance.alarm_status",
            Column::AvailabilityZone => "column.ec2.instance.availability_zone",
            Column::PublicIpv4Dns => "column.ec2.instance.public_ipv4_dns",
            Column::PublicIpv4Address => "column.ec2.instance.public_ipv4_address",
            Column::ElasticIp => "column.ec2.instance.elastic_ip",
            Column::Ipv6Ips => "column.ec2.instance.ipv6_ips",
            Column::Monitoring => "column.ec2.instance.monitoring",
            Column::SecurityGroupName => "column.ec2.instance.security_group_name",
            Column::KeyName => "column.ec2.instance.key_name",
            Column::LaunchTime => "column.ec2.instance.launch_time",
            Column::PlatformDetails => "column.ec2.instance.platform_details",
            Column::PrivateDnsName => "column.ec2.instance.private_dns_name",
            Column::PrivateIpAddress => "column.ec2.instance.private_ip_address",
            Column::SecurityGroupIds => "column.ec2.instance.security_group_ids",
            Column::OwnerId => "column.ec2.instance.owner_id",
            Column::VolumeId => "column.ec2.instance.volume_id",
            Column::RootDeviceName => "column.ec2.instance.root_device_name",
            Column::RootDeviceType => "column.ec2.instance.root_device_type",
            Column::EbsOptimized => "column.ec2.instance.ebs_optimized",
            Column::ImageId => "column.ec2.instance.image_id",
            Column::KernelId => "column.ec2.instance.kernel_id",
            Column::RamdiskId => "column.ec2.instance.ramdisk_id",
            Column::AmiLaunchIndex => "column.ec2.instance.ami_launch_index",
            Column::ReservationId => "column.ec2.instance.reservation_id",
            Column::VpcId => "column.ec2.instance.vpc_id",
            Column::SubnetIds => "column.ec2.instance.subnet_ids",
            Column::InstanceLifecycle => "column.ec2.instance.instance_lifecycle",
            Column::Architecture => "column.ec2.instance.architecture",
            Column::VirtualizationType => "column.ec2.instance.virtualization_type",
            Column::Platform => "column.ec2.instance.platform",
            Column::IamInstanceProfileArn => "column.ec2.instance.iam_instance_profile_arn",
            Column::Tenancy => "column.ec2.instance.tenancy",
            Column::Affinity => "column.ec2.instance.affinity",
            Column::HostId => "column.ec2.instance.host_id",
            Column::PlacementGroup => "column.ec2.instance.placement_group",
            Column::PartitionNumber => "column.ec2.instance.partition_number",
            Column::CapacityReservationId => "column.ec2.instance.capacity_reservation_id",
            Column::StateTransitionReasonCode => "column.ec2.instance.state_transition_reason_code",
            Column::StateTransitionReasonMessage => "column.ec2.instance.state_transition_reason_message",
            Column::StopHibernationBehavior => "column.ec2.instance.stop_hibernation_behavior",
            Column::OutpostArn => "column.ec2.instance.outpost_arn",
            Column::ProductCodes => "column.ec2.instance.product_codes",
            Column::AvailabilityZoneId => "column.ec2.instance.availability_zone_id",
            Column::Imdsv2 => "column.ec2.instance.imdsv2",
            Column::UsageOperation => "column.ec2.instance.usage_operation",
            Column::Managed => "column.ec2.instance.managed",
            Column::Operator => "column.ec2.instance.operator",
        }
    }

    /// The label of the column when no translation replaces it.
    pub fn default_name(&self) -> (r: &'static str)
        ensures
            r@ == self.default_label(),
    {
        match self {
            Column::InstanceId => "Instance ID",
            Column::Name => "Name",
            Column::InstanceState => "Instance state",
            Column::InstanceType => "Instance type",
            Column::StatusCheck => "Status check",
            Column::AlarmStatus => "Alarm status",
            Column::AvailabilityZone => "Availability Zone",
            Column::PublicIpv4Dns => "Public IPv4 DNS",
            Column::PublicIpv4Address => "Public IPv4 address",
            Column::ElasticIp => "Elastic IP",
            Column::Ipv6Ips => "IPv6 IPs",
            Column::Monitoring => "Monitoring",
            Column::SecurityGroupName => "Security group name",
            Column::KeyName => "Key name",
            Column::LaunchTime => "Launch time",
            Column::PlatformDetails => "Platform details",
            Column::PrivateDnsName => "Private DNS name",
            Column::PrivateIpAddress => "Private IP address",
            Column::SecurityGroupIds => "Security group IDs",
            Column::OwnerId => "Owner ID",
            Column::VolumeId => "Volume ID",
            Column::RootDeviceName => "Root device name",
            Column::RootDeviceType => "Root device type",
            Column::EbsOptimized => "EBS optimized",
            Column::ImageId => "Image ID",
            Column::KernelId => "Kernel ID",
            Column::RamdiskId => "RAM disk ID",
            Column::AmiLaunchIndex => "AMI launch index",
            Column::ReservationId => "Reservation ID",
            Column::VpcId => "VPC ID",
            Column::SubnetIds => "Subnet IDs",
            Column::InstanceLifecycle => "Instance lifecycle",
            Column::Architecture => "Architecture",
            Column::VirtualizationType => "Virtualization type",
            Column::Platform => "Platform",
            Column::IamInstanceProfileArn => "IAM instance profile ARN",
            Column::Tenancy => "Tenancy",
            Column::Affinity => "Affinity",
            Column::HostId => "Host ID",
            Column::PlacementGroup => "Placement group",
            Column::PartitionNumber => "Partition number",
            Column::CapacityReservationId => "Capacity Reservation ID",
            Column::StateTransitionReasonCode => "State transition reason code",
            Column::StateTransitionReasonMessage => "State transition reason message",
            Column::StopHibernationBehavior => "Stop-hibernation behavior",
            Column::OutpostArn => "Outpost ARN",
            Column::ProductCodes => "Product codes",
            Column::AvailabilityZoneId => "Availability Zone ID",
            Column::Imdsv2 => "IMDSv2",
            Column::UsageOperation => "Usage operation",
            Column::Managed => "Managed",
            Column::Operator => "Operator",
        }
    }

    /// The label of the column: its translation, else its default label.
    pub fn name(&self, tr: &Translations) -> (r: String)
        ensures
            r@ == translated_label(tr.entries@, self.key(), self.default_label()),
    {
        tr.translate_column(self.id(), self.default_name())
    }

    /// The column whose key is `id`, if any.
    pub fn from_id(id: &str) -> (r: Option<Self>)
        ensures
            r == Self::with_key(id@),
    {
        if str_eq(id, "column.ec2.instance.instance_id") {
            Some(Column::InstanceId)
        } else if str_eq(id, "column.ec2.instance.name") {
            Some(Column::Name)
        } else if str_eq(id, "column.ec2.instance.state") {
            Some(Column::InstanceState)
        } else if str_eq(id, "column.ec2.instance.instance_type") {
            Some(Column::InstanceType)
        } else if str_eq(id, "column.ec2.instance.status_check") {
            Some(Column::StatusCheck)
        } else if str_eq(id, "column.ec2.instance.alarm_status") {
            Some(Column::AlarmStatus)
        } else if str_eq(id, "column.ec2.instance.availability_zone") {
            Some(Column::AvailabilityZone)
        } else if str_eq(id, "column.ec2.instance.public_ipv4_dns") {
            Some(Column::PublicIpv4Dns)
        } else if str_eq(id, "column.ec2.instance.public_ipv4_address") {
            Some(Column::PublicIpv4Address)
        } else if str_eq(id, "column.ec2.instance.elastic_ip") {
            Some(Column::ElasticIp)
        } else if str_eq(id, "column.ec2.instance.ipv6_ips") {
            Some(Column::Ipv6Ips)
        } else if str_eq(id, "column.ec2.instance.monitoring") {
            Some(Column::Monitoring)
        } else if str_eq(id, "column.ec2.instance.security_group_name") {
            Some(Column::SecurityGroupName)
        } else if str_eq(id, "column.ec2.instance.key_name") {
            Some(Column::KeyName)
        } else if str_eq(id, "column.ec2.instance.launch_time") {
            Some(Column::LaunchTime)
        } else if str_eq(id, "column.ec2.instance.platform_details") {
            Some(Column::PlatformDetails)
        } else if str_eq(id, "column.ec2.instance.private_dns_name") {
            Some(Column::PrivateDnsName)
        } else if str_eq(id, "column.ec2.instance.private_ip_address") {
            Some(Column::PrivateIpAddress)
        } else if str_eq(id, "column.ec2.instance.security_group_ids") {
            Some(Column::SecurityGroupIds)
        } else if str_eq(id, "column.ec2.instance.owner_id") {
            Some(Column::OwnerId)
        } else if str_eq(id, "column.ec2.instance.volume_id") {
            Some(Column::VolumeId)
        } else if str_eq(id, "column.ec2.instance.root_device_name") {
            Some(Column::RootDeviceName)
        } else if str_eq(id, "column.ec2.instance.root_device_type") {
            Some(Column::RootDeviceType)
        } else if str_eq(id, "column.ec2.instance.ebs_optimized") {
            Some(Column::EbsOptimized)
        } else if str_eq(id, "column.ec2.instance.image_id") {
            Some(Column::ImageId)
        } else if str_eq(id, "column.ec2.instance.kernel_id") {
            Some(Column::KernelId)
        } else if str_eq(id, "column.ec2.instance.ramdisk_id") {
            Some(Column::RamdiskId)
        } else if str_eq(id, "column.ec2.instance.ami_launch_index") {
            Some(Column::AmiLaunchIndex)
        } else if str_eq(id, "column.ec2.instance.reservation_id") {
            Some(Column::ReservationId)
        } else if str_eq(id, "column.ec2.instance.vpc_id") {
            Some(Column::VpcId)
        } else if str_eq(id, "column.ec2.instance.subnet_ids") {
            Some(Column::SubnetIds)
        } else if str_eq(id, "column.ec2.instance.instance_lifecycle") {
            Some(Column::InstanceLifecycle)
        } else if str_eq(id, "column.ec2.instance.architecture") {
            Some(Column::Architecture)
        } else if str_eq(id, "column.ec2.instance.virtualization_type") {
            Some(Column::VirtualizationType)
        } else if str_eq(id, "column.ec2.instance.platform") {
            Some(Column::Platform)
        } else if str_eq(id, "column.ec2.instance.iam_instance_profile_arn") {
            Some(Column::IamInstanceProfileArn)
        } else if str_eq(id, "column.ec2.instance.tenancy") {
            Some(Column::Tenancy)
        } else if str_eq(id, "column.ec2.instance.affinity") {
            Some(Column::Affinity)
        } else if str_eq(id, "column.ec2.instance.host_id") {
            Some(Column::HostId)
        } else if str_eq(id, "column.ec2.instance.placement_group") {
            Some(Column::PlacementGroup)
        } else if str_eq(id, "column.ec2.instance.partition_number") {
            Some(Column::PartitionNumber)
        } else if str_eq(id, "column.ec2.instance.capacity_reservation_id") {
            Some(Column::CapacityReservationId)
        } else if str_eq(id, "column.ec2.instance.state_transition_reason_code") {
            Some(Column::StateTransitionReasonCode)
        } else if str_eq(id, "column.ec2.instance.state_transition_reason_message") {
            Some(Column::StateTransitionReasonMessage)
        } else if str_eq(id, "column.ec2.instance.stop_hibernation_behavior") {
            Some(Column::StopHibernationBehavior)
        } else if str_eq(id, "column.ec2.instance.outpost_arn") {
            Some(Column::OutpostArn)
        } else if str_eq(id, "column.ec2.instance.product_codes") {
            Some(Column::ProductCodes)
        } else if str_eq(id, "column.ec2.instance.availability_zone_id") {
            Some(Column::AvailabilityZoneId)
        } else if str_eq(id, "column.ec2.instance.imdsv2") {
            Some(Column::Imdsv2)
        } else if str_eq(id, "column.ec2.instance.usage_operation") {
            Some(Column::UsageOperation)
        } else if str_eq(id, "column.ec2.instance.managed") {
            Some(Column::Managed)
        } else if str_eq(id, "column.ec2.instance.operator") {
            Some(Column::Operator)
        } else {
            None
        }
    }

    /// Every column, in display order.
    pub fn all() -> (r: [Self; 52])
        ensures
            r@ == Self::every(),
    {
        let r = [Column::InstanceId, Column::Name, Column::InstanceState, Column::InstanceType, Column::StatusCheck, Column::AlarmStatus, Column::AvailabilityZone, Column::PublicIpv4Dns, Column::PublicIpv4Address, Column::ElasticIp, Column::Ipv6Ips, Column::Monitoring, Column::SecurityGroupName, Column::KeyName, Column::LaunchTime, Column::PlatformDetails, Column::PrivateDnsName, Column::PrivateIpAddress, Column::SecurityGroupIds, Column::OwnerId, Column::VolumeId, Column::RootDeviceName, Column::RootDeviceType, Column::EbsOptimized, Column::ImageId, Column::KernelId, Column::RamdiskId, Column::AmiLaunchIndex, Column::ReservationId, Column::VpcId, Column::SubnetIds, Column::InstanceLifecycle, Column::Architecture, Column::VirtualizationType, Column::Platform, Column::IamInstanceProfileArn, Column::Tenancy, Column::Affinity, Column::HostId, Column::PlacementGroup, Column::PartitionNumber, Column::CapacityReservationId, Column::StateTransitionReasonCode, Column::StateTransitionReasonMessage, Column::StopHibernationBehavior, Column::OutpostArn, Column::ProductCodes, Column::AvailabilityZoneId, Column::Imdsv2, Column::UsageOperation, Column::Managed, Column::Operator];
        assert(r@ =~= Self::every());
        r
    }

    /// The keys of every column, in display order.
    pub fn ids() -> (r: Vec<ColumnId>)
        ensures
            r@.len() == Self::every().len(),
            forall|i: int| 0 <= i < r@.len() ==> (#[trigger] r@[i])@ == Self::every()[i].key(),
    {
        let r: Vec<ColumnId> = vec!["column.ec2.instance.instance_id", "column.ec2.instance.name", "column.ec2.instance.state", "column.ec2.instance.instance_type", "column.ec2.instance.status_check", "column.ec2.instance.alarm_status", "column.ec2.instance.availability_zone", "column.ec2.instance.public_ipv4_dns", "column.ec2.instance.public_ipv4_address", "column.ec2.instance.elastic_ip", "column.ec2.instance.ipv6_ips", "column.ec2.instance.monitoring", "column.ec2.instance.security_group_name", "column.ec2.instance.key_name", "column.ec2.instance.launch_time", "column.ec2.instance.platform_details", "column.ec2.instance.private_dns_name", "column.ec2.instance.private_ip_address", "column.ec2.instance.security_group_ids", "column.ec2.instance.owner_id", "column.ec2.instance.volume_id", "column.ec2.instance.root_device_name", "column.ec2.instance.root_device_type", "column.ec2.instance.ebs_optimized", "column.ec2.instance.image_id", "column.ec2.instance.kernel_id", "column.ec2.instance.ramdisk_id", "column.ec2.instance.ami_launch_index", "column.ec2.instance.reservation_id", "column.ec2.instance.vpc_id", "column.ec2.instance.subnet_ids", "column.ec2.instance.instance_lifecycle", "column.ec2.instance.architecture", "column.ec2.instance.virtualization_type", "column.ec2.instance.platform", "column.ec2.instance.iam_instance_profile_arn", "column.ec2.instance.tenancy", "column.ec2.instance.affinity", "column.ec2.instance.host_id", "column.ec2.instance.placement_group", "column.ec2.instance.partition_number", "column.ec2.instance.capacity_reservation_id", "column.ec2.instance.state_transition_reason_code", "column.ec2.instance.state_transition_reason_message", "column.ec2.instance.stop_hibernation_behavior", "column.ec2.instance.outpost_arn", "column.ec2.instance.product_codes", "column.ec2.instance.availability_zone_id", "column.ec2.instance.imdsv2", "column.ec2.instance.usage_operation", "column.ec2.instance.managed", "column.ec2.instance.operator"];
        assert forall|i: int| 0 <= i < r@.len() implies (#[trigger] r@[i])@ == Self::every()[i].key() by {
            assert(r@ =~= seq!["column.ec2.instance.instance_id", "column.ec2.instance.name", "column.ec2.instance.state", "column.ec2.instance.instance_type", "column.ec2.instance.status_check", "column.ec2.instance.alarm_status", "column.ec2.instance.availability_zone", "column.ec2.instance.public_ipv4_dns", "column.ec2.instance.public_ipv4_address", "column.ec2.instance.elastic_ip", "column.ec2.instance.ipv6_ips", "column.ec2.instance.monitoring", "column.ec2.instance.security_group_name", "column.ec2.instance.key_name", "column.ec2.instance.launch_time", "column.ec2.instance.platform_details", "column.ec2.instance.private_dns_name", "column.ec2.instance.private_ip_address", "column.ec2.instance.security_group_ids", "column.ec2.instance.owner_id", "column.ec2.instance.volume_id", "column.ec2.instance.root_device_name", "column.ec2.instance.root_device_type", "column.ec2.instance.ebs_optimized", "column.ec2.instance.image_id", "column.ec2.instance.kernel_id", "column.ec2.instance.ramdisk_id", "column.ec2.instance.ami_launch_index", "column.ec2.instance.reservation_id", "column.ec2.instance.vpc_id", "column.ec2.instance.subnet_ids", "column.ec2.instance.instance_lifecycle", "column.ec2.instance.architecture", "column.ec2.instance.virtualization_type", "column.ec2.instance.platform", "column.ec2.instance.iam_instance_profile_arn", "column.ec2.instance.tenancy", "column.ec2.instance.affinity", "column.ec2.instance.host_id", "column.ec2.instance.placement_group", "column.ec2.instance.partition_number", "column.ec2.instance.capacity_reservation_id", "column.ec2.instance.state_transition_reason_code", "column.ec2.instance.state_transition_reason_message", "column.ec2.instance.stop_hibernation_behavior", "column.ec2.instance.outpost_arn", "column.ec2.instance.product_codes", "column.ec2.instance.availability_zone_id", "column.ec2.instance.imdsv2", "column.ec2.instance.usage_operation", "column.ec2.instance.managed", "column.ec2.instance.operator"]);
        }
        r
    }

    /// The least display width of the column.
    pub open spec fn base_width(self) -> usize {
        match self {
            Column::InstanceId => 20,
            Column::Name => 30,
            Column::InstanceState => 18,
            Column::InstanceType => 15,
            Column::StatusCheck => 15,
            Column::AlarmStatus => 15,
            Column::AvailabilityZone => 20,
            Column::PublicIpv4Dns => 40,
            Column::PublicIpv4Address => 20,
            Column::ElasticIp => 20,
            Column::Ipv6Ips => 30,
            Column::Monitoring => 15,
            Column::SecurityGroupName => 30,
            Column::KeyName => 20,
            Column::LaunchTime => UTC_TIMESTAMP_WIDTH as usize,
            Column::PlatformDetails => 30,
            Column::PrivateDnsName => 40,
            Column::PrivateIpAddress => 20,
            Column::SecurityGroupIds => 30,
            Column::OwnerId => 15,
            Column::VolumeId => 25,
            Column::RootDeviceName => 20,
            Column::RootDeviceType => 18,
            Column::EbsOptimized => 15,
            Column::ImageId => 25,
            Column::KernelId => 25,
            Column::RamdiskId => 25,
            Column::AmiLaunchIndex => 18,
            Column::ReservationId => 20,
            Column::VpcId => 25,
            Column::SubnetIds => 30,
            Column::InstanceLifecycle => 20,
            Column::Architecture => 15,
            Column::VirtualizationType => 20,
            Column::Platform => 15,
            Column::IamInstanceProfileArn => 50,
            Column::Tenancy => 15,
            Column::Affinity => 15,
            Column::HostId => 25,
            Column::PlacementGroup => 25,
            Column::PartitionNumber => 18,
            Column::CapacityReservationId => 30,
            Column::StateTransitionReasonCode => 30,
            Column::StateTransitionReasonMessage => 50,
            Column::StopHibernationBehavior => 28,
            Column::OutpostArn => 40,
            Column::ProductCodes => 30,
            Column::AvailabilityZoneId => 20,
            Column::Imdsv2 => 15,
            Column::UsageOperation => 25,
            Column::Managed => 15,
            Column::Operator => 15,
        }
    }

    /// The display width of the column: its label's byte length, at least its base width.
    pub fn width(&self, tr: &Translations) -> (r: u16)
        ensures
            r == label_width(translated_label(tr.entries@, self.key(), self.default_label()), self.base_width()),
    {
        let base: usize = match self {
            Column::InstanceId => 20,
            Column::Name => 30,
            Column::InstanceState => 18,
            Column::InstanceType => 15,
            Column::StatusCheck => 15,
            Column::AlarmStatus => 15,
            Column::AvailabilityZone => 20,
            Column::PublicIpv4Dns => 40,
            Column::PublicIpv4Address => 20,
            Column::ElasticIp => 20,
            Column::Ipv6Ips => 30,
            Column::Monitoring => 15,
            Column::SecurityGroupName => 30,
            Column::KeyName => 20,
            Column::LaunchTime => UTC_TIMESTAMP_WIDTH as usize,
            Column::PlatformDetails => 30,
            Column::PrivateDnsName => 40,
            Column::PrivateIpAddress => 20,
            Column::SecurityGroupIds => 30,
            Column::OwnerId => 15,
            Column::VolumeId => 25,
            Column::RootDeviceName => 20,
            Column::RootDeviceType => 18,
            Column::EbsOptimized => 15,
            Column::ImageId => 25,
            Column::KernelId => 25,
            Column::RamdiskId => 25,
            Column::AmiLaunchIndex => 18,
            Column::ReservationId => 20,
            Column::VpcId => 25,
            Column::SubnetIds => 30,
            Column::InstanceLifecycle => 20,
            Column::Architecture => 15,
            Column::VirtualizationType => 20,
            Column::Platform => 15,
            Column::IamInstanceProfileArn => 50,
            Column::Tenancy => 15,
            Column::Affinity => 15,
            Column::HostId => 25,
            Column::PlacementGroup => 25,
            Column::PartitionNumber => 18,
            Column::CapacityReservationId => 30,
            Column::StateTransitionReasonCode => 30,
            Column::StateTransitionReasonMessage => 50,
            Column::StopHibernationBehavior => 28,
            Column::OutpostArn => 40,
            Column::ProductCodes => 30,
            Column::AvailabilityZoneId => 20,
            Column::Imdsv2 => 15,
            Column::UsageOperation => 25,
            Column::Managed => 15,
            Column::Operator => 15,
        };
        column_width(tr, self.id(), self.default_name(), base)
    }

    /// The text of the column's cell for `item`.
    pub open spec fn cell(self, item: Instance) -> Seq<char> {
        match self {
            Column::InstanceId => item.instance_id@,
            Column::Name => item.name@,
            Column::InstanceState => state_label(item.state@).0,
            Column::InstanceType => item.instance_type@,
            Column::StatusCheck => item.status_checks@,
            Column::AlarmStatus => item.alarm_status@,
            Column::AvailabilityZone => item.availability_zone@,
            Column::PublicIpv4Dns => item.public_ipv4_dns@,
            Column::PublicIpv4Address => item.public_ipv4_address@,
            Column::ElasticIp => item.elastic_ip@,
            Column::Ipv6Ips => item.ipv6_ips@,
            Column::Monitoring => item.monitoring@,
            Column::SecurityGroupName => item.security_groups@,
            Column::KeyName => item.key_name@,
            Column::LaunchTime => item.launch_time@,
            Column::PlatformDetails => item.platform_details@,
            Column::PrivateDnsName => item.private_dns_name@,
            Column::PrivateIpAddress => item.private_ip_address@,
            Column::SecurityGroupIds => item.security_group_ids@,
            Column::OwnerId => item.owner_id@,
            Column::VolumeId => item.volume_id@,
            Column::RootDeviceName => item.root_device_name@,
            Column::RootDeviceType => item.root_device_type@,
            Column::EbsOptimized => item.ebs_optimized@,
            Column::ImageId => item.image_id@,
            Column::KernelId => item.kernel_id@,
            Column::RamdiskId => item.ramdisk_id@,
            Column::AmiLaunchIndex => item.ami_launch_index@,
            Column::ReservationId => item.reservation_id@,
            Column::VpcId => item.vpc_id@,
            Column::SubnetIds => item.subnet_ids@,
            Column::InstanceLifecycle => item.instance_lifecycle@,
            Column::Architecture => item.architecture@,
            Column::VirtualizationType => item.virtualization_type@,
            Column::Platform => item.platform@,
            Column::IamInstanceProfileArn => item.iam_instance_profile_arn@,
            Column::Tenancy => item.tenancy@,
            Column::Affinity => item.affinity@,
            Column::HostId => item.host_id@,
            Column::PlacementGroup => item.placement_group@,
            Column::PartitionNumber => item.partition_number@,
            Column::CapacityReservationId => item.capacity_reservation_id@,
            Column::StateTransitionReasonCode => item.state_transition_reason_code@,
            Column::StateTransitionReasonMessage => item.state_transition_reason_message@,
            Column::StopHibernationBehavior => item.stop_hibernation_behavior@,
            Column::OutpostArn => item.outpost_arn@,
            Column::ProductCodes => item.product_codes@,
            Column::AvailabilityZoneId => item.availability_zone_id@,
            Column::Imdsv2 => item.imdsv2@,
            Column::UsageOperation => item.usage_operation@,
            Column::Managed => item.managed@,
            Column::Operator => item.operator@,
        }
    }

    /// The cell of the column for `item`, and the colour it is drawn in where
    /// it has one of its own: only the state cell has.
    pub fn render(&self, item: &Instance) -> (r: (String, Option<StateColor>))
        ensures
            r.0@ == self.cell(*item),
            r.1 == (if *self == Column::InstanceState { Some(state_label(item.state@).1) } else { None }),
    {
        match self {
            Column::InstanceId => (item.instance_id.clone(), None),
            Column::Name => (item.name.clone(), None),
            Column::InstanceState => {
                let (text, color) = format_state(item.state.as_str());
                (text, Some(color))
            },
            Column::InstanceType => (item.instance_type.clone(), None),
            Column::StatusCheck => (item.status_checks.clone(), None),
            Column::AlarmStatus => (item.alarm_status.clone(), None),
            Column::AvailabilityZone => (item.availability_zone.clone(), None),
            Column::PublicIpv4Dns => (item.public_ipv4_dns.clone(), None),
            Column::PublicIpv4Address => (item.public_ipv4_address.clone(), None),
            Column::ElasticIp => (item.elastic_ip.clone(), None),
            Column::Ipv6Ips => (item.ipv6_ips.clone(), None),
            Column::Monitoring => (item.monitoring.clone(), None),
            Column::SecurityGroupName => (item.security_groups.clone(), None),
            Column::KeyName => (item.key_name.clone(), None),
            Column::LaunchTime => (item.launch_time.clone(), None),
            Column::PlatformDetails => (item.platform_details.clone(), None),
            Column::PrivateDnsName => (item.private_dns_name.clone(), None),
            Column::PrivateIpAddress => (item.private_ip_address.clone(), None),
            Column::SecurityGroupIds => (item.security_group_ids.clone(), None),
            Column::OwnerId => (item.owner_id.clone(), None),
            Column::VolumeId => (item.volume_id.clone(), None),
            Column::RootDeviceName => (item.root_device_name.clone(), None),
            Column::RootDeviceType => (item.root_device_type.clone(), None),
            Column::EbsOptimized => (item.ebs_optimized.clone(), None),
            Column::ImageId => (item.image_id.clone(), None),
            Column::KernelId => (item.kernel_id.clone(), None),
            Column::RamdiskId => (item.ramdisk_id.clone(), None),
            Column::AmiLaunchIndex => (item.ami_launch_index.clone(), None),
            Column::ReservationId => (item.reservation_id.clone(), None),
            Column::VpcId => (item.vpc_id.clone(), None),
            Column::SubnetIds => (item.subnet_ids.clone(), None),
            Column::InstanceLifecycle => (item.instance_lifecycle.clone(), None),
            Column::Architecture => (item.architecture.clone(), None),
            Column::VirtualizationType => (item.virtualization_type.clone(), None),
            Column::Platform => (item.platform.clone(), None),
            Column::IamInstanceProfileArn => (item.iam_instance_profile_arn.clone(), None),
            Column::Tenancy => (item.tenancy.clone(), None),
            Column::Affinity => (item.affinity.clone(), None),
            Column::HostId => (item.host_id.clone(), None),
            Column::PlacementGroup => (item.placement_group.clone(), None),
            Column::PartitionNumber => (item.partition_number.clone(), None),
            Column::CapacityReservationId => (item.capacity_reservation_id.clone(), None),
            Column::StateTransitionReasonCode => (item.state_transition_reason_code.clone(), None),
            Column::StateTransitionReasonMessage => (item.state_transition_reason_message.clone(), None),
            Column::StopHibernationBehavior => (item.stop_hibernation_behavior.clone(), None),
            Column::OutpostArn => (item.outpost_arn.clone(), None),
            Column::ProductCodes => (item.product_codes.clone(), None),
            Column::AvailabilityZoneId => (item.availability_zone_id.clone(), None),
            Column::Imdsv2 => (item.imdsv2.clone(), None),
            Column::UsageOperation => (item.usage_operation.clone(), None),
            Column::Managed => (item.managed.clone(), None),
            Column::Operator => (item.operator.clone(), None),
        }
    }
}

/// The colour an instance state is drawn in.
#[derive(Clone, Copy, Debug, PartialEq, Eq, Structural)]
pub enum StateColor {
    Green,
    Red,
    DarkGray,
    Yellow,
    White,
}

/// The label and colour of an instance state: a sign and the capitalised
/// state for the six states EC2 reports, else the state itself in white.
pub open spec fn state_label(s: Seq<char>) -> (Seq<char>, StateColor) {
    if s == "running"@ {
        ("✅ Running"@, StateColor::Green)
    } else if s == "stopped"@ {
        ("🛑 Stopped"@, StateColor::Red)
    } else if s == "terminated"@ {
        ("❌ Terminated"@, StateColor::DarkGray)
    } else if s == "pending"@ {
        ("❎ Pending"@, StateColor::Yellow)
    } else if s == "shutting-down"@ {
        ("🔴 Shutting-down"@, StateColor::Yellow)
    } else if s == "stopping"@ {
        ("🚫 Stopping"@, StateColor::Yellow)
    } else {
        (s, StateColor::White)
    }
}

/// The label and colour of an instance state.
pub fn format_state(state: &str) -> (r: (String, StateColor))
    ensures
        (r.0@, r.1) == state_label(state@),
{
    if str_eq(state, "running") {
        (String::from_str("✅ Running"), StateColor::Green)
    } else if str_eq(state, "stopped") {
        (String::from_str("🛑 Stopped"), StateColor::Red)
    } else if str_eq(state, "terminated") {
        (String::from_str("❌ Terminated"), StateColor::DarkGray)
    } else if str_eq(state, "pending") {
        (String::from_str("❎ Pending"), StateColor::Yellow)
    } else if str_eq(state, "shutting-down") {
        (String::from_str("🔴 Shutting-down"), StateColor::Yellow)
    } else if str_eq(state, "stopping") {
        (String::from_str("🚫 Stopping"), StateColor::Yellow)
    } else {
        (owned(state), StateColor::White)
    }
}

/// A tag of an instance.
#[derive(Clone, Debug)]
pub struct InstanceTag {
    pub key: String,
    pub value: String,
}

/// Tabs of the instance detail view, in display order.
#[derive(Clone, Copy, Debug, PartialEq, Eq, Structural)]
pub enum DetailTab {
    Details,
    StatusAndAlarms,
    Monitoring,
    Security,
    Networking,
    Storage,
    Tags,
}

impl DetailTab {
    /// The tab after this one, wrapping around.
    pub open spec fn following(self) -> DetailTab {
        match self {
            DetailTab::Details => DetailTab::StatusAndAlarms,
            DetailTab::StatusAndAlarms => DetailTab::Monitoring,
            DetailTab::Monitoring => DetailTab::Security,
            DetailTab::Security => DetailTab::Networking,
            DetailTab::Networking => DetailTab::Storage,
            DetailTab::Storage => DetailTab::Tags,
            DetailTab::Tags => DetailTab::Details,
        }
    }

    /// The tab before this one, wrapping around.
    pub open spec fn preceding(self) -> DetailTab {
        match self {
            DetailTab::Details => DetailTab::Tags,
            DetailTab::StatusAndAlarms => DetailTab::Details,
            DetailTab::Monitoring => DetailTab::StatusAndAlarms,
            DetailTab::Security => DetailTab::Monitoring,
            DetailTab::Networking => DetailTab::Security,
            DetailTab::Storage => DetailTab::Networking,
            DetailTab::Tags => DetailTab::Storage,
        }
    }

    /// The tab after this one, wrapping around.
    pub fn next(&self) -> (r: DetailTab)
        ensures
            r == self.following(),
    {
        match self {
            DetailTab::Details => DetailTab::StatusAndAlarms,
            DetailTab::StatusAndAlarms => DetailTab::Monitoring,
            DetailTab::Monitoring => DetailTab::Security,
            DetailTab::Security => DetailTab::Networking,
            DetailTab::Networking => DetailTab::Storage,
            DetailTab::Storage => DetailTab::Tags,
            DetailTab::Tags => DetailTab::Details,
        }
    }

    /// The tab before this one, wrapping around.
    pub fn prev(&self) -> (r: DetailTab)
        ensures
            r == self.preceding(),
    {
        match self {
            DetailTab::Details => DetailTab::Tags,
            DetailTab::StatusAndAlarms => DetailTab::Details,
            DetailTab::Monitoring => DetailTab::StatusAndAlarms,
            DetailTab::Security => DetailTab::Monitoring,
            DetailTab::Networking => DetailTab::Security,
            DetailTab::Storage => DetailTab::Networking,
            DetailTab::Tags => DetailTab::Storage,
        }
    }

    /// Going forward one and back one (or back, then forward) returns to
    /// where it started.
    pub proof fn lemma_cycle(t: DetailTab)
        ensures
            t.following().preceding() == t,
            t.preceding().following() == t,
            <DetailTab as CyclicEnum>::all_values().no_duplicates(),
            t.following() == cyclic_next(<DetailTab as CyclicEnum>::all_values(), t),
            t.preceding() == cyclic_prev(<DetailTab as CyclicEnum>::all_values(), t),
    {
        let all = <DetailTab as CyclicEnum>::all_values();
        assert(all.no_duplicates()) by {
            assert forall|a: int, b: int| 0 <= a < all.len() && 0 <= b < all.len() && a != b implies all[a] != all[b] by {
            }
        }
        match t {
            DetailTab::Details => lemma_cyclic_law(all, 0),
            DetailTab::StatusAndAlarms => lemma_cyclic_law(all, 1),
            DetailTab::Monitoring => lemma_cyclic_law(all, 2),
            DetailTab::Security => lemma_cyclic_law(all, 3),
            DetailTab::Networking => lemma_cyclic_law(all, 4),
            DetailTab::Storage => lemma_cyclic_law(all, 5),
            DetailTab::Tags => lemma_cyclic_law(all, 6),
        }
    }
}

/// Instance-state choices of the state drop-down, in display order.
#[derive(Clone, Copy, Debug, PartialEq, Eq, Structural)]
pub enum StateFilter {
    AllStates,
    Running,
    Stopped,
    Terminated,
    Pending,
    ShuttingDown,
    Stopping,
}

impl StateFilter {
    /// The choice after this one, wrapping around.
    pub open spec fn following(self) -> StateFilter {
        match self {
            StateFilter::AllStates => StateFilter::Running,
            StateFilter::Running => StateFilter::Stopped,
            StateFilter::Stopped => StateFilter::Terminated,
            StateFilter::Terminated => StateFilter::Pending,
            StateFilter::Pending => StateFilter::ShuttingDown,
            StateFilter::ShuttingDown => StateFilter::Stopping,
            StateFilter::Stopping => StateFilter::AllStates,
        }
    }

    /// The choice before this one, wrapping around.
    pub open spec fn preceding(self) -> StateFilter {
        match self {
            StateFilter::AllStates => StateFilter::Stopping,
            StateFilter::Running => StateFilter::AllStates,
            StateFilter::Stopped => StateFilter::Running,
            StateFilter::Terminated => StateFilter::Stopped,
            StateFilter::Pending => StateFilter::Terminated,
            StateFilter::ShuttingDown => StateFilter::Pending,
            StateFilter::Stopping => StateFilter::ShuttingDown,
        }
    }

    /// The choice after this one, wrapping around.
    pub fn next(&self) -> (r: StateFilter)
        ensures
            r == self.following(),
    {
        match self {
            StateFilter::AllStates => StateFilter::Running,
            StateFilter::Running => StateFilter::Stopped,
            StateFilter::Stopped => StateFilter::Terminated,
            StateFilter::Terminated => StateFilter::Pending,
            StateFilter::Pending => StateFilter::ShuttingDown,
            StateFilter::ShuttingDown => StateFilter::Stopping,
            StateFilter::Stopping => StateFilter::AllStates,
        }
    }

    /// The choice before this one, wrapping around.
    pub fn prev(&self) -> (r: StateFilter)
        ensures
            r == self.preceding(),
    {
        match self {
            StateFilter::AllStates => StateFilter::Stopping,
            StateFilter::Running => StateFilter::AllStates,
            StateFilter::Stopped => StateFilter::Running,
            StateFilter::Terminated => StateFilter::Stopped,
            StateFilter::Pending => StateFilter::Terminated,
            StateFilter::ShuttingDown => StateFilter::Pending,
            StateFilter::Stopping => StateFilter::ShuttingDown,
        }
    }

    /// Whether an instance in `state` passes this choice.
    pub open spec fn admits(self, state: Seq<char>) -> bool {
        match self {
            StateFilter::AllStates => true,
            StateFilter::Running => state == "running"@,
            StateFilter::Stopped => state == "stopped"@,
            StateFilter::Terminated => state == "terminated"@,
            StateFilter::Pending => state == "pending"@,
            StateFilter::ShuttingDown => state == "shutting-down"@,
            StateFilter::Stopping => state == "stopping"@,
        }
    }

    /// Whether an instance in `state` passes this choice.
    pub fn admits_state(&self, state: &str) -> (r: bool)
        ensures
            r == self.admits(state@),
    {
        match self {
            StateFilter::AllStates => true,
            StateFilter::Running => str_eq(state, "running"),
            StateFilter::Stopped => str_eq(state, "stopped"),
            StateFilter::Terminated => str_eq(state, "terminated"),
            StateFilter::Pending => str_eq(state, "pending"),
            StateFilter::ShuttingDown => str_eq(state, "shutting-down"),
            StateFilter::Stopping => str_eq(state, "stopping"),
        }
    }

    /// Going forward one and back one (or back, then forward) returns to
    /// where it started.
    pub proof fn lemma_cycle(t: StateFilter)
        ensures
            t.following().preceding() == t,
            t.preceding().following() == t,
            <StateFilter as CyclicEnum>::all_values().no_duplicates(),
            t.following() == cyclic_next(<StateFilter as CyclicEnum>::all_values(), t),
            t.preceding() == cyclic_prev(<StateFilter as CyclicEnum>::all_values(), t),
    {
        let all = <StateFilter as CyclicEnum>::all_values();
        assert(all.no_duplicates()) by {
            assert forall|a: int, b: int| 0 <= a < all.len() && 0 <= b < all.len() && a != b implies all[a] != all[b] by {
            }
        }
        match t {
            StateFilter::AllStates => lemma_cyclic_law(all, 0),
            StateFilter::Running => lemma_cyclic_law(all, 1),
            StateFilter::Stopped => lemma_cyclic_law(all, 2),
            StateFilter::Terminated => lemma_cyclic_law(all, 3),
            StateFilter::Pending => lemma_cyclic_law(all, 4),
            StateFilter::ShuttingDown => lemma_cyclic_law(all, 5),
            StateFilter::Stopping => lemma_cyclic_law(all, 6),
        }
    }
}

/// Focus of the state drop-down in the filter bar.
pub open spec fn state_filter() -> InputFocus {
    InputFocus::Dropdown("InstanceState")
}

/// Focus of the state drop-down in the filter bar.
pub fn state_filter_focus() -> (r: InputFocus)
    ensures
        r == state_filter(),
{
    InputFocus::Dropdown("InstanceState")
}

/// The controls of the filter bar, in focus order.
pub open spec fn filter_controls() -> Seq<InputFocus> {
    seq![InputFocus::Filter, state_filter(), InputFocus::Pagination]
}

/// The controls of the filter bar, in focus order.
pub fn filter_control_list() -> (r: Vec<InputFocus>)
    ensures
        r@ == filter_controls(),
{
    let r = vec![InputFocus::Filter, state_filter_focus(), InputFocus::Pagination];
    assert(r@ =~= filter_controls());
    r
}

/// State of the EC2 view.
pub struct State {
    pub table: TableState<Instance>,
    pub tags: TableState<InstanceTag>,
    pub current_instance: Option<String>,
    pub detail_tab: DetailTab,
    pub input_focus: InputFocus,
    pub state_filter: StateFilter,
    pub tag_column_ids: Vec<String>,
    pub tag_visible_column_ids: Vec<String>,
    pub metrics_loading: bool,
    pub monitoring_scroll: usize,
    pub has_metrics: bool,
}

impl State {
    /// Whether the Tags tab of an open instance is showing.
    pub open spec fn on_tags(self) -> bool {
        self.current_instance is Some && self.detail_tab == DetailTab::Tags
    }

    /// Whether the Tags tab of an open instance is showing.
    pub fn showing_tags(&self) -> (r: bool)
        ensures
            r == self.on_tags(),
    {
        self.current_instance.is_some() && self.detail_tab == DetailTab::Tags
    }

    /// Whether the Monitoring tab of an open instance is showing with its data loaded.
    pub open spec fn on_loaded_monitoring(self) -> bool {
        self.current_instance is Some && self.detail_tab == DetailTab::Monitoring
            && !self.metrics_loading
    }

    /// Whether the Monitoring tab of an open instance is showing with its data loaded.
    pub fn showing_loaded_monitoring(&self) -> (r: bool)
        ensures
            r == self.on_loaded_monitoring(),
    {
        self.current_instance.is_some() && self.detail_tab == DetailTab::Monitoring
            && !self.metrics_loading
    }
}

/// Whether an instance passes the view's filters: its state passes the state
/// choice, and the filter text occurs in its name or its id (ignoring case).
pub open spec fn instance_kept(i: Instance, filter: Seq<char>, sf: StateFilter) -> bool {
    sf.admits(i.state@) && (filter_keeps(filter, i.name@) || filter_keeps(filter, i.instance_id@))
}

/// Indices of the instances that pass the view's filters.
pub open spec fn filtered_instances(s: State) -> Seq<usize> {
    kept_indices(
        s.table.items@.len(),
        |k: int| instance_kept(s.table.items@[k], s.table.filter@, s.state_filter),
    )
}

/// Whether a tag passes the tag filter: it occurs in its key or value.
pub open spec fn tag_kept(t: InstanceTag, filter: Seq<char>) -> bool {
    filter_keeps(filter, t.key@) || filter_keeps(filter, t.value@)
}

/// Indices of the tags that pass the tag filter.
pub open spec fn filtered_tag_rows(s: State) -> Seq<usize> {
    kept_indices(s.tags.items@.len(), |k: int| tag_kept(s.tags.items@[k], s.tags.filter@))
}

/// Indices of the instances that pass the view's filters.
pub fn filtered_ec2_instances(s: &State) -> (r: Vec<usize>)
    ensures
        r@ == filtered_instances(*s),
{
    let n = s.table.items.len();
    let mut out: Vec<usize> = Vec::new();
    let mut i: usize = 0;
    while i < n
        invariant
            n == s.table.items@.len(),
            i <= n,
            out@ == kept_indices(
                i as nat,
                |k: int| instance_kept(s.table.items@[k], s.table.filter@, s.state_filter),
            ),
        decreases n - i,
    {
        let it = &s.table.items[i];
        let keep = s.state_filter.admits_state(it.state.as_str()) && (filter_matches(
            s.table.filter.as_str(),
            it.name.as_str(),
        ) || filter_matches(s.table.filter.as_str(), it.instance_id.as_str()));
        if keep {
            out.push(i);
        }
        i = i + 1;
    }
    out
}

/// Indices of the tags that pass the tag filter.
pub fn filtered_tags(s: &State) -> (r: Vec<usize>)
    ensures
        r@ == filtered_tag_rows(*s),
{
    let n = s.tags.items.len();
    let mut out: Vec<usize> = Vec::new();
    let mut i: usize = 0;
    while i < n
        invariant
            n == s.tags.items@.len(),
            i <= n,
            out@ == kept_indices(i as nat, |k: int| tag_kept(s.tags.items@[k], s.tags.filter@)),
        decreases n - i,
    {
        let t = &s.tags.items[i];
        if filter_matches(s.tags.filter.as_str(), t.key.as_str()) || filter_matches(
            s.tags.filter.as_str(),
            t.value.as_str(),
        ) {
            out.push(i);
        }
        i = i + 1;
    }
    out
}

/// The EC2 console address for `region`, on the instance `instance_id` when one is open.
pub open spec fn console_address(region: Seq<char>, instance: Option<Seq<char>>) -> Seq<char> {
    match instance {
        Some(id) => "https://"@ + region + ".console.aws.amazon.com/ec2/home?region="@ + region
            + "#InstanceDetails:instanceId="@ + id,
        None => "https://"@ + region + ".console.aws.amazon.com/ec2/home?region="@ + region
            + "#Instances:"@,
    }
}


impl CyclicEnum for DetailTab {
    open spec fn all_values() -> Seq<DetailTab> {
        seq![DetailTab::Details, DetailTab::StatusAndAlarms, DetailTab::Monitoring, DetailTab::Security, DetailTab::Networking, DetailTab::Storage, DetailTab::Tags]
    }

    fn all() -> (r: Vec<DetailTab>) {
        let r = vec![DetailTab::Details, DetailTab::StatusAndAlarms, DetailTab::Monitoring, DetailTab::Security, DetailTab::Networking, DetailTab::Storage, DetailTab::Tags];
        assert(r@ =~= Self::all_values());
        r
    }

    fn next(&self) -> (r: DetailTab) {
        proof {
            DetailTab::lemma_cycle(*self);
        }
        DetailTab::next(self)
    }

    fn prev(&self) -> (r: DetailTab) {
        proof {
            DetailTab::lemma_cycle(*self);
        }
        DetailTab::prev(self)
    }

    proof fn lemma_values_listed() {
        let all = Self::all_values();
        DetailTab::lemma_cycle(DetailTab::Details);
        assert forall|x: DetailTab| all.contains(x) by {
            match x {
                DetailTab::Details => assert(all[0] == x),
                DetailTab::StatusAndAlarms => assert(all[1] == x),
                DetailTab::Monitoring => assert(all[2] == x),
                DetailTab::Security => assert(all[3] == x),
                DetailTab::Networking => assert(all[4] == x),
                DetailTab::Storage => assert(all[5] == x),
                DetailTab::Tags => assert(all[6] == x),
            }
        }
    }
}

impl CyclicEnum for StateFilter {
    open spec fn all_values() -> Seq<StateFilter> {
        seq![StateFilter::AllStates, StateFilter::Running, StateFilter::Stopped, StateFilter::Terminated, StateFilter::Pending, StateFilter::ShuttingDown, StateFilter::Stopping]
    }

    fn all() -> (r: Vec<StateFilter>) {
        let r = vec![StateFilter::AllStates, StateFilter::Running, StateFilter::Stopped, StateFilter::Terminated, StateFilter::Pending, StateFilter::ShuttingDown, StateFilter::Stopping];
        assert(r@ =~= Self::all_values());
        r
    }

    fn next(&self) -> (r: StateFilter) {
        proof {
            StateFilter::lemma_cycle(*self);
        }
        StateFilter::next(self)
    }

    fn prev(&self) -> (r: StateFilter) {
        proof {
            StateFilter::lemma_cycle(*self);
        }
        StateFilter::prev(self)
    }

    proof fn lemma_values_listed() {
        let all = Self::all_values();
        StateFilter::lemma_cycle(StateFilter::AllStates);
        assert forall|x: StateFilter| all.contains(x) by {
            match x {
                StateFilter::AllStates => assert(all[0] == x),
                StateFilter::Running => assert(all[1] == x),
                StateFilter::Stopped => assert(all[2] == x),
                StateFilter::Terminated => assert(all[3] == x),
                StateFilter::Pending => assert(all[4] == x),
                StateFilter::ShuttingDown => assert(all[5] == x),
                StateFilter::Stopping => assert(all[6] == x),
            }
        }
    }
}

} // verus!

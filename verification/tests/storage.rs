use rusticity::cloud::fsx::FsxFileSystem;
use rusticity::ecr::image::Column as ImageColumn;
use rusticity::ecr::repo::Column as RepoColumn;
use rusticity::efs::access_point::Column as ApColumn;
use rusticity::efs::fs::Column as EfsColumn;
use rusticity::efs::mount_target::Column as MtColumn;
use rusticity::fsx::fs::Column as FsxColumn;

#[test]
fn image_test_column_ids_have_correct_prefix() {
    for col in ImageColumn::all() {
        assert!(
            col.id().starts_with("column.ecr.image."),
            "Column ID '{}' should start with 'column.ecr.image.'",
            col.id()
        );
    }
}

#[test]
fn repo_test_column_ids_have_correct_prefix() {
    for col in RepoColumn::all() {
        assert!(
            col.id().starts_with("column.ecr.repo."),
            "Column ID '{}' should start with 'column.ecr.repo.'",
            col.id()
        );
    }
}

#[test]
fn test_ap_column_ids_have_prefix() {
    for col in ApColumn::all() {
        assert!(col.id().starts_with("column.efs.ap."));
    }
}

#[test]
fn test_ap_from_id_roundtrip() {
    for col in ApColumn::all() {
        assert_eq!(ApColumn::from_id(col.id()), Some(col));
    }
}

#[test]
fn test_ap_all_six_columns_visible_by_default() {
    assert_eq!(ApColumn::all().len(), 6);
    assert_eq!(ApColumn::default_visible_ids().len(), 6);
}

#[test]
fn fs_test_column_ids_have_correct_prefix() {
    for col in EfsColumn::all() {
        assert!(
            col.id().starts_with("column.efs.fs."),
            "Column ID '{}' should start with 'column.efs.fs.'",
            col.id()
        );
    }
}

#[test]
fn fs_test_from_id_roundtrip() {
    for col in EfsColumn::all() {
        assert_eq!(EfsColumn::from_id(col.id()), Some(col));
    }
}

#[test]
fn test_default_visible_excludes_specified_columns() {
    let ids = EfsColumn::default_visible_ids();
    assert!(!ids.contains(&EfsColumn::ThroughputMode.id()), "ThroughputMode not default");
    assert!(!ids.contains(&EfsColumn::PerformanceMode.id()), "PerformanceMode not default");
    assert!(
        !ids.contains(&EfsColumn::NumberOfMountTargets.id()),
        "NumberOfMountTargets not default"
    );
    assert!(!ids.contains(&EfsColumn::OwnerId.id()), "OwnerId not default");
    assert!(!ids.contains(&EfsColumn::CreationToken.id()), "CreationToken not default");
    assert!(!ids.contains(&EfsColumn::KmsKeyId.id()), "KmsKeyId not default");
}

#[test]
fn test_default_visible_includes_core_columns() {
    let ids = EfsColumn::default_visible_ids();
    assert!(ids.contains(&EfsColumn::Name.id()));
    assert!(ids.contains(&EfsColumn::FileSystemId.id()));
    assert!(ids.contains(&EfsColumn::LifeCycleState.id()));
    assert!(ids.contains(&EfsColumn::CreationTime.id()));
    assert!(ids.contains(&EfsColumn::TotalSize.id()));
}

#[test]
fn test_all_18_columns() {
    assert_eq!(EfsColumn::all().len(), 18);
}

#[test]
fn test_mt_column_ids_have_prefix() {
    for col in MtColumn::all() {
        assert!(col.id().starts_with("column.efs.mt."));
    }
}

#[test]
fn test_mt_from_id_roundtrip() {
    for col in MtColumn::all() {
        assert_eq!(MtColumn::from_id(col.id()), Some(col));
    }
}

#[test]
fn test_mt_owner_and_fs_id_hidden_by_default() {
    let visible = MtColumn::default_visible_ids();
    assert!(!visible.contains(&MtColumn::OwnerId.id()));
    assert!(!visible.contains(&MtColumn::FileSystemId.id()));
    assert_eq!(visible.len(), 9);
    assert!(visible.contains(&MtColumn::AvailabilityZone.id()));
    assert!(visible.contains(&MtColumn::SecurityGroups.id()));
}

#[test]
fn test_mt_all_eleven_columns() {
    assert_eq!(MtColumn::all().len(), 11);
}

#[test]
fn test_column_ids_have_prefix() {
    for col in FsxColumn::all() {
        assert!(col.id().starts_with("column.fsx.fs."));
    }
}

#[test]
fn fsx_fs_test_from_id_roundtrip() {
    for col in FsxColumn::all() {
        assert_eq!(FsxColumn::from_id(col.id()), Some(col));
    }
}

#[test]
fn test_all_thirteen_columns() {
    assert_eq!(FsxColumn::all().len(), 13);
}

#[test]
fn test_default_visible_hides_iops_lustre_vpc_kms() {
    let visible = FsxColumn::default_visible_ids();
    assert!(!visible.contains(&FsxColumn::ProvisionedIops.id()));
    assert!(!visible.contains(&FsxColumn::LustreVersion.id()));
    assert!(!visible.contains(&FsxColumn::Vpc.id()));
    assert!(!visible.contains(&FsxColumn::KmsKeyId.id()));
    assert_eq!(visible.len(), 9);
    assert!(visible.contains(&FsxColumn::Name.id()));
    assert!(visible.contains(&FsxColumn::Status.id()));
    assert!(visible.contains(&FsxColumn::StorageCapacity.id()));
    assert!(visible.contains(&FsxColumn::CreationTime.id()));
}

fn blank_fsx() -> FsxFileSystem {
    FsxFileSystem {
        name: String::new(),
        file_system_id: String::new(),
        file_system_arn: String::new(),
        file_system_type: String::new(),
        status: String::new(),
        deployment_type: String::new(),
        storage_class: String::new(),
        storage_capacity: String::new(),
        storage_capacity_gib: 0,
        throughput_capacity: String::new(),
        per_unit_throughput: 0,
        total_throughput_mbps: 0,
        provisioned_iops: String::new(),
        creation_time: String::new(),
        lustre_version: String::new(),
        data_compression_type: String::new(),
        efa: String::new(),
        root_squash: String::new(),
        mount_name: String::new(),
        subnet_ids: String::new(),
        vpc_id: String::new(),
        kms_key_id: String::new(),
        dns_name: String::new(),
        network_interface_ids: String::new(),
        weekly_maintenance_start: String::new(),
        daily_automatic_backup_start: String::new(),
        automatic_backup_retention_days: 0,
        tags: Vec::new(),
        updates: Vec::new(),
    }
}

#[test]
fn test_columns_reuse_summary_formatters() {
    let mut fs = blank_fsx();
    fs.storage_class = "Ssd".to_string();
    fs.deployment_type = "Persistent2".to_string();
    let (sc, _) = FsxColumn::StorageClass.render(&fs);
    assert_eq!(sc, "SSD");
    let (dt, _) = FsxColumn::DeploymentType.render(&fs);
    assert_eq!(dt, "Persistent 2");
}

use rusticity::cloud::ec2::tags_from;
use rusticity::cloud::iam::{assume_role_document, default_version_document, format_policy_document};
use rusticity::cloud::s3::{bucket_location_from, buckets_from, objects_from, ObjectDescription};
use rusticity::cloud::sqs::{pipes_from, triggers_from, EventSourceMappingDescription, PipeDescription};
use rusticity::cloud::cfn::{change_sets_from, events_from, ChangeSetDescription, StackEventDescription};
use rusticity::cloud::logs::{log_events_page, query_results_from, LogEventDescription};
use rusticity::cloud::alarms::{metric_queries, shown_result, sort_points, statistic_field, visible_query_id, QueryKind, StatisticField, SubMetric};
use rusticity::cloud::ecr::{images_from, private_repositories_from, public_repositories_from, ImageDescription, RepositoryDescription};
use rusticity::cloud::efs::{access_points_from, mount_targets_from, AccessPointDescription, CreationInfoDescription, MountTargetDescription, PosixUserDescription, RootDirectoryDescription};
use rusticity::cloud::lambda::{aliases_from, applications_from, functions_from, versions_from, ApplicationStackDescription, LambdaAliasDescription, LambdaFunctionDescription, LambdaVersionDescription};
use rusticity::cloud::cfn::{details_from, outputs_from, parameters_from, resources_from, stacks_from, StackDescription, StackOutputDescription, StackParameterDescription, StackResourceDescription, StackSummaryDescription};
use rusticity::cloud::efs::{format_replication, ReplicationDescription, ReplicationDestination};
use rusticity::cloud::fsx::{backups_from, FsxBackupDescription, FsxBackupSource};
use rusticity::cloud::efs::efs_file_systems_from;
use rusticity::cloud::ec2::{instances_from, Ec2InstanceDescription};
use rusticity::cloud::efs::{EfsDescription, EfsSizeDescription};
use rusticity::cloud::alarms::{alarm_from, AlarmDescription, MetricDescription, MetricQueryDescription, MetricStatDescription};
use rusticity::cloud::apig::{api_from_v2, resource_from, route_from, ResourceDescription, RestApiV2Description, RouteDescription};
use rusticity::cloud::cloudtrail::{event_from, CloudTrailEventDescription};
use rusticity::cloud::fsx::{
    file_system_from, file_systems_from, FsxActionDescription, FsxConfig, FsxDescription, FsxTargetDescription,
};
use rusticity::cloud::kms::{keys_from, KmsAliasDescription, KmsKeyDescription};
use rusticity::cloud::sqs::{queues_from, SqsAttributes};
use rusticity::timestamp::UtcTime;

fn s(x: &str) -> Option<String> {
    Some(x.to_string())
}

fn lustre(created: &str) -> FsxDescription {
    FsxDescription {
        file_system_id: s("fs-1"),
        resource_arn: s("arn:fs-1"),
        file_system_type: s("Lustre"),
        lifecycle: s("Available"),
        storage_type: s("Ssd"),
        storage_capacity: Some(1200),
        config: FsxConfig::Lustre {
            deployment_type: s("Persistent2"),
            per_unit_throughput: Some(125),
            data_compression_type: s("Lz4"),
            efa_enabled: Some(true),
            root_squash: s("365534:65534"),
            mount_name: s("abcd"),
            weekly_maintenance_start: s("4:07:00"),
            daily_backup_start: s("03:00"),
            retention_days: Some(7),
        },
        dns_name: s("fs-1.fsx.aws"),
        network_interface_ids: vec!["eni-1".to_string(), "eni-2".to_string()],
        administrative_actions: vec![
            FsxActionDescription {
                action_type: s("FileSystemUpdate"),
                status: s("Completed"),
                progress_percent: Some(100),
                request_time: s("2024-02-01T00:00:00Z"),
                target: Some(FsxTargetDescription {
                    storage_capacity: Some(2400),
                    lustre_per_unit_throughput: None,
                    windows_throughput_capacity: None,
                }),
            },
            FsxActionDescription {
                action_type: s("FileSystemUpdate"),
                status: s("Pending"),
                progress_percent: None,
                request_time: s("2024-01-01T00:00:00Z"),
                target: Some(FsxTargetDescription {
                    storage_capacity: None,
                    lustre_per_unit_throughput: Some(Some(250)),
                    windows_throughput_capacity: None,
                }),
            },
        ],
        creation_time: s(created),
        file_system_type_version: s("2.15"),
        tags: vec![(s("Env"), s("prod")), (s("Name"), s("scratch")), (None, s("x"))],
        subnet_ids: vec!["subnet-1".to_string()],
        vpc_id: s("vpc-1"),
        kms_key_id: None,
    }
}

#[test]
fn fsx_row_from_a_lustre_description() {
    let r = file_system_from(&lustre("2024-01-01T00:00:00Z"));
    assert_eq!(r.name, "scratch");
    assert_eq!(r.storage_capacity, "1200 GiB");
    assert_eq!(r.throughput_capacity, "125 MB/s/TiB");
    assert_eq!(r.total_throughput_mbps, 150);
    assert_eq!(r.efa, "Enabled");
    assert_eq!(r.root_squash, "Enabled");
    assert_eq!(r.lustre_version, "2.15");
    assert_eq!(r.network_interface_ids, "eni-1, eni-2");
    assert_eq!(r.kms_key_id, "");
    assert_eq!(r.tags, vec![("Env".to_string(), "prod".to_string()), ("Name".to_string(), "scratch".to_string())]);
    assert_eq!(r.updates.len(), 2);
    assert_eq!(r.updates[0].request_time_raw, "2024-01-01T00:00:00Z");
    assert_eq!(r.updates[0].target_value, "250 MB/s/TiB");
    assert_eq!(r.updates[0].progress_percent, "");
    assert_eq!(r.updates[1].target_value, "2400 GiB");
    assert_eq!(r.updates[1].progress_percent, "100%");
}

#[test]
fn fsx_rows_newest_first() {
    let rows = file_systems_from(&vec![lustre("2024-01-01T00:00:00Z"), lustre("2024-05-01T00:00:00Z")]);
    assert_eq!(rows[0].creation_time, "2024-05-01T00:00:00Z");
    assert_eq!(rows[1].creation_time, "2024-01-01T00:00:00Z");
}

fn key(id: &str) -> KmsKeyDescription {
    KmsKeyDescription {
        key_id: id.to_string(),
        arn: None,
        description: None,
        enabled: true,
        key_state: s("Enabled"),
        key_usage: None,
        key_spec: None,
        key_manager: s("Customer"),
        creation_date: None,
        valid_to: None,
        deletion_date: None,
        custom_key_store_id: None,
        origin: None,
        multi_region: None,
    }
}

#[test]
fn kms_keys_with_aliases_in_order() {
    let aliases = vec![
        KmsAliasDescription { alias_name: s("alias/prod"), target_key_id: s("k1") },
        KmsAliasDescription { alias_name: s("alias/app"), target_key_id: s("k1") },
        KmsAliasDescription { alias_name: s("other"), target_key_id: s("k3") },
    ];
    let keys = keys_from(&vec![key("k1"), key("k2"), key("k3")], &aliases);
    assert_eq!(keys[0].key_id, "k2");
    assert_eq!(keys[0].alias, "");
    assert_eq!(keys[1].alias, "other");
    assert_eq!(keys[2].alias, "prod, app");
    assert!(!keys[2].multi_region);
}

fn attrs() -> SqsAttributes {
    SqsAttributes {
        created_timestamp: s("1700000000"),
        approximate_number_of_messages: None,
        approximate_number_of_messages_not_visible: s("3"),
        approximate_number_of_messages_delayed: None,
        kms_master_key_id: s("alias/aws/sqs"),
        content_based_deduplication: s("true"),
        last_modified_timestamp: None,
        visibility_timeout: s("30"),
        message_retention_period: None,
        maximum_message_size: s("262144"),
        delay_seconds: None,
        receive_message_wait_time_seconds: None,
        fifo_throughput_limit: s("perMessageGroupId"),
        deduplication_scope: None,
        redrive_policy: s("{\"deadLetterTargetArn\":\"arn:aws:sqs:us-east-1:123:dlq\",\"maxReceiveCount\":5}"),
        redrive_allow_policy: s("not json"),
    }
}

#[test]
fn sqs_queue_rows_from_attributes() {
    let urls = vec![
        "https://sqs.us-east-1.amazonaws.com/123/orders.fifo".to_string(),
        "https://sqs.us-east-1.amazonaws.com/123/alpha".to_string(),
    ];
    let mut plain = attrs();
    plain.redrive_policy = None;
    plain.redrive_allow_policy = s("{\"redrivePermission\":\"allowAll\"}");
    let q = queues_from(&urls, &vec![attrs(), plain]);
    assert_eq!(q[0].name, "alpha");
    assert_eq!(q[0].queue_type, "Standard");
    assert_eq!(q[0].dead_letter_queue, "-");
    assert_eq!(q[0].redrive_allow_policy, "allowAll");
    assert_eq!(q[1].name, "orders.fifo");
    assert_eq!(q[1].queue_type, "FIFO");
    assert_eq!(q[1].messages_available, "0");
    assert_eq!(q[1].messages_in_flight, "3");
    assert_eq!(q[1].encryption, "Enabled");
    assert_eq!(q[1].content_based_deduplication, "Enabled");
    assert_eq!(q[1].maximum_message_size, "262144 bytes");
    assert_eq!(q[1].high_throughput_fifo, "Disabled");
    assert_eq!(q[1].deduplication_scope, "-");
    assert_eq!(q[1].dead_letter_queue, "dlq");
    assert_eq!(q[1].redrive_allow_policy, "not json");
}

#[test]
fn cloudtrail_event_from_its_record() {
    let record = "{\"eventSource\":\"s3.amazonaws.com\",\"awsRegion\":\"eu-west-1\",\"sourceIPAddress\":\"1.2.3.4\",\"eventType\":\"AwsApiCall\"}";
    let d = CloudTrailEventDescription {
        event_name: s("PutObject"),
        event_time: s("2025-11-12T14:30:45Z"),
        username: s("alice"),
        resources: vec![(s("AWS::S3::Bucket"), s("logs"))],
        read_only: s("false"),
        event_id: s("e1"),
        access_key_id: None,
        cloud_trail_event: s(record),
    };
    let now = UtcTime { year: 2000, month: 1, day: 1, hour: 0, minute: 0, second: 0 };
    let e = event_from(&d, &now);
    assert_eq!(e.event_time, "2025-11-12 14:30:45 (UTC)");
    assert_eq!(e.event_source, "s3.amazonaws.com");
    assert_eq!(e.aws_region, "eu-west-1");
    assert_eq!(e.source_ip_address, "1.2.3.4");
    assert_eq!(e.error_code, "");
    assert_eq!(e.resource_type, "AWS::S3::Bucket");
    assert_eq!(e.resource_name, "logs");
    let pretty = serde_json::to_string_pretty(&serde_json::from_str::<serde_json::Value>(record).unwrap()).unwrap();
    assert_eq!(e.cloud_trail_event_json, pretty);

    let mut bad = d;
    bad.event_time = s("yesterday");
    bad.cloud_trail_event = s("{oops");
    let e = event_from(&bad, &now);
    assert_eq!(e.event_time, "2000-01-01 00:00:00 (UTC)");
    assert_eq!(e.event_source, "");
    assert_eq!(e.cloud_trail_event_json, "{}");
}

#[test]
fn api_gateway_records() {
    let api = api_from_v2(&RestApiV2Description {
        api_id: s("a1"),
        name: s("orders"),
        description: None,
        created_date: None,
        api_endpoint: s("https://a1.execute-api.us-east-1.amazonaws.com"),
        protocol_type: s("Http"),
        disable_execute_api_endpoint: None,
    });
    assert_eq!(api.endpoint_configuration, "REGIONAL");
    assert_eq!(api.api_key_source, "N/A");
    assert_eq!(api.status, "AVAILABLE");

    let route = route_from(
        "us-east-1",
        "a1",
        &RouteDescription { route_id: s("r1"), route_key: s("GET /x"), target: None, authorization_type: None, api_key_required: None },
    );
    assert_eq!(route.arn, "arn:aws:apigateway:us-east-1::/apis/a1/routes/r1");
    assert_eq!(route.authorization_type, "NONE");

    let res = resource_from(
        "us-east-1",
        "a1",
        ResourceDescription { id: s("x9"), path: s("/users/{id}"), parent_id: s("p"), methods: vec!["GET".to_string()] },
    );
    assert_eq!(res.display_name, "/{id}");
    assert_eq!(res.arn, "arn:aws:apigateway:us-east-1::/restapis/a1/resources/x9");
    let root = resource_from(
        "us-east-1",
        "a1",
        ResourceDescription { id: s("r"), path: s("/"), parent_id: None, methods: Vec::new() },
    );
    assert_eq!(root.display_name, "/");
}

#[test]
fn alarm_from_a_metric_math_description() {
    let d = AlarmDescription {
        alarm_name: s("high-cpu"),
        state_value: None,
        state_updated_timestamp: s("2024-03-04T05:06:07Z"),
        alarm_description: None,
        metric_name: None,
        namespace: None,
        statistic: None,
        period: Some(300),
        comparison_operator: s("GreaterThanThreshold"),
        threshold: Some(80.0f64.to_bits()),
        actions_enabled: Some(true),
        state_reason: None,
        dimensions: vec![(s("InstanceId"), s("i-1")), (s("Extra"), None)],
        metrics: vec![
            MetricQueryDescription {
                id: s("m1"),
                label: None,
                expression: None,
                metric_stat: Some(MetricStatDescription {
                    metric: Some(MetricDescription {
                        namespace: s("AWS/EC2"),
                        metric_name: s("CPUUtilization"),
                        dimensions: vec![(s("InstanceId"), s("i-1"))],
                    }),
                    period: None,
                    stat: None,
                }),
                period: None,
                return_data: Some(false),
            },
            MetricQueryDescription {
                id: s("e1"),
                label: s("total"),
                expression: s("m1 * 2"),
                metric_stat: None,
                period: Some(120),
                return_data: Some(true),
            },
        ],
        alarm_arn: s("arn:alarm"),
        datapoints_to_alarm: None,
        evaluation_periods: Some(3),
        treat_missing_data: None,
        evaluate_low_sample_count_percentile: None,
    };
    let now = UtcTime { year: 2000, month: 1, day: 1, hour: 0, minute: 0, second: 0 };
    let a = alarm_from(&d, &now);
    assert_eq!(a.state, "INSUFFICIENT_DATA");
    assert_eq!(a.state_updated, "2024-03-04 05:06:07");
    assert_eq!(a.resource, "InstanceId=i-1, Extra=");
    assert_eq!(a.alarm_type, "Metric math");
    assert_eq!(a.expression, "Expression");
    assert_eq!(f64::from_bits(a.threshold), 80.0);
    assert_eq!(a.sub_metrics[0].period, 60);
    assert_eq!(a.sub_metrics[0].stat, "Average");
    assert_eq!(a.sub_metrics[0].dimensions, vec![("InstanceId".to_string(), "i-1".to_string())]);
    assert_eq!(a.sub_metrics[1].namespace, None);
    assert_eq!(a.sub_metrics[1].period, 120);
    assert!(a.sub_metrics[1].return_data);
}

#[test]
fn replication_summary_lists_source_and_destinations() {
    let configs = vec![ReplicationDescription {
        source_file_system_id: "fs-1".to_string(),
        source_file_system_region: "us-east-1".to_string(),
        created: Some("2024-01-02T03:04:05Z".to_string()),
        destinations: vec![
            ReplicationDestination {
                file_system_id: "fs-2".to_string(),
                region: "eu-west-1".to_string(),
                status: "Enabled".to_string(),
                last_replicated: Some("2024-02-01T00:00:00Z".to_string()),
            },
            ReplicationDestination {
                file_system_id: "fs-3".to_string(),
                region: "ap-south-1".to_string(),
                status: "Enabling".to_string(),
                last_replicated: None,
            },
        ],
    }];
    assert_eq!(
        format_replication(&configs),
        "Source file system: fs-1\nSource region: us-east-1\nCreated: 2024-01-02T03:04:05Z\n\nDestinations:\n  \u{2022} fs-2 (eu-west-1) \u{2014} Enabled\n    last replicated: 2024-02-01T00:00:00Z\n  \u{2022} fs-3 (ap-south-1) \u{2014} Enabling"
    );
    assert_eq!(format_replication(&Vec::new()), "");
}

#[test]
fn fsx_backups_newest_first_with_source_details() {
    let lustre = FsxBackupDescription {
        backup_id: s("backup-1"),
        tags: vec![(s("Name"), s("nightly"))],
        file_system: Some(FsxBackupSource {
            file_system_id: s("fs-1"),
            file_system_type: s("Lustre"),
            file_system_type_version: s("2.15"),
            storage_type: s("Ssd"),
            storage_capacity: Some(1200),
            config: FsxConfig::Lustre {
                deployment_type: s("Persistent2"),
                per_unit_throughput: Some(125),
                data_compression_type: None,
                efa_enabled: None,
                root_squash: None,
                mount_name: None,
                weekly_maintenance_start: None,
                daily_backup_start: None,
                retention_days: None,
            },
            tags: vec![(s("Name"), s("scratch"))],
        }),
        active_directory_id: None,
        lifecycle: s("Available"),
        progress_percent: Some(100),
        backup_type: s("Automatic"),
        creation_time: s("2024-01-01T00:00:00Z"),
        kms_key_id: s("key"),
    };
    let bare = FsxBackupDescription {
        backup_id: s("backup-2"),
        tags: vec![],
        file_system: None,
        active_directory_id: s("d-1"),
        lifecycle: None,
        progress_percent: None,
        backup_type: None,
        creation_time: s("2024-03-01T00:00:00Z"),
        kms_key_id: None,
    };
    let rows = backups_from(&vec![lustre, bare]);
    assert_eq!(rows.len(), 2);
    assert_eq!(rows[0].backup_id, "backup-2");
    assert_eq!(rows[0].active_directory, "d-1");
    assert_eq!(rows[0].storage, "");
    assert_eq!(rows[1].name, "nightly");
    assert_eq!(rows[1].resource_name, "scratch");
    assert_eq!(rows[1].resource_id, "fs-1");
    assert_eq!(rows[1].deployment_type, "Persistent2");
    assert_eq!(rows[1].storage, "1200 GiB");
    assert_eq!(rows[1].progress_percent, "100%");
    assert_eq!(rows[1].lustre_version, "2.15");
    assert_eq!(rows[1].storage_class, "Ssd");
}

fn efs_description(id: &str, arn: Option<&str>, created: &str) -> EfsDescription {
    EfsDescription {
        file_system_id: id.to_string(),
        file_system_arn: arn.map(|a| a.to_string()),
        name: s("data"),
        creation_token: "tok".to_string(),
        encrypted: Some(true),
        kms_key_id: None,
        sizes: Some(EfsSizeDescription {
            value: 6144,
            value_in_standard: Some(6144),
            value_in_ia: None,
            value_in_archive: Some(0),
        }),
        total_size_text: "6.0 KiB".to_string(),
        size_in_standard_text: "6.0 KiB".to_string(),
        size_in_ia_text: String::new(),
        size_in_archive_text: "0 B".to_string(),
        provisioned_throughput_text: String::new(),
        throughput_mode: s("Bursting"),
        life_cycle_state: "Available".to_string(),
        number_of_mount_targets: 2,
        owner_id: "123".to_string(),
        creation_time: created.to_string(),
        performance_mode: "GeneralPurpose".to_string(),
        availability_zone_name: None,
        replication_overwrite_protection: s("Enabled"),
        tags: vec![("Name".to_string(), "data".to_string())],
    }
}

#[test]
fn efs_file_systems_newest_first_with_dns_names() {
    let older = efs_description("fs-1", Some("arn:aws:elasticfilesystem:eu-west-1:123:file-system/fs-1"), "2024-01-01T00:00:00Z");
    let newer = efs_description("fs-2", None, "2024-05-01T00:00:00Z");
    let rows = efs_file_systems_from(&vec![older, newer]);
    assert_eq!(rows.len(), 2);
    assert_eq!(rows[0].file_system_id, "fs-2");
    assert_eq!(rows[0].dns_name, "fs-2.efs.unknown.amazonaws.com");
    assert_eq!(rows[1].dns_name, "fs-1.efs.eu-west-1.amazonaws.com");
    assert_eq!(rows[1].encrypted, "Yes");
    assert_eq!(rows[1].number_of_mount_targets, "2");
    assert_eq!(rows[1].size_in_ia_bytes, 0);
    assert_eq!(rows[1].total_size_bytes, 6144);
    assert_eq!(rows[1].kms_key_id, "");
    assert_eq!(rows[1].tags, vec![("Name".to_string(), "data".to_string())]);
}

#[test]
fn ec2_instance_rows_from_descriptions() {
    let d = Ec2InstanceDescription {
        instance_id: s("i-1"),
        tags: vec![(s("Name"), s("first")), (s("env"), s("prod")), (s("Name"), s("web")), (s("Name"), None)],
        state: s("running"),
        instance_type: s("t3.micro"),
        availability_zone: s("us-east-1a"),
        public_dns_name: None,
        public_ip_address: s("1.2.3.4"),
        ipv6_addresses: vec![vec![s("::1"), None], vec![], vec![s("::2")]],
        monitoring: s("disabled"),
        security_group_names: vec![s("default"), None, s("web")],
        key_name: None,
        launch_time_secs: Some(1_700_000_000),
        platform_details: s("Linux/UNIX"),
    };
    let rows = instances_from(&vec![d]);
    assert_eq!(rows.len(), 1);
    let r = &rows[0];
    assert_eq!(r.instance_id, "i-1");
    assert_eq!(r.name, "web");
    assert_eq!(r.security_groups, "default, web");
    assert_eq!(r.ipv6_ips, "::1, ::2");
    assert_eq!(r.launch_time, "2023-11-14 22:13:20 (UTC)");
    assert_eq!(r.public_ipv4_dns, "");
    assert_eq!(r.elastic_ip, "");
}

fn summary(name: &str, id: &str, root: Option<&str>) -> StackSummaryDescription {
    StackSummaryDescription {
        stack_name: s(name),
        stack_id: s(id),
        stack_status: s("CREATE_COMPLETE"),
        creation_secs: Some(0),
        last_updated_secs: None,
        deletion_secs: Some(i64::MAX),
        drift_status: s("InSync"),
        last_drift_check_secs: None,
        status_reason: None,
        template_description: s("demo"),
        root_id: root.map(|r| r.to_string()),
        parent_id: None,
    }
}

#[test]
fn cfn_stacks_skip_nested_unless_asked() {
    let ds = vec![
        summary("root", "id-1", None),
        summary("child", "id-2", Some("id-1")),
        summary("self-rooted", "id-3", Some("id-3")),
    ];
    let top = stacks_from(&ds, false);
    let names: Vec<&str> = top.iter().map(|x| x.name.as_str()).collect();
    assert_eq!(names, vec!["root", "self-rooted"]);
    assert_eq!(top[0].created_time, "1970-01-01 00:00:00 (UTC)");
    assert_eq!(top[0].deleted_time, "1970-01-01 00:00:00 (UTC)");
    assert_eq!(top[0].updated_time, "");
    assert_eq!(stacks_from(&ds, true).len(), 3);
}

#[test]
fn cfn_outputs_and_resources_sorted() {
    let outs = outputs_from(&vec![
        StackOutputDescription { output_key: s("Zeta"), output_value: s("1"), description: None, export_name: None },
        StackOutputDescription { output_key: s("Alpha"), output_value: s("2"), description: s("d"), export_name: s("e") },
    ]);
    assert_eq!(outs[0].key, "Alpha");
    assert_eq!(outs[0].export_name, "e");
    assert_eq!(outs[1].key, "Zeta");
    let res = resources_from(&vec![
        StackResourceDescription { logical_resource_id: s("Queue"), physical_resource_id: s("q"), resource_type: s("AWS::SQS::Queue"), resource_status: s("CREATE_COMPLETE"), logical_id_hierarchy: None },
        StackResourceDescription { logical_resource_id: s("Bucket"), physical_resource_id: None, resource_type: s("AWS::S3::Bucket"), resource_status: None, logical_id_hierarchy: s("Mod") },
    ]);
    assert_eq!(res[0].logical_id, "Bucket");
    assert_eq!(res[0].module_info, "Mod");
    assert_eq!(res[1].physical_id, "q");
    let params = parameters_from(&vec![StackParameterDescription { parameter_key: s("Env"), parameter_value: None, resolved_value: s("prod") }]);
    assert_eq!(params[0].key, "Env");
    assert_eq!(params[0].value, "");
    assert_eq!(params[0].resolved_value, "prod");
}

#[test]
fn cfn_stack_details() {
    let d = details_from(&StackDescription {
        root_id: None,
        parent_id: s("p"),
        termination_protection: None,
        role_arn: s("arn:role"),
        tags: vec![(s("k"), None)],
        rollback_trigger_arns: Some(vec![s("alarm-1"), None]),
        notification_arns: vec!["topic".to_string()],
    });
    assert!(!d.termination_protection);
    assert_eq!(d.parent_stack, "p");
    assert_eq!(d.tags, vec![("k".to_string(), String::new())]);
    assert_eq!(d.rollback_alarms, vec!["alarm-1".to_string(), String::new()]);
    assert_eq!(d.notification_arns, vec!["topic".to_string()]);
}

fn version_description(v: &str) -> LambdaVersionDescription {
    LambdaVersionDescription { version: s(v), description: None, last_modified: s("garbage"), architectures: vec![] }
}

#[test]
fn lambda_versions_note_their_aliases() {
    let aliases = vec![
        LambdaAliasDescription { name: s("live"), function_version: s("2"), additional_versions: vec![("1".to_string(), 10)], description: None },
        LambdaAliasDescription { name: s("prod"), function_version: s("2"), additional_versions: vec![], description: s("main") },
        LambdaAliasDescription { name: s("gone"), function_version: s("9"), additional_versions: vec![], description: None },
    ];
    let vs = versions_from(&vec![version_description("$LATEST"), version_description("1"), version_description("2")], &aliases);
    assert_eq!(vs[0].aliases, "");
    assert_eq!(vs[1].aliases, "live");
    assert_eq!(vs[2].aliases, "live, prod");
    assert_eq!(vs[2].last_modified, "garbage");
    let shown = aliases_from(&aliases);
    assert_eq!(shown[0].versions, "2, 1 (10%)");
    assert_eq!(shown[1].versions, "2");
    assert_eq!(shown[1].description, "main");
}

#[test]
fn lambda_functions_and_applications() {
    let f = LambdaFunctionDescription {
        function_name: s("storefront-studio-beta-api"),
        function_arn: s("arn:fn"),
        description: None,
        package_type: s("Zip"),
        runtime: s("Python312"),
        architectures: vec!["X8664".to_string(), "Arm64".to_string()],
        code_size: 1024,
        code_sha256: None,
        memory_size: None,
        timeout: Some(30),
        last_modified: s("2024-10-31T12:30:45.000+0000"),
        layers: vec![(s("arn:layer"), 10), (None, 0)],
    };
    let rows = functions_from(&vec![f]);
    assert_eq!(rows[0].application.as_deref(), Some("storefront-studio-beta"));
    assert_eq!(rows[0].architecture, "X8664");
    assert_eq!(rows[0].memory_mb, 0);
    assert_eq!(rows[0].timeout_seconds, 30);
    assert_eq!(rows[0].last_modified, "2024-10-31 12:30:45 (UTC)");
    assert_eq!(rows[0].layers.len(), 2);
    assert_eq!(rows[0].layers[1].arn, "");
    let apps = applications_from(&vec![
        ApplicationStackDescription { stack_name: s("a"), stack_id: s("id-a"), template_description: None, stack_status: s("CreateComplete"), last_updated_secs: None, creation_secs: Some(86400) },
        ApplicationStackDescription { stack_name: s("b"), stack_id: s("id-b"), template_description: None, stack_status: s("DELETE_IN_PROGRESS"), last_updated_secs: None, creation_secs: None },
    ]);
    assert_eq!(apps.len(), 1);
    assert_eq!(apps[0].name, "a");
    assert_eq!(apps[0].last_modified, "1970-01-02 00:00:00 (UTC)");
}

#[test]
fn efs_access_points_and_mount_targets() {
    let aps = access_points_from(&vec![
        AccessPointDescription {
            access_point_id: s("fsap-1"),
            name: s("app"),
            posix_user: Some(PosixUserDescription { uid: 1000, gid: 1001 }),
            root_directory: Some(RootDirectoryDescription {
                path: None,
                creation_info: Some(CreationInfoDescription { owner_uid: 0, owner_gid: 0, permissions: "755".to_string() }),
            }),
            life_cycle_state: s("Available"),
        },
        AccessPointDescription { access_point_id: None, name: None, posix_user: None, root_directory: None, life_cycle_state: None },
    ]);
    assert_eq!(aps[0].posix_user, "1000:1001");
    assert_eq!(aps[0].path, "/");
    assert_eq!(aps[0].creation_info, "0:0 755");
    assert_eq!(aps[1].path, "");
    assert_eq!(aps[1].posix_user, "");
    let mts = mount_targets_from(&vec![MountTargetDescription {
        mount_target_id: "fsmt-1".to_string(),
        availability_zone_name: s("us-east-1a"),
        availability_zone_id: None,
        owner_id: s("123"),
        file_system_id: "fs-1".to_string(),
        subnet_id: "subnet-1".to_string(),
        vpc_id: s("vpc-1"),
        life_cycle_state: "Available".to_string(),
        ip_address: s("10.0.0.1"),
        ipv6_address: None,
        network_interface_id: s("eni-1"),
        security_groups: Some(vec!["sg-1".to_string(), "sg-2".to_string()]),
    }]);
    assert_eq!(mts[0].security_groups, "sg-1, sg-2");
    assert_eq!(mts[0].availability_zone_id, "");
}

#[test]
fn ecr_repositories_and_images() {
    let repo = RepositoryDescription {
        repository_name: s("web"),
        repository_uri: s("123.dkr.ecr.us-east-1.amazonaws.com/web"),
        created_at: s("2024-01-01T00:00:00Z"),
        image_tag_mutability: s("Mutable"),
        encryption_type: s("Aes256"),
    };
    let private = private_repositories_from(&vec![repo]);
    assert_eq!(private[0].encryption_type, "AES256");
    assert_eq!(private[0].tag_immutability, "Mutable");
    let public = public_repositories_from(&vec![RepositoryDescription {
        repository_name: s("pub"),
        repository_uri: None,
        created_at: None,
        image_tag_mutability: s("Mutable"),
        encryption_type: s("Kms"),
    }]);
    assert_eq!(public[0].encryption_type, "");
    assert_eq!(public[0].tag_immutability, "");
    assert_eq!(public[0].uri, "");
    let images = images_from(
        &vec![
            ImageDescription { image_tags: vec!["v1".to_string(), "latest".to_string()], artifact_media_type: None, image_pushed_at: s("t"), image_size_in_bytes: Some(42), image_digest: s("sha256:x"), last_recorded_pull_time: None },
            ImageDescription { image_tags: vec![], artifact_media_type: None, image_pushed_at: None, image_size_in_bytes: None, image_digest: None, last_recorded_pull_time: None },
        ],
        "repo/uri",
    );
    assert_eq!(images[0].uri, "repo/uri:v1");
    assert_eq!(images[0].size_bytes, 42);
    assert_eq!(images[1].tag, "<untagged>");
    assert_eq!(images[1].uri, "repo/uri:<untagged>");
    assert_eq!(images[1].size_bytes, 0);
}

fn sub(id: &str, expr: Option<&str>, ns: Option<&str>, period: i32, ret: bool) -> SubMetric {
    SubMetric {
        id: id.to_string(),
        label: String::new(),
        expression: expr.map(|e| e.to_string()),
        namespace: ns.map(|n| n.to_string()),
        metric_name: ns.map(|_| "CPUUtilization".to_string()),
        dimensions: vec![("InstanceId".to_string(), "i-1".to_string())],
        period,
        stat: "Average".to_string(),
        return_data: ret,
    }
}

#[test]
fn metric_math_queries_and_visible_result() {
    let sms = vec![
        sub("e1", Some("  select avg(x)"), None, 0, false),
        sub("m1", None, Some("AWS/EC2"), 0, false),
        sub("m2", None, Some(""), 60, false),
        sub("x", None, None, 0, false),
    ];
    assert_eq!(visible_query_id(&sms), Some("e1".to_string()));
    let qs = metric_queries(&sms);
    assert_eq!(qs.len(), 2);
    assert_eq!(qs[0].id, "e1");
    assert!(qs[0].return_data);
    match &qs[0].kind {
        QueryKind::Expression { expression, period } => {
            assert_eq!(expression, "  select avg(x)");
            assert_eq!(*period, 60);
        }
        _ => panic!("expected an expression"),
    }
    assert!(!qs[1].return_data);
    match &qs[1].kind {
        QueryKind::Stat { namespace, period, .. } => {
            assert_eq!(namespace, "AWS/EC2");
            assert_eq!(*period, 0);
        }
        _ => panic!("expected a statistic"),
    }
    let insights_only = vec![sub("q", Some("SELECT MAX(x)"), None, 0, false)];
    match &metric_queries(&insights_only)[0].kind {
        QueryKind::Expression { period, .. } => assert_eq!(*period, 300),
        _ => panic!("expected an expression"),
    }
    let ids = vec![Some("m1".to_string()), Some("e1".to_string())];
    assert_eq!(shown_result(&ids, &sms), Some(1));
    assert_eq!(shown_result(&vec![Some("zz".to_string())], &sms), Some(0));
    assert_eq!(shown_result(&Vec::new(), &sms), None);
}

#[test]
fn statistics_and_points() {
    assert_eq!(statistic_field("Maximum"), StatisticField::Maximum);
    assert_eq!(statistic_field("p99"), StatisticField::Average);
    let pts = sort_points(vec![(30, 1), (10, 2), (30, 3), (20, 4)]);
    assert_eq!(pts, vec![(10, 2), (20, 4), (30, 1), (30, 3)]);
}

#[test]
fn log_events_page_newest_first() {
    let ds = vec![
        LogEventDescription { timestamp: Some(1_000), message: s("a") },
        LogEventDescription { timestamp: Some(3_500), message: s("b") },
        LogEventDescription { timestamp: None, message: None },
        LogEventDescription { timestamp: Some(3_500), message: s("c") },
    ];
    let page = log_events_page(&ds, &s("t1"), s("t2"));
    let msgs: Vec<&str> = page.events.iter().map(|e| e.message.as_str()).collect();
    assert_eq!(msgs, vec!["b", "c", "a", ""]);
    assert_eq!(page.events[0].timestamp, UtcTime { year: 1970, month: 1, day: 1, hour: 0, minute: 0, second: 3 });
    assert!(page.has_more);
    assert!(!log_events_page(&ds, &s("t2"), s("t2")).has_more);
    assert!(!log_events_page(&Vec::new(), &None, s("t2")).has_more);
    assert!(!log_events_page(&ds, &None, None).has_more);
    let (status, rows) = query_results_from(&None, &vec![vec![(s("@message"), None)]]);
    assert_eq!(status, "Unknown");
    assert_eq!(rows, vec![vec![("@message".to_string(), String::new())]]);
}

#[test]
fn cfn_events_and_change_sets() {
    let ev = events_from(&vec![StackEventDescription {
        event_id: s("e1"),
        timestamp: s("2024-01-01T00:00:00Z"),
        logical_resource_id: s("Bucket"),
        resource_status: s("CREATE_COMPLETE"),
        resource_status_reason: None,
        resource_type: s("AWS::S3::Bucket"),
        physical_resource_id: None,
        client_request_token: s("tok"),
    }]);
    assert_eq!(ev[0].event_id, "e1");
    assert_eq!(ev[0].status_reason, "");
    assert_eq!(ev[0].operation_id, "");
    assert_eq!(ev[0].client_request_token, "tok");
    let cs = change_sets_from(&vec![ChangeSetDescription {
        change_set_name: s("cs"),
        change_set_id: None,
        creation_time: s("2024"),
        status: s("CREATE_COMPLETE"),
        description: None,
        root_change_set_id: None,
        parent_change_set_id: s("p"),
    }]);
    assert_eq!(cs[0].name, "cs");
    assert_eq!(cs[0].change_set_id, "");
    assert_eq!(cs[0].parent_change_set_id, "p");
}

#[test]
fn s3_locations_buckets_and_objects() {
    assert_eq!(bucket_location_from(&None), "us-east-1");
    assert_eq!(bucket_location_from(&s("")), "us-east-1");
    assert_eq!(bucket_location_from(&s("null")), "us-east-1");
    assert_eq!(bucket_location_from(&s("eu-west-1")), "eu-west-1");
    let b = buckets_from(&vec![(s("a"), s("2024-01-01")), (None, s("x")), (s("b"), None)]);
    assert_eq!(b, vec![
        ("a".to_string(), String::new(), "2024-01-01".to_string()),
        ("b".to_string(), String::new(), String::new()),
    ]);
    let objs = objects_from(
        &vec![s("logs/"), None],
        &vec![
            ObjectDescription { key: s("a.txt"), size: Some(5), last_modified: s("t"), storage_class: None },
            ObjectDescription { key: None, size: Some(1), last_modified: None, storage_class: None },
            ObjectDescription { key: s("b.bin"), size: None, last_modified: None, storage_class: s("GLACIER") },
        ],
    );
    assert_eq!(objs.len(), 3);
    assert_eq!(objs[0], ("logs/".to_string(), 0, String::new(), true, String::new()));
    assert_eq!(objs[1], ("a.txt".to_string(), 5, "t".to_string(), false, "STANDARD".to_string()));
    assert_eq!(objs[2], ("b.bin".to_string(), 0, String::new(), false, "GLACIER".to_string()));
}

#[test]
fn sqs_triggers_and_pipes() {
    let t = triggers_from(&vec![EventSourceMappingDescription { uuid: s("u"), function_arn: None, state: None, last_modified_secs: Some(1700000000) }]);
    assert_eq!(t[0].status, "Unknown");
    assert_eq!(t[0].arn, "");
    assert_eq!(t[0].last_modified, "1700000000");
    let p = pipes_from(&vec![PipeDescription { name: s("p"), current_state: s("RUNNING"), target: None, last_modified_secs: None }]);
    assert_eq!(p[0].status, "RUNNING");
    assert_eq!(p[0].last_modified, "");
}

#[test]
fn iam_policy_documents_decoded_and_pretty() {
    let doc = "%7B%22Version%22%3A%222012-10-17%22%7D";
    assert_eq!(format_policy_document(doc), Ok("{\n  \"Version\": \"2012-10-17\"\n}".to_string()));
    let bad_json = format_policy_document("not%20json").unwrap_err();
    assert!(bad_json.starts_with("Failed to parse policy JSON: "));
    let bad_utf8 = format_policy_document("%FF").unwrap_err();
    assert!(bad_utf8.starts_with("Failed to decode policy: "));
    assert_eq!(default_version_document(false, &None), Err("No default version found".to_string()));
    assert_eq!(default_version_document(true, &None), Err("No policy document found".to_string()));
    assert_eq!(assume_role_document(&None), Err("No assume role policy document found".to_string()));
    assert_eq!(assume_role_document(&Some("%7B%7D".to_string())), Ok("{}".to_string()));
}

#[test]
fn ec2_tags_need_key_and_value() {
    let t = tags_from(&vec![(s("Name"), s("web")), (s("k"), None), (None, s("v")), (s("env"), s(""))]);
    let pairs: Vec<(&str, &str)> = t.iter().map(|x| (x.key.as_str(), x.value.as_str())).collect();
    assert_eq!(pairs, vec![("Name", "web"), ("env", "")]);
}

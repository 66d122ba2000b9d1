use rusticity::cfn::StatusFilter;
use rusticity::common::{render_pagination, CyclicEnum};
use rusticity::sort::sort_by_key;
use rusticity::cloud::alarms::QueryKind;
use rusticity::cloud::cloudtrail::{event_json_from, event_time_from, member_or_empty};
use rusticity::cloud::efs::{efs_monitoring_queries, monitoring_from, series_of};
use rusticity::common::format_duration_seconds;
use rusticity::timestamp::{format_unix_timestamp, unix_text_from, UtcTime};

#[test]
fn status_filter_cycles_through_all_values() {
    let all = StatusFilter::all();
    assert_eq!(all.len(), 6);
    for i in 0..all.len() {
        let next = all[i].next();
        assert_eq!(next, all[(i + 1) % all.len()]);
        assert_eq!(next.prev(), all[i]);
    }
    assert_eq!(StatusFilter::All.next(), StatusFilter::Active);
    assert_eq!(StatusFilter::InProgress.next(), StatusFilter::All);
}

#[test]
fn pagination_bar_brackets_only_the_current_page() {
    let bar = render_pagination(15, 20);
    assert_eq!(bar.matches('[').count(), 1);
    assert_eq!(bar, "12 13 14 15 [16] 17 18 19 20");
    let small = render_pagination(2, 5);
    assert_eq!(small, "1 2 [3] 4 5");
}

#[test]
fn sort_by_key_keeps_equal_keys_in_order() {
    let v = vec![
        ("b".to_string(), "1".to_string()),
        ("a".to_string(), "2".to_string()),
        ("b".to_string(), "3".to_string()),
        ("a".to_string(), "4".to_string()),
    ];
    let r = sort_by_key(v);
    let vals: Vec<&str> = r.iter().map(|p| p.1.as_str()).collect();
    assert_eq!(vals, vec!["2", "4", "1", "3"]);
}

fn step_forward<T: CyclicEnum>(x: &T) -> T {
    CyclicEnum::next(x)
}

#[test]
fn cyclic_enum_through_the_trait() {
    assert_eq!(step_forward(&StatusFilter::Deleted), StatusFilter::InProgress);
    assert_eq!(CyclicEnum::prev(&StatusFilter::All), StatusFilter::InProgress);
}

#[test]
fn duration_parts_in_order() {
    assert_eq!(format_duration_seconds(90061), "1d 1h 1m 1s");
    assert_eq!(format_duration_seconds(3600), "1h");
    assert_eq!(format_duration_seconds(86460), "1d 1m");
}

#[test]
fn efs_monitoring_query_groups() {
    let q = efs_monitoring_queries("fs-1");
    let sizes: Vec<usize> = q.iter().map(|g| g.len()).collect();
    assert_eq!(sizes, vec![5, 7, 7, 1, 1, 3]);
    assert_eq!(q[0][2].id, "e4");
    assert!(q[0][2].return_data);
    match &q[5][1].kind {
        QueryKind::Stat { namespace, metric_name, dimensions, period, stat } => {
            assert_eq!(namespace, "AWS/EFS");
            assert_eq!(metric_name, "StorageBytes");
            assert_eq!(*period, 3600);
            assert_eq!(stat, "Average");
            assert_eq!(dimensions, &vec![
                ("StorageClass".to_string(), "IA".to_string()),
                ("FileSystemId".to_string(), "fs-1".to_string()),
            ]);
        }
        _ => panic!("expected a statistic"),
    }
    match &q[1][3].kind {
        QueryKind::Stat { stat, metric_name, .. } => {
            assert_eq!(stat, "SampleCount");
            assert_eq!(metric_name, "TotalIOBytes");
        }
        _ => panic!("expected a statistic"),
    }
}

#[test]
fn efs_monitoring_series_by_id() {
    let results = vec![
        (Some("e4".to_string()), vec![(1, 9)]),
        (Some("e4".to_string()), vec![(20, 1), (10, 2)]),
        (None, vec![(5, 5)]),
    ];
    assert_eq!(series_of(&results, "e4"), vec![(10, 2), (20, 1)]);
    assert!(series_of(&results, "e2").is_empty());
    let empty: Vec<(Option<String>, Vec<(i64, u64)>)> = Vec::new();
    let data = monitoring_from(&results, &empty, &empty, &empty, &empty, &empty);
    assert_eq!(data.throughput_utilization, vec![(10, 2), (20, 1)]);
    assert!(data.storage_ia.is_empty());
}

#[test]
fn steps_after_outside_calls() {
    let now = UtcTime { year: 2024, month: 1, day: 2, hour: 3, minute: 4, second: 5 };
    assert_eq!(event_time_from(None, &now), "2024-01-02 03:04:05 (UTC)");
    assert_eq!(event_json_from(Err("bad".to_string())), "{}");
    assert_eq!(event_json_from(Ok("{}".to_string())), "{}");
    assert_eq!(member_or_empty(None), "");
    assert_eq!(unix_text_from("99", None), "99");
    assert_eq!(unix_text_from("0", Some(UtcTime { year: 1970, month: 1, day: 1, hour: 0, minute: 0, second: 0 })), "1970-01-01 00:00:00 (UTC)");
}

#[test]
fn unix_text_parses_like_std() {
    assert_eq!(format_unix_timestamp("+0"), "1970-01-01 00:00:00 (UTC)");
    assert_eq!(format_unix_timestamp("-0"), "1970-01-01 00:00:00 (UTC)");
    assert_eq!(format_unix_timestamp("86400"), "1970-01-02 00:00:00 (UTC)");
    assert_eq!(format_unix_timestamp("-"), "-");
    assert_eq!(format_unix_timestamp("+"), "+");
    assert_eq!(format_unix_timestamp(" 1"), " 1");
    assert_eq!(format_unix_timestamp("1x"), "1x");
    assert_eq!(format_unix_timestamp("99999999999999999999"), "99999999999999999999");
    assert_eq!(format_unix_timestamp(""), "-");
}

use rusticity::common::{format_duration_seconds, format_memory_mb, render_pagination};
use rusticity::timestamp::{format_optional_timestamp, format_timestamp, UtcTime};

fn sample_time() -> UtcTime {
    UtcTime { year: 2025, month: 11, day: 12, hour: 14, minute: 30, second: 45 }
}

#[test]
fn test_format_timestamp() {
    let dt = sample_time();
    assert_eq!(format_timestamp(&dt), "2025-11-12 14:30:45 (UTC)");
}

#[test]
fn test_format_optional_timestamp_some() {
    let dt = sample_time();
    assert_eq!(format_optional_timestamp(Some(dt)), "2025-11-12 14:30:45 (UTC)");
}

#[test]
fn test_format_optional_timestamp_none() {
    assert_eq!(format_optional_timestamp(None), "-");
}

#[test]
fn test_format_duration_seconds_zero() {
    assert_eq!(format_duration_seconds(0), "0s");
}

#[test]
fn test_format_duration_seconds_only_seconds() {
    assert_eq!(format_duration_seconds(30), "30s");
}

#[test]
fn test_format_duration_seconds_minutes_and_seconds() {
    assert_eq!(format_duration_seconds(120), "2m");
    assert_eq!(format_duration_seconds(150), "2m 30s");
}

#[test]
fn test_format_duration_seconds_hours() {
    assert_eq!(format_duration_seconds(3630), "1h 30s");
    assert_eq!(format_duration_seconds(10800), "3h");
}

#[test]
fn test_format_duration_seconds_days() {
    assert_eq!(format_duration_seconds(90061), "1d 1h 1m 1s");
    assert_eq!(format_duration_seconds(345600), "4d");
}

#[test]
fn test_format_duration_seconds_complex() {
    assert_eq!(format_duration_seconds(1800), "30m");
    assert_eq!(format_duration_seconds(86400), "1d");
}

#[test]
fn test_render_pagination_single_page() {
    assert_eq!(render_pagination(0, 1), "[1]");
}

#[test]
fn test_render_pagination_two_pages() {
    assert_eq!(render_pagination(0, 2), "[1] 2");
    assert_eq!(render_pagination(1, 2), "1 [2]");
}

#[test]
fn test_render_pagination_ten_pages() {
    assert_eq!(render_pagination(0, 10), "[1] 2 3 4 5 6 7 8 9 10");
    assert_eq!(render_pagination(5, 10), "1 2 3 4 5 [6] 7 8 9 10");
    assert_eq!(render_pagination(9, 10), "1 2 3 4 5 6 7 8 9 [10]");
}

#[test]
fn test_format_memory_mb() {
    assert_eq!(format_memory_mb(128), "128 MB");
    assert_eq!(format_memory_mb(512), "512 MB");
    assert_eq!(format_memory_mb(1024), "1 GB");
    assert_eq!(format_memory_mb(2048), "2 GB");
}

#[test]
fn test_render_pagination_many_pages() {
    assert_eq!(render_pagination(0, 20), "[1] 2 3 4 5 6 7 8 9");
    assert_eq!(render_pagination(5, 20), "2 3 4 5 [6] 7 8 9 10");
    assert_eq!(render_pagination(15, 20), "12 13 14 15 [16] 17 18 19 20");
    assert_eq!(render_pagination(19, 20), "12 13 14 15 16 17 18 19 [20]");
}

#[test]
fn test_render_pagination_zero_total() {
    assert_eq!(render_pagination(0, 0), "[1]");
}

#[test]
fn test_render_dropdown_items_format() {
    let items = ["us-east-1", "us-west-2", "eu-west-1"];
    assert_eq!(items.len(), 3);
    assert_eq!(items[0], "us-east-1");
    assert_eq!(items[2], "eu-west-1");
}

#[test]
fn test_render_dropdown_selected_index() {
    let items = ["item1", "item2", "item3"];
    let selected = 1;
    assert_eq!(items[selected], "item2");
}

#[test]
fn test_render_dropdown_controls_after_width() {
    let pagination_len = 10;
    let separator = 3;
    let controls_after = pagination_len + separator;
    assert_eq!(controls_after, 13);
}

#[test]
fn test_render_dropdown_multiple_controls_after() {
    let view_nested_width = 15;
    let pagination_len = 10;
    let controls_after = view_nested_width + 3 + pagination_len + 3;
    assert_eq!(controls_after, 31);
}

use rusticity::cloudtrail::events::CloudTrailEventColumn;
use rusticity::cloudtrail::resources::EventResourceColumn;
use rusticity::cw::alarms::AlarmColumn;
use rusticity::cw::logs::{EventColumn, LogGroupColumn, StreamColumn};

#[test]
fn events_test_column_ids_have_correct_prefix() {
    for col in CloudTrailEventColumn::all() {
        assert!(
            col.id().starts_with("column.cloudtrail.event."),
            "CloudTrailEventColumn ID '{}' should start with 'column.cloudtrail.event.'",
            col.id()
        );
    }
}

#[test]
fn resources_test_column_from_id() {
    assert_eq!(
        EventResourceColumn::from_id("column.cloudtrail.resource.resource_type"),
        Some(EventResourceColumn::ResourceType)
    );
    assert_eq!(
        EventResourceColumn::from_id("column.cloudtrail.resource.resource_name"),
        Some(EventResourceColumn::ResourceName)
    );
    assert_eq!(
        EventResourceColumn::from_id("column.cloudtrail.resource.timeline"),
        Some(EventResourceColumn::Timeline)
    );
    assert_eq!(EventResourceColumn::from_id("invalid"), None);
}

#[test]
fn alarms_test_column_ids_have_correct_prefix() {
    for col in AlarmColumn::all() {
        assert!(
            col.id().starts_with("column.cw.alarm."),
            "AlarmColumn ID '{}' should start with 'column.cw.alarm.'",
            col.id()
        );
    }
}

#[test]
fn resources_test_column_ids_have_correct_prefix() {
    for id in EventResourceColumn::ids() {
        assert!(id.starts_with("column.cloudtrail.resource."));
    }
}

#[test]
fn resources_test_all_columns_count() {
    assert_eq!(EventResourceColumn::ids().len(), 3);
}

#[test]
fn test_stream_column_all_returns_seven_columns() {
    let columns = StreamColumn::all();
    assert_eq!(columns.len(), 7);
}

#[test]
fn test_event_column_all_returns_five_columns() {
    let columns = EventColumn::all();
    assert_eq!(columns.len(), 5);
}

#[test]
fn test_log_group_column_id_returns_full_key() {
    let id = LogGroupColumn::LogGroup.id();
    assert_eq!(id, "column.cw.group.log_group");
    assert!(id.starts_with("column."));
}

#[test]
fn test_stream_column_id_returns_full_key() {
    let id = StreamColumn::LogStream.id();
    assert_eq!(id, "column.cw.stream.log_stream");
    assert!(id.starts_with("column."));
}

#[test]
fn test_event_column_id_returns_full_key() {
    let id = EventColumn::Timestamp.id();
    assert_eq!(id, "column.cw.event.timestamp");
    assert!(id.starts_with("column."));
}

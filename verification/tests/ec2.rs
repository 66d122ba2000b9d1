use rusticity::common::{Translations, UTC_TIMESTAMP_WIDTH};
use rusticity::ec2::{format_state, Column, StateColor};
use rusticity::ec2::tag::Column as TagColumn;

#[test]
fn ec2_test_column_names() {
    let tr = Translations::empty();
    assert_eq!(Column::Name.name(&tr), "Name");
    assert_eq!(Column::InstanceId.name(&tr), "Instance ID");
    assert_eq!(Column::InstanceState.name(&tr), "Instance state");
    assert_eq!(Column::InstanceType.name(&tr), "Instance type");
}

#[test]
fn ec2_test_column_all() {
    let columns = Column::ids();
    assert_eq!(columns.len(), 52);
    assert_eq!(columns[0], Column::InstanceId.id());
}

#[test]
fn test_format_state() {
    let (formatted, color) = format_state("running");
    assert_eq!(formatted, "✅ Running");
    assert_eq!(color, StateColor::Green);

    let (formatted, color) = format_state("stopped");
    assert_eq!(formatted, "🛑 Stopped");
    assert_eq!(color, StateColor::Red);

    let (formatted, color) = format_state("terminated");
    assert_eq!(formatted, "❌ Terminated");
    assert_eq!(color, StateColor::DarkGray);

    let (formatted, color) = format_state("pending");
    assert_eq!(formatted, "❎ Pending");
    assert_eq!(color, StateColor::Yellow);

    let (formatted, color) = format_state("shutting-down");
    assert_eq!(formatted, "🔴 Shutting-down");
    assert_eq!(color, StateColor::Yellow);

    let (formatted, color) = format_state("stopping");
    assert_eq!(formatted, "🚫 Stopping");
    assert_eq!(color, StateColor::Yellow);
}

#[test]
fn ec2_test_column_from_id() {
    assert_eq!(Column::from_id("column.ec2.instance.name"), Some(Column::Name));
    assert_eq!(Column::from_id("column.ec2.instance.instance_id"), Some(Column::InstanceId));
    assert_eq!(Column::from_id("column.ec2.instance.state"), Some(Column::InstanceState));
    assert_eq!(Column::from_id("invalid"), None);
}

#[test]
fn test_column_ids_unique() {
    let ids = Column::ids();
    let mut seen = std::collections::HashSet::new();
    for id in ids {
        assert!(seen.insert(id), "Duplicate column ID: {}", id);
    }
}

#[test]
fn ec2_test_column_ids_have_correct_prefix() {
    for col in Column::all() {
        assert!(
            col.id().starts_with("column.ec2.instance."),
            "Column ID '{}' should start with 'column.ec2.instance.'",
            col.id()
        );
    }
}

#[test]
fn test_launch_time_uses_utc_timestamp_width() {
    assert_eq!(Column::LaunchTime.width(&Translations::empty()), UTC_TIMESTAMP_WIDTH);
}

#[test]
fn test_utc_timestamp_width_constant_is_27() {
    assert_eq!(UTC_TIMESTAMP_WIDTH, 27);
}

#[test]
fn test_column_ids() {
    let ids = TagColumn::ids();
    assert_eq!(ids.len(), 2);
    assert_eq!(ids[0], "column.ec2.tag.key");
    assert_eq!(ids[1], "column.ec2.tag.value");
}

#[test]
fn tag_test_column_from_id() {
    assert_eq!(TagColumn::from_id("column.ec2.tag.key"), Some(TagColumn::Key));
    assert_eq!(TagColumn::from_id("column.ec2.tag.value"), Some(TagColumn::Value));
    assert_eq!(TagColumn::from_id("invalid"), None);
}

#[test]
fn tag_test_column_names() {
    assert_eq!(TagColumn::Key.default_name(), "Key");
    assert_eq!(TagColumn::Value.default_name(), "Value");
}

#[test]
fn format_state_passes_unknown_states_through() {
    let (formatted, color) = format_state("rebooting");
    assert_eq!(formatted, "rebooting");
    assert_eq!(color, StateColor::White);
}

#[test]
fn width_grows_with_a_long_translation() {
    let mut tr = Translations::empty();
    tr.set_default("column.ec2.tag.key", "A very long translated key label");
    assert_eq!(TagColumn::Key.width(&tr), 32);
    assert_eq!(TagColumn::Value.width(&tr), 20);
}

use rusticity::cfn::{format_status, Column, DetailTab, State, StatusColor, StatusFilter};
use rusticity::common::{SortDirection, Translations};

#[test]
fn test_state_default() {
    let state = State::default();
    assert_eq!(state.table.items.len(), 0);
    assert_eq!(state.table.selected, 0);
    assert!(!state.table.loading);
    assert_eq!(state.table.filter, "");
    assert_eq!(state.status_filter, StatusFilter::All);
    assert!(!state.view_nested);
    assert_eq!(state.table.expanded_item, None);
    assert_eq!(state.current_stack, None);
    assert_eq!(state.detail_tab, DetailTab::StackInfo);
    assert_eq!(state.overview_scroll, 0);
    assert_eq!(state.sort_column, Column::CreatedTime);
    assert_eq!(state.sort_direction, SortDirection::Desc);
}

#[test]
fn test_status_filter_names() {
    assert_eq!(StatusFilter::Active.name(), "Active");
    assert_eq!(StatusFilter::Complete.name(), "Complete");
    assert_eq!(StatusFilter::Failed.name(), "Failed");
    assert_eq!(StatusFilter::Deleted.name(), "Deleted");
    assert_eq!(StatusFilter::InProgress.name(), "In progress");
}

#[test]
fn test_status_filter_next() {
    assert_eq!(StatusFilter::All.next(), StatusFilter::Active);
    assert_eq!(StatusFilter::Active.next(), StatusFilter::Complete);
    assert_eq!(StatusFilter::Complete.next(), StatusFilter::Failed);
    assert_eq!(StatusFilter::Failed.next(), StatusFilter::Deleted);
    assert_eq!(StatusFilter::Deleted.next(), StatusFilter::InProgress);
    assert_eq!(StatusFilter::InProgress.next(), StatusFilter::All);
}

#[test]
fn test_status_filter_matches_active() {
    let filter = StatusFilter::Active;
    assert!(filter.matches("CREATE_IN_PROGRESS"));
    assert!(filter.matches("UPDATE_IN_PROGRESS"));
    assert!(!filter.matches("CREATE_COMPLETE"));
    assert!(!filter.matches("DELETE_COMPLETE"));
    assert!(!filter.matches("CREATE_FAILED"));
}

#[test]
fn test_status_filter_matches_complete() {
    let filter = StatusFilter::Complete;
    assert!(filter.matches("CREATE_COMPLETE"));
    assert!(filter.matches("UPDATE_COMPLETE"));
    assert!(!filter.matches("DELETE_COMPLETE"));
    assert!(!filter.matches("CREATE_FAILED"));
    assert!(!filter.matches("CREATE_IN_PROGRESS"));
}

#[test]
fn test_status_filter_matches_failed() {
    let filter = StatusFilter::Failed;
    assert!(filter.matches("CREATE_FAILED"));
    assert!(filter.matches("UPDATE_FAILED"));
    assert!(filter.matches("ROLLBACK_FAILED"));
    assert!(!filter.matches("CREATE_COMPLETE"));
    assert!(!filter.matches("DELETE_COMPLETE"));
}

#[test]
fn test_status_filter_matches_deleted() {
    let filter = StatusFilter::Deleted;
    assert!(filter.matches("DELETE_COMPLETE"));
    assert!(filter.matches("DELETE_IN_PROGRESS"));
    assert!(filter.matches("DELETE_FAILED"));
    assert!(!filter.matches("CREATE_COMPLETE"));
    assert!(!filter.matches("UPDATE_FAILED"));
}

#[test]
fn test_status_filter_matches_in_progress() {
    let filter = StatusFilter::InProgress;
    assert!(filter.matches("CREATE_IN_PROGRESS"));
    assert!(filter.matches("UPDATE_IN_PROGRESS"));
    assert!(filter.matches("DELETE_IN_PROGRESS"));
    assert!(!filter.matches("CREATE_COMPLETE"));
    assert!(!filter.matches("CREATE_FAILED"));
}

#[test]
fn test_detail_tab_names() {
    assert_eq!(DetailTab::StackInfo.name(), "Stack info");
    assert_eq!(DetailTab::Events.name(), "Events");
    assert_eq!(DetailTab::Resources.name(), "Resources");
    assert_eq!(DetailTab::Outputs.name(), "Outputs");
    assert_eq!(DetailTab::Parameters.name(), "Parameters");
    assert_eq!(DetailTab::Template.name(), "Template");
    assert_eq!(DetailTab::ChangeSets.name(), "Change sets");
    assert_eq!(DetailTab::GitSync.name(), "Git sync");
}

#[test]
fn test_detail_tab_next() {
    assert_eq!(DetailTab::StackInfo.next(), DetailTab::Events);
}

#[test]
fn cfn_test_column_names() {
    assert_eq!(Column::Name.name(&Translations::empty()), "Stack Name");
    assert_eq!(Column::StackId.name(&Translations::empty()), "Stack ID");
    assert_eq!(Column::Status.name(&Translations::empty()), "Status");
    assert_eq!(Column::CreatedTime.name(&Translations::empty()), "Created Time");
    assert_eq!(Column::UpdatedTime.name(&Translations::empty()), "Updated Time");
    assert_eq!(Column::DeletedTime.name(&Translations::empty()), "Deleted Time");
    assert_eq!(Column::DriftStatus.name(&Translations::empty()), "Drift Status");
    assert_eq!(Column::LastDriftCheckTime.name(&Translations::empty()), "Last Drift Check Time");
    assert_eq!(Column::StatusReason.name(&Translations::empty()), "Status Reason");
    assert_eq!(Column::Description.name(&Translations::empty()), "Description");
}

#[test]
fn cfn_test_column_all() {
    let columns = Column::ids();
    assert_eq!(columns.len(), 10);
    assert_eq!(columns[0], Column::Name.id());
    assert_eq!(columns[9], Column::Description.id());
}

#[test]
fn test_format_status_complete_green() {
    let (formatted, color) = format_status("UPDATE_COMPLETE");
    assert_eq!(formatted, "✅ UPDATE_COMPLETE");
    assert_eq!(color, StatusColor::Green);

    let (formatted, color) = format_status("CREATE_COMPLETE");
    assert_eq!(formatted, "✅ CREATE_COMPLETE");
    assert_eq!(color, StatusColor::Green);

    let (formatted, color) = format_status("DELETE_COMPLETE");
    assert_eq!(formatted, "✅ DELETE_COMPLETE");
    assert_eq!(color, StatusColor::Green);
}

#[test]
fn test_format_status_failed_red() {
    let (formatted, color) = format_status("UPDATE_FAILED");
    assert_eq!(formatted, "❌ UPDATE_FAILED");
    assert_eq!(color, StatusColor::Red);

    let (formatted, color) = format_status("CREATE_FAILED");
    assert_eq!(formatted, "❌ CREATE_FAILED");
    assert_eq!(color, StatusColor::Red);

    let (formatted, color) = format_status("DELETE_FAILED");
    assert_eq!(formatted, "❌ DELETE_FAILED");
    assert_eq!(color, StatusColor::Red);

    let (formatted, color) = format_status("ROLLBACK_FAILED");
    assert_eq!(formatted, "❌ ROLLBACK_FAILED");
    assert_eq!(color, StatusColor::Red);
}

#[test]
fn test_format_status_rollback_red() {
    let (formatted, color) = format_status("ROLLBACK_COMPLETE");
    assert_eq!(formatted, "❌ ROLLBACK_COMPLETE");
    assert_eq!(color, StatusColor::Red);

    let (formatted, color) = format_status("UPDATE_ROLLBACK_COMPLETE");
    assert_eq!(formatted, "❌ UPDATE_ROLLBACK_COMPLETE");
    assert_eq!(color, StatusColor::Red);

    let (formatted, color) = format_status("UPDATE_ROLLBACK_COMPLETE_CLEANUP_IN_PROGRESS");
    assert_eq!(formatted, "❌ UPDATE_ROLLBACK_COMPLETE_CLEANUP_IN_PROGRESS");
    assert_eq!(color, StatusColor::Red);
}

#[test]
fn test_format_status_in_progress_blue() {
    let (formatted, color) = format_status("UPDATE_IN_PROGRESS");
    assert_eq!(formatted, "ℹ️  UPDATE_IN_PROGRESS");
    assert_eq!(color, StatusColor::Blue);

    let (formatted, color) = format_status("CREATE_IN_PROGRESS");
    assert_eq!(formatted, "ℹ️  CREATE_IN_PROGRESS");
    assert_eq!(color, StatusColor::Blue);

    let (formatted, color) = format_status("DELETE_IN_PROGRESS");
    assert_eq!(formatted, "ℹ️  DELETE_IN_PROGRESS");
    assert_eq!(color, StatusColor::Blue);

    let (formatted, color) = format_status("UPDATE_COMPLETE_CLEANUP_IN_PROGRESS");
    assert_eq!(formatted, "ℹ️  UPDATE_COMPLETE_CLEANUP_IN_PROGRESS");
    assert_eq!(color, StatusColor::Blue);

    let (formatted, color) = format_status("ROLLBACK_IN_PROGRESS");
    assert_eq!(formatted, "ℹ️  ROLLBACK_IN_PROGRESS");
    assert_eq!(color, StatusColor::Blue);

    let (formatted, color) = format_status("UPDATE_ROLLBACK_IN_PROGRESS");
    assert_eq!(formatted, "ℹ️  UPDATE_ROLLBACK_IN_PROGRESS");
    assert_eq!(color, StatusColor::Blue);
}

#[test]
fn test_format_status_unknown() {
    let (formatted, color) = format_status("UNKNOWN_STATUS");
    assert_eq!(formatted, "UNKNOWN_STATUS");
    assert_eq!(color, StatusColor::White);
}

#[test]
fn test_format_status_emoji_spacing() {
    // Verify emojis have proper spacing to avoid overlay
    let (formatted, _) = format_status("CREATE_IN_PROGRESS");
    assert!(formatted.starts_with("ℹ️ ")); // One space after info emoji

    let (formatted, _) = format_status("CREATE_COMPLETE");
    assert!(formatted.starts_with("✅ ")); // One space after checkmark

    let (formatted, _) = format_status("CREATE_FAILED");
    assert!(formatted.starts_with("❌ ")); // One space after cross
}

#[test]
fn test_all_aws_statuses_covered() {
    // Test all documented CloudFormation stack statuses
    let statuses = vec![
        "CREATE_IN_PROGRESS",
        "CREATE_FAILED",
        "CREATE_COMPLETE",
        "ROLLBACK_IN_PROGRESS",
        "ROLLBACK_FAILED",
        "ROLLBACK_COMPLETE",
        "DELETE_IN_PROGRESS",
        "DELETE_FAILED",
        "DELETE_COMPLETE",
        "UPDATE_IN_PROGRESS",
        "UPDATE_COMPLETE_CLEANUP_IN_PROGRESS",
        "UPDATE_COMPLETE",
        "UPDATE_FAILED",
        "UPDATE_ROLLBACK_IN_PROGRESS",
        "UPDATE_ROLLBACK_FAILED",
        "UPDATE_ROLLBACK_COMPLETE_CLEANUP_IN_PROGRESS",
        "UPDATE_ROLLBACK_COMPLETE",
        "REVIEW_IN_PROGRESS",
        "IMPORT_IN_PROGRESS",
        "IMPORT_COMPLETE",
        "IMPORT_ROLLBACK_IN_PROGRESS",
        "IMPORT_ROLLBACK_FAILED",
        "IMPORT_ROLLBACK_COMPLETE",
    ];

    for status in statuses {
        let (formatted, _) = format_status(status);
        // Ensure all statuses get formatted (no panics) and contain some text
        assert!(!formatted.is_empty());
        assert!(formatted.len() > 2); // More than just emoji
    }
}

#[test]
fn cfn_test_column_ids_have_correct_prefix() {
    for col in Column::all() {
        assert!(
            col.id().starts_with("column.cfn.stack."),
            "Column ID '{}' should start with 'column.cfn.stack.'",
            col.id()
        );
    }
}

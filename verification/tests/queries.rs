use unbroken_qa_capture::export::missing_session_folder_message;
use unbroken_qa_capture::models::{BugStatus, BugType, BugUpdate, CaptureType};
use unbroken_qa_capture::queries::bug_partial_update;
use unbroken_qa_capture::session::new_capture_record;

fn empty_update() -> BugUpdate {
    BugUpdate {
        bug_type: None,
        title: None,
        notes: None,
        description: None,
        ai_description: None,
        status: None,
        meeting_id: None,
        software_version: None,
        custom_metadata: None,
    }
}

#[test]
fn partial_update_with_no_fields_only_touches_updated_at() {
    let (query, values) = bug_partial_update("bug-1", &empty_update());
    assert_eq!(query, "UPDATE bugs SET updated_at = datetime('now') WHERE id = ?");
    assert_eq!(values, vec!["bug-1".to_string()]);
}

#[test]
fn partial_update_sets_given_fields_in_column_order() {
    let mut update = empty_update();
    update.status = Some(BugStatus::Reviewed);
    update.title = Some("Broken button".to_string());
    update.bug_type = Some(BugType::Feature);
    update.custom_metadata = Some("{\"a\":1}".to_string());
    let (query, values) = bug_partial_update("bug-7", &update);
    assert_eq!(
        query,
        "UPDATE bugs SET updated_at = datetime('now'), type = ?, title = ?, status = ?, custom_metadata = ? WHERE id = ?"
    );
    assert_eq!(
        values,
        vec![
            "feature".to_string(),
            "Broken button".to_string(),
            "reviewed".to_string(),
            "{\"a\":1}".to_string(),
            "bug-7".to_string()
        ]
    );
}

#[test]
fn capture_record_is_unannotated_and_not_console() {
    let capture = new_capture_record(
        "cap-1".to_string(),
        None,
        "sess-1".to_string(),
        "capture-001.png".to_string(),
        "/s/_unsorted/capture-001.png".to_string(),
        CaptureType::Screenshot,
        2048,
        "2024-01-01T00:00:00Z".to_string(),
    );
    assert_eq!(capture.id, "cap-1");
    assert_eq!(capture.bug_id, None);
    assert_eq!(capture.file_size_bytes, Some(2048));
    assert_eq!(capture.annotated_path, None);
    assert!(!capture.is_console_capture);
    assert_eq!(capture.parsed_content, None);
    assert_eq!(capture.file_type, CaptureType::Screenshot);
}

#[test]
fn missing_session_folder_message_names_the_folder() {
    assert_eq!(
        missing_session_folder_message("/tmp/nope"),
        "Session folder does not exist: /tmp/nope"
    );
}

use std::sync::Arc;
use unbroken_qa_capture::claude_cli::{
    ClaudeError, ClaudeInvoker, ClaudeRequest, ClaudeResponse, PromptTask,
};
use unbroken_qa_capture::models::{BugStatus, BugType, Session, SessionStatus};
use unbroken_qa_capture::session::new_bug_record;
use unbroken_qa_capture::summary::{overview_request, summary_content, SessionSummaryGenerator};

struct Echo {
    ok: bool,
}

impl ClaudeInvoker for Echo {
    fn invoke(&self, request: ClaudeRequest) -> Result<ClaudeResponse, ClaudeError> {
        if self.ok {
            Ok(ClaudeResponse { content: "Overview text".to_string(), task: request.task, bug_id: None })
        } else {
            Err(ClaudeError::ApiError("down".to_string()))
        }
    }
}

fn session(ended: Option<&str>) -> Session {
    Session {
        id: "s1".to_string(),
        started_at: "2024-01-01T10:00:00Z".to_string(),
        ended_at: ended.map(|e| e.to_string()),
        status: SessionStatus::Ended,
        folder_path: "/tmp/s1".to_string(),
        session_notes: Some("   ".to_string()),
        environment_json: None,
        original_snip_path: None,
        created_at: "2024-01-01T10:00:00Z".to_string(),
        profile_id: None,
    }
}

#[test]
fn test_duration_calculation() {
    let content = summary_content(&session(Some("2024-01-01T12:30:00Z")), &[], None);
    assert!(content.contains("- **Duration:** 2h 30m\n"));
    assert!(content.contains("- **Started:** 2024-01-01 10:00:00 UTC\n"));
    assert!(content.contains("- **Ended:** 2024-01-01 12:30:00 UTC\n"));
    let backwards = summary_content(&session(Some("2024-01-01T08:59:00Z")), &[], None);
    assert!(backwards.contains("- **Duration:** -1h -1m\n"));
}

#[test]
fn test_generate_summary_no_bugs() {
    let content = summary_content(&session(None), &[], None);
    assert_eq!(
        content,
        "# QA Session Summary\n\n## Session Information\n\n- **Session ID:** s1\n- **Started:** 2024-01-01 10:00:00 UTC\n- **Ended:** In Progress\n- **Bug Count:** 0\n- **Status:** ended\n\n## Bugs Captured\n\nNo bugs captured in this session.\n"
    );
}

#[test]
fn unparsable_dates_are_shown_as_stored() {
    let mut s = session(Some("later"));
    s.started_at = "earlier".to_string();
    let content = summary_content(&s, &[], None);
    assert!(content.contains("- **Started:** earlier\n- **Ended:** later\n- **Bug Count:** 0"));
}

#[test]
fn test_generate_summary_with_ai() {
    let mut b = new_bug_record("b1".to_string(), "s1".to_string(), 1, "/f".to_string(), "now".to_string());
    b.title = Some("Crash".to_string());
    b.notes = Some("note".to_string());
    b.software_version = Some("1.0".to_string());
    b.status = BugStatus::Captured;
    b.bug_type = BugType::Feedback;
    let bugs = vec![b];
    let generator = SessionSummaryGenerator::with_deps("db".into(), Some(Arc::new(Echo { ok: true })));
    let content = generator.build_summary_content(&session(None), &bugs, true).unwrap();
    assert!(content.contains("## Overview\n\nOverview text\n\n## Bugs Captured\n\n### BUG-001 - Crash\n\n- **Type:** feedback\n- **Status:** captured\n- **Software Version:** 1.0\n\n**Notes:**\nnote\n\n"));
    let failing = SessionSummaryGenerator::with_deps("db".into(), Some(Arc::new(Echo { ok: false })));
    let content = failing.build_summary_content(&session(None), &bugs, true).unwrap();
    assert!(!content.contains("## Overview"));
    assert_eq!(
        failing.generate_ai_overview(&bugs).unwrap_err(),
        "Failed to generate AI summary: Assistant API error: down"
    );
    let unconfigured: SessionSummaryGenerator<Echo> = SessionSummaryGenerator::new("db".into());
    assert_eq!(unconfigured.generate_ai_overview(&bugs).unwrap_err(), "Assistant CLI not configured");
}

#[test]
fn overview_request_lists_bugs() {
    let mut b = new_bug_record("b1".to_string(), "s1".to_string(), 2, "/f".to_string(), "now".to_string());
    b.description = Some("desc".to_string());
    b.notes = Some("notes".to_string());
    let request = overview_request(&[b]);
    assert_eq!(request.task, PromptTask::Custom);
    assert_eq!(request.timeout_secs, 120);
    assert!(request.prompt.contains("**BUG-002**: \ndesc\n\n\nProvide a high-level summary"));
}

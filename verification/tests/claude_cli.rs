use std::path::PathBuf;
use std::sync::Arc;
use unbroken_qa_capture::claude_cli::status::{credentials_from_file, CredentialsFile};
use unbroken_qa_capture::claude_cli::subprocess::{
    enqueue_request, media_type_for_extension, queue_admission, take_pending, Admission,
    QueueState, RealClaudeInvoker, QUEUED_MESSAGE,
};
use unbroken_qa_capture::claude_cli::{
    check_api_configured, get_claude_status, refresh_claude_status, BugContext, ClaudeCredentials,
    ClaudeError, ClaudeInvoker, ClaudeRequest, ClaudeResponse, ClaudeStatus, PromptBuilder,
    PromptTask, QueuedClaudeInvoker,
};

/// Mock invoker for testing
pub struct MockClaudeInvoker {
    pub should_succeed: bool,
    pub response_content: String,
    pub delay_ms: u64,
}

impl ClaudeInvoker for MockClaudeInvoker {
    fn invoke(&self, request: ClaudeRequest) -> Result<ClaudeResponse, ClaudeError> {
        // Delays are not simulated here; every mock answers at once.
        let _ = self.delay_ms;
        if self.should_succeed {
            Ok(ClaudeResponse {
                content: self.response_content.clone(),
                task: request.task,
                bug_id: request.bug_id,
            })
        } else {
            Err(ClaudeError::InvocationFailed("Mock failure".to_string()))
        }
    }
}

fn context_with_notes(notes: Option<&str>) -> BugContext {
    BugContext {
        bug_id: "BUG-001".to_string(),
        notes: notes.map(|n| n.to_string()),
        screenshot_paths: vec![],
        app_name: None,
        app_version: None,
        meeting_id: None,
        environment: None,
        bug_type: None,
    }
}

#[test]
fn test_claude_status_is_ready() {
    let ready = ClaudeStatus::Ready { version: "Desktop assistant".to_string() };
    assert!(ready.is_ready());
    let not_auth = ClaudeStatus::NotAuthenticated {
        version: "Desktop assistant".to_string(),
        message: "test".to_string(),
    };
    assert!(!not_auth.is_ready());
    let not_installed = ClaudeStatus::NotInstalled { message: "test".to_string() };
    assert!(!not_installed.is_ready());
}

#[test]
fn test_claude_error_display() {
    let not_found = ClaudeError::NotFound("test".to_string());
    assert!(not_found.to_string().contains("not found"));
    let timeout = ClaudeError::Timeout { seconds: 30, task: "test task".to_string() };
    assert!(timeout.to_string().contains("30s"));
    let api_error = ClaudeError::ApiError("rate limit".to_string());
    assert!(api_error.to_string().contains("API error"));
}

#[test]
fn test_claude_request_builder() {
    let request = ClaudeRequest::new_text("test prompt".to_string(), PromptTask::DescribeBug)
        .with_bug_id("BUG-001".to_string())
        .with_timeout(45);
    assert_eq!(request.prompt, "test prompt");
    assert_eq!(request.bug_id, Some("BUG-001".to_string()));
    assert_eq!(request.timeout_secs, 45);
    assert_eq!(request.task, PromptTask::DescribeBug);
}

#[test]
fn test_claude_request_with_images() {
    let images = vec![PathBuf::from("/path/img1.png"), PathBuf::from("/path/img2.png")];
    let request = ClaudeRequest::new_with_images(
        "analyze these".to_string(),
        images.clone(),
        PromptTask::ParseConsole,
    );
    assert_eq!(request.image_paths.len(), 2);
    assert_eq!(request.timeout_secs, 30);
    assert_eq!(request.task, PromptTask::ParseConsole);
}

#[test]
fn test_prompt_builder_bug_description_minimal() {
    let context = context_with_notes(None);
    let prompt = PromptBuilder::build_bug_description_prompt(&context);
    assert!(prompt.contains("QA analyst"));
    assert!(prompt.contains("## Summary"));
    assert!(prompt.contains("## Steps to Reproduce"));
    assert!(prompt.contains("## Expected Behavior"));
    assert!(prompt.contains("## Actual Behavior"));
}

#[test]
fn test_prompt_builder_bug_description_full() {
    let context = BugContext {
        bug_id: "BUG-002".to_string(),
        notes: Some("Button not working".to_string()),
        screenshot_paths: vec![PathBuf::from("/img1.png"), PathBuf::from("/img2.png")],
        app_name: Some("MyApp".to_string()),
        app_version: Some("2.0.0".to_string()),
        meeting_id: Some("SESSION-123".to_string()),
        environment: Some("Windows 11".to_string()),
        bug_type: Some("bug".to_string()),
    };
    let prompt = PromptBuilder::build_bug_description_prompt(&context);
    assert!(prompt.contains("Application: MyApp"));
    assert!(prompt.contains("Version: 2.0.0"));
    assert!(prompt.contains("Environment: Windows 11"));
    assert!(prompt.contains("Session/Meeting ID: SESSION-123"));
    assert!(prompt.contains("Button not working"));
    assert!(prompt.contains("2 screenshot(s)"));
}

#[test]
fn test_prompt_builder_console_parse() {
    let prompt = PromptBuilder::build_console_parse_prompt();
    assert!(prompt.contains("console/terminal"));
    assert!(prompt.contains("errors"));
    assert!(prompt.contains("warnings"));
    assert!(prompt.contains("JSON"));
}

#[test]
fn test_prompt_builder_refinement() {
    let current = "Original description";
    let instructions = "Make it more detailed";
    let prompt = PromptBuilder::build_refinement_prompt(current, instructions);
    assert!(prompt.contains("Current Description"));
    assert!(prompt.contains("Original description"));
    assert!(prompt.contains("Refinement Request"));
    assert!(prompt.contains("Make it more detailed"));
}

#[test]
fn tests_test_mock_invoker_success() {
    let invoker = MockClaudeInvoker {
        should_succeed: true,
        response_content: "Generated description".to_string(),
        delay_ms: 0,
    };
    let request = ClaudeRequest::new_text("test".to_string(), PromptTask::DescribeBug);
    let result = invoker.invoke(request);
    assert!(result.is_ok());
    let response = result.unwrap();
    assert_eq!(response.content, "Generated description");
    assert_eq!(response.task, PromptTask::DescribeBug);
}

#[test]
fn tests_test_mock_invoker_failure() {
    let invoker = MockClaudeInvoker {
        should_succeed: false,
        response_content: "".to_string(),
        delay_ms: 0,
    };
    let request = ClaudeRequest::new_text("test".to_string(), PromptTask::DescribeBug);
    let result = invoker.invoke(request);
    assert!(result.is_err());
    match result.unwrap_err() {
        ClaudeError::InvocationFailed(msg) => {
            assert!(msg.contains("Mock failure"));
        }
        _ => panic!("Expected InvocationFailed error"),
    }
}

#[test]
fn test_mock_invoker_success() {
    let invoker = MockClaudeInvoker {
        should_succeed: true,
        response_content: "Test response".to_string(),
        delay_ms: 0,
    };
    let request = ClaudeRequest::new_text("test prompt".to_string(), PromptTask::DescribeBug);
    let result = invoker.invoke(request);
    assert!(result.is_ok());
    assert_eq!(result.unwrap().content, "Test response");
}

#[test]
fn test_mock_invoker_failure() {
    let invoker = MockClaudeInvoker {
        should_succeed: false,
        response_content: "".to_string(),
        delay_ms: 0,
    };
    let request = ClaudeRequest::new_text("test prompt".to_string(), PromptTask::DescribeBug);
    assert!(invoker.invoke(request).is_err());
}

#[test]
fn test_queued_invoker_direct_execution() {
    let mock = Arc::new(MockClaudeInvoker {
        should_succeed: true,
        response_content: "Success".to_string(),
        delay_ms: 0,
    });
    let queued = QueuedClaudeInvoker::new(mock);
    let request = ClaudeRequest::new_text("test".to_string(), PromptTask::DescribeBug);
    let result = queued.invoke(request);
    assert!(result.is_ok());
}

#[test]
fn test_queued_invoker_direct_when_idle() {
    let mock = Arc::new(MockClaudeInvoker {
        should_succeed: true,
        response_content: "Direct response".to_string(),
        delay_ms: 0,
    });
    let queued = QueuedClaudeInvoker::new(mock);
    let request = ClaudeRequest::new_text("test".to_string(), PromptTask::DescribeBug);
    assert!(queued.invoke(request).is_ok());
}

#[test]
fn test_build_prompt_for_all_tasks() {
    let context = context_with_notes(Some("Current description"));
    let prompt = PromptBuilder::build_prompt(&PromptTask::DescribeBug, Some(&context), None);
    assert!(prompt.contains("QA analyst"));
    let prompt = PromptBuilder::build_prompt(&PromptTask::ParseConsole, None, None);
    assert!(prompt.contains("console"));
    let prompt = PromptBuilder::build_prompt(
        &PromptTask::RefineDescription,
        Some(&context),
        Some("make it better"),
    );
    assert!(prompt.contains("Current Description"));
    let prompt =
        PromptBuilder::build_prompt(&PromptTask::Custom, None, Some("custom prompt text"));
    assert_eq!(prompt, "custom prompt text");
}

#[test]
fn test_check_api_configured_returns_status() {
    // Without a credentials file the status is NotInstalled; with credentials, Ready.
    let status = check_api_configured(credentials_from_file(None));
    match status {
        ClaudeStatus::Ready { version } => {
            assert_eq!(version, "Desktop assistant");
        }
        ClaudeStatus::NotInstalled { message } => {
            assert!(!message.is_empty());
        }
        ClaudeStatus::NotAuthenticated { .. } => {}
    }
}

#[test]
fn test_claude_error_not_found_vs_not_authenticated() {
    let not_found = ClaudeError::NotFound("Desktop assistant not installed".to_string());
    let not_authenticated = ClaudeError::NotAuthenticated("Token expired".to_string());
    let not_found_msg = not_found.to_string();
    let not_authenticated_msg = not_authenticated.to_string();
    assert_ne!(not_found_msg, not_authenticated_msg);
    assert!(not_found_msg.contains("not found"), "got: {not_found_msg}");
    assert!(not_authenticated_msg.contains("not authenticated"), "got: {not_authenticated_msg}");
    assert!(!not_found_msg.contains("not authenticated"));
    assert!(!not_authenticated_msg.contains("not found"));
}

#[test]
fn test_check_api_configured_maps_not_found_to_not_installed() {
    let status_from_not_found =
        check_api_configured(Err(ClaudeError::NotFound("no credentials file".to_string())));
    let status_from_not_authenticated =
        check_api_configured(Err(ClaudeError::NotAuthenticated("token missing".to_string())));
    assert!(!status_from_not_found.is_ready());
    match status_from_not_found {
        ClaudeStatus::NotInstalled { .. } => {}
        other => panic!("NotFound error should map to NotInstalled, got: {other:?}"),
    }
    assert!(!status_from_not_authenticated.is_ready());
    match status_from_not_authenticated {
        ClaudeStatus::NotAuthenticated { message, .. } => {
            assert_eq!(message, "token missing");
        }
        other => panic!("NotAuthenticated should map to NotAuthenticated, got: {other:?}"),
    }
}

// ── further cases ───────────────────────────────────────────────────────

#[test]
fn error_messages_exact() {
    assert_eq!(
        ClaudeError::Timeout { seconds: 120, task: "Custom".to_string() }.to_string(),
        "Assistant invocation timed out after 120s for task: Custom"
    );
    assert_eq!(ClaudeError::QueueFull("q".to_string()).to_string(), "Assistant request queue full: q");
    assert_eq!(ClaudeError::ParseError("p".to_string()).to_string(), "Failed to parse assistant response: p");
    assert_eq!(ClaudeError::InvocationFailed("i".to_string()).to_string(), "Assistant invocation failed: i");
}

#[test]
fn request_timeout_error_names_task() {
    let request = ClaudeRequest::new_text("p".to_string(), PromptTask::RefineDescription).with_timeout(7);
    match request.timeout_error() {
        ClaudeError::Timeout { seconds, task } => {
            assert_eq!(seconds, 7);
            assert_eq!(task, "RefineDescription");
        }
        other => panic!("unexpected {other:?}"),
    }
    let response = request.respond("done".to_string());
    assert_eq!(response.content, "done");
    assert_eq!(response.task, PromptTask::RefineDescription);
    assert_eq!(response.bug_id, None);
}

#[test]
fn credentials_are_picked_in_order() {
    let file = CredentialsFile {
        oauth_access_token: Some(String::new()),
        oauth_entry_tokens: vec![None, Some("entry-token".to_string())],
        access_token: Some("top".to_string()),
    };
    assert_eq!(credentials_from_file(Some(file)).unwrap().access_token, "entry-token");
    let file = CredentialsFile {
        oauth_access_token: None,
        oauth_entry_tokens: vec![],
        access_token: Some("top".to_string()),
    };
    assert_eq!(credentials_from_file(Some(file)).unwrap().access_token, "top");
    let file = CredentialsFile {
        oauth_access_token: Some("flat".to_string()),
        oauth_entry_tokens: vec![Some("entry".to_string())],
        access_token: Some("top".to_string()),
    };
    assert_eq!(credentials_from_file(Some(file)).unwrap().access_token, "flat");
    let empty = CredentialsFile {
        oauth_access_token: None,
        oauth_entry_tokens: vec![Some(String::new())],
        access_token: None,
    };
    assert!(matches!(credentials_from_file(Some(empty)), Err(ClaudeError::NotAuthenticated(_))));
    assert!(matches!(credentials_from_file(None), Err(ClaudeError::NotFound(_))));
}

#[test]
fn status_cache_calls_loader_once() {
    let mut cache: Option<ClaudeStatus> = None;
    let mut calls = 0;
    let first = get_claude_status(&mut cache, || {
        calls += 1;
        Ok(ClaudeCredentials { access_token: "t".to_string() })
    });
    assert!(first.is_ready());
    let second = get_claude_status(&mut cache, || {
        calls += 1;
        Err(ClaudeError::NotFound("x".to_string()))
    });
    assert!(second.is_ready());
    assert_eq!(calls, 1);
    let refreshed = refresh_claude_status(&mut cache, || Err(ClaudeError::NotFound("x".to_string())));
    assert!(!refreshed.is_ready());
    assert!(matches!(cache, Some(ClaudeStatus::NotInstalled { .. })));
}

#[test]
fn media_types_by_extension() {
    assert_eq!(media_type_for_extension(Some("JPG")), "image/jpeg");
    assert_eq!(media_type_for_extension(Some("jpeg")), "image/jpeg");
    assert_eq!(media_type_for_extension(Some("Gif")), "image/gif");
    assert_eq!(media_type_for_extension(Some("webp")), "image/webp");
    assert_eq!(media_type_for_extension(Some("bmp")), "image/png");
    assert_eq!(media_type_for_extension(None), "image/png");
}

#[test]
fn http_status_mapping() {
    assert!(RealClaudeInvoker::http_status_error(200, "200 OK", "").is_none());
    assert!(matches!(
        RealClaudeInvoker::http_status_error(401, "401 Unauthorized", "x"),
        Some(ClaudeError::NotAuthenticated(_))
    ));
    match RealClaudeInvoker::http_status_error(429, "429 Too Many Requests", "x") {
        Some(ClaudeError::ApiError(m)) => assert_eq!(m, "Rate limit exceeded. Please wait and try again."),
        other => panic!("unexpected {other:?}"),
    }
    match RealClaudeInvoker::http_status_error(500, "500 Internal Server Error", "boom") {
        Some(ClaudeError::ApiError(m)) => assert_eq!(m, "HTTP 500 Internal Server Error: boom"),
        other => panic!("unexpected {other:?}"),
    }
    let invoker = RealClaudeInvoker::new(ClaudeCredentials { access_token: "abc".to_string() });
    assert_eq!(invoker.authorization(), "Bearer abc");
}

#[test]
fn queue_refuses_when_full() {
    assert!(queue_admission(0, 10).is_ok());
    match queue_admission(10, 10) {
        Err(ClaudeError::QueueFull(m)) => assert_eq!(m, "Request queue is full (10 items)"),
        other => panic!("unexpected {other:?}"),
    }
    let mock = Arc::new(MockClaudeInvoker {
        should_succeed: true,
        response_content: "x".to_string(),
        delay_ms: 0,
    });
    let queued = QueuedClaudeInvoker::new(mock).with_max_queue_size(0);
    let result = queued.invoke(ClaudeRequest::new_text("t".to_string(), PromptTask::Custom));
    assert!(matches!(result, Err(ClaudeError::QueueFull(_))));
}

#[test]
fn queue_runs_when_idle_and_queues_while_busy() {
    let mut state = QueueState { pending: vec![], running: false };
    let first = ClaudeRequest::new_text("first".to_string(), PromptTask::Custom);
    match enqueue_request(&mut state, first, 2) {
        Admission::RunNow(req) => assert_eq!(req.prompt, "first"),
        _ => panic!("an idle queue answers at once"),
    }
    assert!(state.running);
    for prompt in ["second", "third"] {
        let req = ClaudeRequest::new_text(prompt.to_string(), PromptTask::Custom);
        assert!(matches!(enqueue_request(&mut state, req, 2), Admission::Queued));
    }
    assert_eq!(state.pending.len(), 2);
    let fourth = ClaudeRequest::new_text("fourth".to_string(), PromptTask::Custom);
    match enqueue_request(&mut state, fourth, 2) {
        Admission::Refused(ClaudeError::QueueFull(m)) => {
            assert_eq!(m, "Request queue is full (2 items)")
        }
        _ => panic!("a full queue refuses"),
    }
    let batch = take_pending(&mut state);
    let prompts: Vec<&str> = batch.iter().map(|r| r.prompt.as_str()).collect();
    assert_eq!(prompts, vec!["second", "third"]);
    assert!(state.running);
    assert!(state.pending.is_empty());
    assert!(take_pending(&mut state).is_empty());
    assert!(!state.running);
    assert_eq!(QUEUED_MESSAGE, "Request queued - async processing not yet implemented");
}

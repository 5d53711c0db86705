use unbroken_qa_capture::claude_cli::status::{credentials_file_from_json, credentials_from_json};
use unbroken_qa_capture::claude_cli::subprocess::messages_response;
use unbroken_qa_capture::claude_cli::{ClaudeError, ClaudeInvoker, ClaudeRequest, ClaudeResponse, PromptTask, QueuedClaudeInvoker};
use unbroken_qa_capture::json::escape_pointer_token;
use unbroken_qa_capture::models::{Bug, BugType};
use unbroken_qa_capture::session::new_bug_record;
use unbroken_qa_capture::session_json::{bug_json, MetadataValue};
use unbroken_qa_capture::ticketing::replies::{
    auth_reply_has_errors, file_upload_reply, graphql_reply, issue_create_input, issue_create_reply,
};
use unbroken_qa_capture::ticketing::{CreateTicketRequest, TicketingError};
use std::sync::Arc;

fn request() -> ClaudeRequest {
    let mut r = ClaudeRequest::new_text("describe".to_string(), PromptTask::DescribeBug);
    r.bug_id = Some("bug-7".to_string());
    r
}

#[test]
fn messages_reply_text_is_the_first_block() {
    let body = r#"{"content":[{"type":"text","text":"hello"},{"type":"text","text":"ignored"}]}"#;
    let r = messages_response(&request(), 200, "200 OK", body).unwrap();
    assert_eq!(r.content, "hello");
    assert_eq!(r.task, PromptTask::DescribeBug);
    assert_eq!(r.bug_id.as_deref(), Some("bug-7"));
}

#[test]
fn messages_reply_not_json_is_a_parse_error() {
    match messages_response(&request(), 200, "200 OK", "not json") {
        Err(ClaudeError::ParseError(m)) => assert!(m.starts_with("Invalid JSON response: ")),
        other => panic!("unexpected {:?}", other),
    }
}

#[test]
fn messages_reply_without_content_quotes_its_start() {
    match messages_response(&request(), 200, "200 OK", r#"{"content":[]}"#) {
        Err(ClaudeError::ParseError(m)) => assert_eq!(m, r#"Unexpected response structure: {"content":[]}"#),
        other => panic!("unexpected {:?}", other),
    }
    let long = format!(r#"{{"id":"{}"}}"#, "x".repeat(300));
    match messages_response(&request(), 200, "200 OK", &long) {
        Err(ClaudeError::ParseError(m)) => {
            let quoted = m.strip_prefix("Unexpected response structure: ").unwrap();
            assert_eq!(quoted.chars().count(), 200);
            assert!(long.starts_with(quoted));
        }
        other => panic!("unexpected {:?}", other),
    }
}

#[test]
fn messages_reply_status_errors() {
    assert!(matches!(
        messages_response(&request(), 401, "401 Unauthorized", "{}"),
        Err(ClaudeError::NotAuthenticated(_))
    ));
    assert!(matches!(
        messages_response(&request(), 429, "429 Too Many Requests", "{}"),
        Err(ClaudeError::ApiError(m)) if m.starts_with("Rate limit")
    ));
    match messages_response(&request(), 500, "500 Internal Server Error", "boom") {
        Err(ClaudeError::ApiError(m)) => assert_eq!(m, "HTTP 500 Internal Server Error: boom"),
        other => panic!("unexpected {:?}", other),
    }
}

#[test]
fn graphql_reply_outcomes() {
    assert!(graphql_reply(200, "200 OK", r#"{"data":{}}"#, None).is_ok());
    match graphql_reply(500, "500 Internal Server Error", "down", None) {
        Err(TicketingError::NetworkError(m)) => assert_eq!(m, "HTTP 500 Internal Server Error: down"),
        other => panic!("unexpected {:?}", other),
    }
    match graphql_reply(200, "200 OK", "", Some("error decoding response body")) {
        Err(TicketingError::NetworkError(m)) => {
            assert_eq!(m, "Failed to parse response: error decoding response body")
        }
        other => panic!("unexpected {:?}", other),
    }
    match graphql_reply(200, "200 OK", "<html>", None) {
        Err(TicketingError::NetworkError(m)) => assert!(m.starts_with("Failed to parse response: ")),
        other => panic!("unexpected {:?}", other),
    }
    match graphql_reply(200, "200 OK", r#"{"errors":[{"message":"bad"}]}"#, None) {
        Err(TicketingError::CreationFailed(m)) => assert_eq!(m, r#"GraphQL errors: [{"message":"bad"}]"#),
        other => panic!("unexpected {:?}", other),
    }
}

#[test]
fn auth_reply_errors_are_reported() {
    assert_eq!(auth_reply_has_errors(r#"{"data":{"viewer":{"id":"u"}}}"#, None).unwrap(), false);
    assert_eq!(auth_reply_has_errors(r#"{"errors":[]}"#, None).unwrap(), true);
    assert!(matches!(auth_reply_has_errors("nope", None), Err(TicketingError::AuthenticationFailed(_))));
}

#[test]
fn issue_create_reply_extracts_the_issue() {
    let body = r#"{"data":{"issueCreate":{"success":true,"issue":{"id":"i1","identifier":"QA-12","url":"https://linear.app/x/QA-12"}}}}"#;
    let (id, identifier, url) = issue_create_reply(200, "200 OK", body, None).unwrap();
    assert_eq!(id, "i1");
    assert_eq!(identifier, "QA-12");
    assert_eq!(url, "https://linear.app/x/QA-12");
}

#[test]
fn issue_create_reply_names_what_is_missing() {
    let cases = [
        (r#"{"data":{"issueCreate":{"success":false}}}"#, "Failed to extract issue data from response"),
        (r#"{"data":{"issueCreate":{"issue":{"identifier":"QA-1","url":"u"}}}}"#, "Missing issue ID"),
        (r#"{"data":{"issueCreate":{"issue":{"id":"i","url":"u"}}}}"#, "Missing issue identifier"),
        (r#"{"data":{"issueCreate":{"issue":{"id":"i","identifier":"QA-1"}}}}"#, "Missing issue URL"),
    ];
    for (body, expected) in cases {
        match issue_create_reply(200, "200 OK", body, None) {
            Err(TicketingError::CreationFailed(m)) => assert_eq!(m, expected),
            other => panic!("unexpected {:?}", other),
        }
    }
}

#[test]
fn file_upload_reply_keeps_headers_with_keys() {
    let body = r#"{"data":{"fileUpload":{"uploadFile":{"uploadUrl":"https://up","assetUrl":"https://asset","headers":[{"key":"x-a","value":"1"},{"key":"","value":"2"},{"value":"3"},{"key":"x-b","value":"4"}]}}}}"#;
    let t = file_upload_reply(200, "200 OK", body, None).unwrap();
    assert_eq!(t.upload_url, "https://up");
    assert_eq!(t.asset_url, "https://asset");
    assert_eq!(
        t.headers,
        vec![("x-a".to_string(), "1".to_string()), ("x-b".to_string(), "4".to_string())]
    );
}

#[test]
fn file_upload_reply_errors() {
    match file_upload_reply(403, "403 Forbidden", "no", None) {
        Err(TicketingError::NetworkError(m)) => assert_eq!(m, "fileUpload mutation HTTP 403 Forbidden: no"),
        other => panic!("unexpected {:?}", other),
    }
    match file_upload_reply(200, "200 OK", r#"{"data":{"fileUpload":{}}}"#, None) {
        Err(TicketingError::NetworkError(m)) => assert_eq!(m, "fileUpload mutation returned no uploadFile"),
        other => panic!("unexpected {:?}", other),
    }
    match file_upload_reply(200, "200 OK", r#"{"data":{"fileUpload":{"uploadFile":{"assetUrl":"a"}}}}"#, None) {
        Err(TicketingError::NetworkError(m)) => assert_eq!(m, "fileUpload returned no uploadUrl"),
        other => panic!("unexpected {:?}", other),
    }
    match file_upload_reply(200, "200 OK", r#"{"data":{"fileUpload":{"uploadFile":{"uploadUrl":"u"}}}}"#, None) {
        Err(TicketingError::NetworkError(m)) => assert_eq!(m, "fileUpload returned no assetUrl"),
        other => panic!("unexpected {:?}", other),
    }
    match file_upload_reply(200, "200 OK", r#"{"errors":["x"]}"#, None) {
        Err(TicketingError::NetworkError(m)) => assert_eq!(m, r#"fileUpload GraphQL errors: ["x"]"#),
        other => panic!("unexpected {:?}", other),
    }
}

#[test]
fn issue_input_carries_the_request() {
    let req = CreateTicketRequest {
        title: "Crash".to_string(),
        description: "ignored here".to_string(),
        attachments: vec![],
        priority: Some("2".to_string()),
        labels: vec!["l1".to_string()],
        assignee_id: Some("me".to_string()),
        state_id: None,
    };
    let input = issue_create_input("team", &req, "the description");
    assert_eq!(input.team_id, "team");
    assert_eq!(input.title, "Crash");
    assert_eq!(input.description, "the description");
    assert_eq!(input.priority, Some(2));
    assert_eq!(input.label_ids, Some(vec!["l1".to_string()]));
    assert_eq!(input.assignee_id.as_deref(), Some("me"));
    assert_eq!(input.state_id, None);

    let bare = CreateTicketRequest { priority: Some("high".to_string()), labels: vec![], ..req };
    let input = issue_create_input("team", &bare, "d");
    assert_eq!(input.priority, Some(0));
    assert_eq!(input.label_ids, None);
}

#[test]
fn credentials_from_json_tries_each_place() {
    let flat = r#"{"claudeAiOauth":{"accessToken":"flat-token"},"accessToken":"top"}"#;
    assert_eq!(credentials_from_json(flat).unwrap().access_token, "flat-token");

    let keyed = r#"{"claudeAiOauth":{"https://a/b":{"accessToken":""},"https://c":{"accessToken":"keyed"}}}"#;
    let file = credentials_file_from_json(keyed);
    assert_eq!(file.oauth_access_token, None);
    assert_eq!(file.oauth_entry_tokens, vec![Some(String::new()), Some("keyed".to_string())]);
    assert_eq!(credentials_from_json(keyed).unwrap().access_token, "keyed");

    let top = r#"{"accessToken":"top-token"}"#;
    assert_eq!(credentials_from_json(top).unwrap().access_token, "top-token");

    assert!(matches!(credentials_from_json(r#"{"other":1}"#), Err(ClaudeError::NotAuthenticated(_))));
    assert!(matches!(credentials_from_json("garbage"), Err(ClaudeError::NotAuthenticated(_))));
}

#[test]
fn pointer_tokens_escape_tilde_then_slash() {
    assert_eq!(escape_pointer_token("a/b~c"), "a~1b~0c");
    assert_eq!(escape_pointer_token("plain"), "plain");
}

fn sample_bug() -> Bug {
    let mut b = new_bug_record(
        "bug-1".to_string(),
        "s1".to_string(),
        1,
        "/tmp/bug_001".to_string(),
        "2024-01-01T00:00:00Z".to_string(),
    );
    b.bug_type = BugType::Feature;
    b.title = Some("Title".to_string());
    b
}

#[test]
fn bug_record_falls_back_to_ai_description() {
    let mut b = sample_bug();
    b.ai_description = Some("AI-generated description".to_string());
    let r = bug_json(&b, vec!["a.png".to_string()]);
    assert_eq!(r.id, "bug-1");
    assert_eq!(r.display_id, b.display_id);
    assert_eq!(r.bug_type, "feature");
    assert_eq!(r.title.as_deref(), Some("Title"));
    assert_eq!(r.description.as_deref(), Some("AI-generated description"));
    assert_eq!(r.captures, vec!["a.png".to_string()]);
    assert!(r.metadata.is_empty());

    b.description = Some("Mine".to_string());
    assert_eq!(bug_json(&b, vec![]).description.as_deref(), Some("Mine"));
}

#[test]
fn bug_record_metadata_in_order() {
    let mut b = sample_bug();
    b.meeting_id = Some("meet-123".to_string());
    b.software_version = Some("1.0.0".to_string());
    b.console_parse_json = Some(r#"{ "errors": [1, 2] }"#.to_string());
    b.metadata_json = Some(r#"{"z":true,"a":{"k":"v"},"s/x":"y"}"#.to_string());
    let r = bug_json(&b, vec![]);
    assert_eq!(
        r.metadata,
        vec![
            ("meetingId".to_string(), MetadataValue::Text("meet-123".to_string())),
            ("softwareVersion".to_string(), MetadataValue::Text("1.0.0".to_string())),
            ("consoleParse".to_string(), MetadataValue::Json(r#"{"errors":[1,2]}"#.to_string())),
            ("a".to_string(), MetadataValue::Json(r#"{"k":"v"}"#.to_string())),
            ("s/x".to_string(), MetadataValue::Json(r#""y""#.to_string())),
            ("z".to_string(), MetadataValue::Json("true".to_string())),
        ]
    );
}

#[test]
fn bug_record_skips_unparsable_metadata() {
    let mut b = sample_bug();
    b.console_parse_json = Some("not json".to_string());
    b.metadata_json = Some("[1, 2]".to_string());
    assert!(bug_json(&b, vec![]).metadata.is_empty());
}

struct Echo;

impl ClaudeInvoker for Echo {
    fn invoke(&self, request: ClaudeRequest) -> Result<ClaudeResponse, ClaudeError> {
        Ok(ClaudeResponse { content: request.prompt.clone(), task: request.task, bug_id: request.bug_id })
    }
}

#[test]
fn queue_capacity_can_change() {
    let q = QueuedClaudeInvoker::new(Arc::new(Echo)).with_max_queue_size(0);
    match q.invoke(request()) {
        Err(ClaudeError::QueueFull(m)) => assert_eq!(m, "Request queue is full (0 items)"),
        other => panic!("unexpected {:?}", other),
    }
    let q = q.with_max_queue_size(3);
    let r = q.invoke(request()).unwrap();
    assert_eq!(r.content, "describe");
    assert_eq!(r.bug_id.as_deref(), Some("bug-7"));
}

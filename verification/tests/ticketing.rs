use unbroken_qa_capture::ticketing::linear::{
    attachment_result, build_full_description, content_type_for_extension, linear_priority,
};
use unbroken_qa_capture::ticketing::{
    AttachmentUploadResult, LinearIntegration, TicketingCredentials, TicketingError,
};

#[test]
fn test_ticketing_error_display() {
    let err = TicketingError::AuthenticationFailed("Invalid API key".to_string());
    assert_eq!(err.to_string(), "Authentication failed: Invalid API key");
    let err = TicketingError::NetworkError("Timeout".to_string());
    assert_eq!(err.to_string(), "Network error: Timeout");
    let err = TicketingError::InvalidConfig("Missing team ID".to_string());
    assert_eq!(err.to_string(), "Invalid configuration: Missing team ID");
    let err = TicketingError::CreationFailed("GraphQL error".to_string());
    assert_eq!(err.to_string(), "Ticket creation failed: GraphQL error");
    let err = TicketingError::ConnectionFailed("Cannot reach server".to_string());
    assert_eq!(err.to_string(), "Connection check failed: Cannot reach server");
}

#[test]
fn test_linear_integration_creation() {
    let integration = LinearIntegration::new();
    assert_eq!(integration.name(), "Linear");
}

#[test]
fn test_linear_integration_check_connection_not_authenticated() {
    let integration = LinearIntegration::new();
    let status = integration.status_without_check().unwrap();
    assert!(!status.connected);
    assert_eq!(status.integration_name, "Linear");
    assert!(status.message.is_some());
}

// ── further cases ───────────────────────────────────────────────────────

fn upload(path: &str, success: bool, message: &str) -> AttachmentUploadResult {
    AttachmentUploadResult { file_path: path.to_string(), success, message: message.to_string() }
}

#[test]
fn full_description_embeds_uploads_and_lists_failures() {
    let results = vec![
        upload("/a.png", true, "https://assets/a"),
        upload("/b.png", false, "Network error: x"),
        upload("/c.png", true, "https://assets/c"),
        upload("/d.png", false, "Upload returned empty URL"),
    ];
    assert_eq!(
        build_full_description("Body", &results),
        "Body\n\n## Screenshots\n\n![Screenshot 1](https://assets/a)\n\n![Screenshot 2](https://assets/c)\n\n\n\n*Note: The following screenshots could not be uploaded: /b.png, /d.png*"
    );
    assert_eq!(build_full_description("Body", &[]), "Body");
    assert_eq!(
        build_full_description("", &[upload("/x", false, "e")]),
        "\n\n*Note: The following screenshots could not be uploaded: /x*"
    );
}

#[test]
fn attachment_outcomes() {
    let ok = attachment_result("/a".to_string(), Ok("url".to_string()));
    assert!(ok.success && ok.message == "url");
    let empty = attachment_result("/a".to_string(), Ok(String::new()));
    assert!(!empty.success && empty.message == "Upload returned empty URL");
    let err = attachment_result("/a".to_string(), Err(TicketingError::NetworkError("down".to_string())));
    assert!(!err.success && err.message == "Network error: down");
}

#[test]
fn content_types() {
    assert_eq!(content_type_for_extension(Some("png")), "image/png");
    assert_eq!(content_type_for_extension(Some("jpeg")), "image/jpeg");
    assert_eq!(content_type_for_extension(Some("mov")), "video/quicktime");
    assert_eq!(content_type_for_extension(Some("PNG")), "application/octet-stream");
    assert_eq!(content_type_for_extension(None), "application/octet-stream");
}

#[test]
fn linear_state_decisions() {
    let mut integration = LinearIntegration::with_endpoint("http://localhost:1");
    assert_eq!(integration.api_endpoint(), "http://localhost:1");
    assert!(matches!(integration.team_id(), Err(TicketingError::AuthenticationFailed(_))));
    let creds = TicketingCredentials {
        api_key: "key".to_string(),
        workspace_id: None,
        team_id: None,
    };
    let refused = integration.finish_authentication(&creds, 401, "401 Unauthorized", false);
    match refused {
        Err(TicketingError::AuthenticationFailed(m)) => assert_eq!(m, "HTTP 401 Unauthorized: Invalid API key"),
        other => panic!("unexpected {other:?}"),
    }
    assert!(integration.status_without_check().is_some());
    integration.finish_authentication(&creds, 200, "200 OK", false).unwrap();
    assert!(integration.status_without_check().is_none());
    assert_eq!(integration.api_key().unwrap(), "key");
    match integration.team_id() {
        Err(TicketingError::InvalidConfig(m)) => assert_eq!(m, "team_id is required"),
        other => panic!("unexpected {other:?}"),
    }
    integration.set_credentials_for_test(TicketingCredentials {
        api_key: "k2".to_string(),
        workspace_id: None,
        team_id: Some("team".to_string()),
    });
    assert_eq!(integration.team_id().unwrap(), "team");
    let status = LinearIntegration::status_after_check(Err(TicketingError::NetworkError("x".to_string())));
    assert!(!status.connected);
    assert_eq!(status.message, Some("Network error: x".to_string()));
    assert!(LinearIntegration::status_after_check(Ok(())).connected);
    match LinearIntegration::graphql_outcome(200, "200 OK", "{}", Some("[boom]")) {
        Err(TicketingError::CreationFailed(m)) => assert_eq!(m, "GraphQL errors: [boom]"),
        other => panic!("unexpected {other:?}"),
    }
}

#[test]
fn linear_priority_parses_or_defaults_to_zero() {
    assert_eq!(linear_priority("1"), 1);
    assert_eq!(linear_priority("4"), 4);
    assert_eq!(linear_priority("-2"), -2);
    assert_eq!(linear_priority("+3"), 3);
    assert_eq!(linear_priority("high"), 0);
    assert_eq!(linear_priority(""), 0);
    assert_eq!(linear_priority(" 1"), 0);
}

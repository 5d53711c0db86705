use std::sync::{Arc, RwLock};

use unbroken_qa_capture::ticketing::trait_def::TicketingIntegration;
use unbroken_qa_capture::ticketing::types::{
    ConnectionStatus, CreateTicketRequest, CreateTicketResponse, TicketingCredentials,
    TicketingError, TicketingResult,
};

/// Mock ticketing integration for testing
struct MockTicketingIntegration {
    authenticated: Arc<RwLock<bool>>,
    should_fail: Arc<RwLock<bool>>,
    created_tickets: Arc<RwLock<Vec<CreateTicketRequest>>>,
}

impl MockTicketingIntegration {
    fn new() -> Self {
        Self {
            authenticated: Arc::new(RwLock::new(false)),
            should_fail: Arc::new(RwLock::new(false)),
            created_tickets: Arc::new(RwLock::new(Vec::new())),
        }
    }

    fn set_should_fail(&self, fail: bool) {
        *self.should_fail.write().unwrap() = fail;
    }

    fn get_created_tickets(&self) -> Vec<CreateTicketRequest> {
        self.created_tickets.read().unwrap().clone()
    }
}

impl TicketingIntegration for MockTicketingIntegration {
    fn authenticate(&self, credentials: &TicketingCredentials) -> TicketingResult<()> {
        if *self.should_fail.read().unwrap() {
            return Err(TicketingError::AuthenticationFailed(
                "Mock authentication failed".to_string(),
            ));
        }

        // Simple validation: API key must not be empty
        if credentials.api_key.is_empty() {
            return Err(TicketingError::AuthenticationFailed(
                "API key cannot be empty".to_string(),
            ));
        }

        *self.authenticated.write().unwrap() = true;
        Ok(())
    }

    fn create_ticket(&self, request: &CreateTicketRequest) -> TicketingResult<CreateTicketResponse> {
        if !*self.authenticated.read().unwrap() {
            return Err(TicketingError::AuthenticationFailed(
                "Not authenticated".to_string(),
            ));
        }

        if *self.should_fail.read().unwrap() {
            return Err(TicketingError::CreationFailed(
                "Mock creation failed".to_string(),
            ));
        }

        // Store the request
        self.created_tickets.write().unwrap().push(request.clone());

        Ok(CreateTicketResponse {
            id: "mock-id-123".to_string(),
            url: "https://mock.example.com/issue/MOCK-123".to_string(),
            identifier: "MOCK-123".to_string(),
            attachment_results: vec![],
        })
    }

    fn check_connection(&self) -> TicketingResult<ConnectionStatus> {
        if *self.should_fail.read().unwrap() {
            return Ok(ConnectionStatus {
                connected: false,
                message: Some("Connection failed".to_string()),
                integration_name: "Mock".to_string(),
            });
        }

        Ok(ConnectionStatus {
            connected: *self.authenticated.read().unwrap(),
            message: None,
            integration_name: "Mock".to_string(),
        })
    }

    fn name(&self) -> &str {
        "Mock"
    }
}

#[test]
fn test_mock_integration_authentication() {
    let integration = MockTicketingIntegration::new();

    let credentials = TicketingCredentials {
        api_key: "test-api-key".to_string(),
        workspace_id: None,
        team_id: None,
    };

    let result = integration.authenticate(&credentials);
    assert!(result.is_ok());
}

#[test]
fn test_mock_integration_authentication_empty_key() {
    let integration = MockTicketingIntegration::new();

    let credentials = TicketingCredentials {
        api_key: "".to_string(),
        workspace_id: None,
        team_id: None,
    };

    let result = integration.authenticate(&credentials);
    assert!(result.is_err());
    assert!(matches!(
        result.unwrap_err(),
        TicketingError::AuthenticationFailed(_)
    ));
}

#[test]
fn test_mock_integration_create_ticket_success() {
    let integration = MockTicketingIntegration::new();

    // Authenticate first
    let credentials = TicketingCredentials {
        api_key: "test-api-key".to_string(),
        workspace_id: None,
        team_id: None,
    };
    integration.authenticate(&credentials).unwrap();

    // Create ticket
    let request = CreateTicketRequest {
        title: "Test Bug".to_string(),
        description: "This is a test bug".to_string(),
        attachments: vec![],
        priority: Some("1".to_string()),
        labels: vec![],
        assignee_id: None,
        state_id: None,
    };

    let result = integration.create_ticket(&request);
    assert!(result.is_ok());

    let response = result.unwrap();
    assert_eq!(response.id, "mock-id-123");
    assert_eq!(response.identifier, "MOCK-123");
    assert!(response.url.contains("MOCK-123"));
}

#[test]
fn test_mock_integration_create_ticket_not_authenticated() {
    let integration = MockTicketingIntegration::new();

    let request = CreateTicketRequest {
        title: "Test Bug".to_string(),
        description: "This is a test bug".to_string(),
        attachments: vec![],
        priority: None,
        labels: vec![],
        assignee_id: None,
        state_id: None,
    };

    let result = integration.create_ticket(&request);
    assert!(result.is_err());
    assert!(matches!(
        result.unwrap_err(),
        TicketingError::AuthenticationFailed(_)
    ));
}

#[test]
fn test_mock_integration_create_ticket_with_attachments() {
    let integration = MockTicketingIntegration::new();

    // Authenticate
    let credentials = TicketingCredentials {
        api_key: "test-api-key".to_string(),
        workspace_id: None,
        team_id: None,
    };
    integration.authenticate(&credentials).unwrap();

    // Create ticket with attachments
    let request = CreateTicketRequest {
        title: "Bug with Screenshots".to_string(),
        description: "Bug description".to_string(),
        attachments: vec![
            "/path/to/screenshot1.png".to_string(),
            "/path/to/screenshot2.png".to_string(),
        ],
        priority: Some("2".to_string()),
        labels: vec!["bug".to_string(), "ui".to_string()],
        assignee_id: None,
        state_id: None,
    };

    let result = integration.create_ticket(&request);
    assert!(result.is_ok());

    // Verify the request was stored
    let tickets = integration.get_created_tickets();
    assert_eq!(tickets.len(), 1);
    assert_eq!(tickets[0].attachments.len(), 2);
    assert_eq!(tickets[0].labels.len(), 2);
}

#[test]
fn test_mock_integration_check_connection_authenticated() {
    let integration = MockTicketingIntegration::new();

    // Before authentication
    let status = integration.check_connection().unwrap();
    assert!(!status.connected);

    // After authentication
    let credentials = TicketingCredentials {
        api_key: "test-api-key".to_string(),
        workspace_id: None,
        team_id: None,
    };
    integration.authenticate(&credentials).unwrap();

    let status = integration.check_connection().unwrap();
    assert!(status.connected);
    assert_eq!(status.integration_name, "Mock");
}

#[test]
fn test_mock_integration_check_connection_failure() {
    let integration = MockTicketingIntegration::new();
    integration.set_should_fail(true);

    let status = integration.check_connection().unwrap();
    assert!(!status.connected);
    assert!(status.message.is_some());
}

#[test]
fn test_batch_push_multiple_bugs() {
    let integration = MockTicketingIntegration::new();

    // Authenticate
    let credentials = TicketingCredentials {
        api_key: "test-api-key".to_string(),
        workspace_id: None,
        team_id: Some("team-123".to_string()),
    };
    integration.authenticate(&credentials).unwrap();

    // Simulate pushing multiple bugs
    let bugs = [
        CreateTicketRequest {
            title: "Bug 1: UI Issue".to_string(),
            description: "Button is misaligned".to_string(),
            attachments: vec!["/path/screenshot1.png".to_string()],
            priority: Some("1".to_string()),
            labels: vec!["bug".to_string()],
            assignee_id: None,
            state_id: None,
        },
        CreateTicketRequest {
            title: "Bug 2: Performance Issue".to_string(),
            description: "App is slow".to_string(),
            attachments: vec![],
            priority: Some("2".to_string()),
            labels: vec!["bug".to_string(), "performance".to_string()],
            assignee_id: None,
            state_id: None,
        },
        CreateTicketRequest {
            title: "Feature Request".to_string(),
            description: "Add dark mode".to_string(),
            attachments: vec![],
            priority: Some("3".to_string()),
            labels: vec!["feature".to_string()],
            assignee_id: None,
            state_id: None,
        },
    ];

    // Push all bugs and collect results
    let mut results = Vec::new();
    for (index, bug) in bugs.iter().enumerate() {
        let result = integration.create_ticket(bug);
        assert!(result.is_ok(), "Bug {} should push successfully", index + 1);
        results.push(result.unwrap());
    }

    // Verify all bugs were created
    assert_eq!(results.len(), 3);
    let created_tickets = integration.get_created_tickets();
    assert_eq!(created_tickets.len(), 3);

    // Verify progress tracking would work (simulate 1/10, 2/10, etc.)
    for (index, _) in results.iter().enumerate() {
        let progress = (index + 1) as f32 / bugs.len() as f32;
        assert!((0.0..=1.0).contains(&progress));
    }
}

#[test]
fn test_batch_push_with_failures() {
    let integration = MockTicketingIntegration::new();

    // Authenticate
    let credentials = TicketingCredentials {
        api_key: "test-api-key".to_string(),
        workspace_id: None,
        team_id: None,
    };
    integration.authenticate(&credentials).unwrap();

    // Push first bug successfully
    let bug1 = CreateTicketRequest {
        title: "Bug 1".to_string(),
        description: "First bug".to_string(),
        attachments: vec![],
        priority: None,
        labels: vec![],
        assignee_id: None,
        state_id: None,
    };
    let result1 = integration.create_ticket(&bug1);
    assert!(result1.is_ok());

    // Simulate failure for subsequent bugs
    integration.set_should_fail(true);

    let bug2 = CreateTicketRequest {
        title: "Bug 2".to_string(),
        description: "Second bug".to_string(),
        attachments: vec![],
        priority: None,
        labels: vec![],
        assignee_id: None,
        state_id: None,
    };
    let result2 = integration.create_ticket(&bug2);
    assert!(result2.is_err());

    // Verify the UI should show 1 success, 1 failure
    let created_tickets = integration.get_created_tickets();
    assert_eq!(created_tickets.len(), 1); // Only the first one succeeded
}

#[test]
fn test_authentication_error_handling() {
    let integration = MockTicketingIntegration::new();

    // Try to create ticket without authenticating
    let request = CreateTicketRequest {
        title: "Test Bug".to_string(),
        description: "This should fail".to_string(),
        attachments: vec![],
        priority: None,
        labels: vec![],
        assignee_id: None,
        state_id: None,
    };

    let result = integration.create_ticket(&request);
    assert!(result.is_err());

    match result.unwrap_err() {
        TicketingError::AuthenticationFailed(msg) => {
            assert_eq!(msg, "Not authenticated");
        }
        _ => panic!("Expected AuthenticationFailed error"),
    }
}

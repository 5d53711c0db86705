//! Value types of the ticketing integrations.
use vstd::prelude::*;

verus! {

/// Errors of a ticketing integration.
#[derive(Debug)]
pub enum TicketingError {
    /// The service refused the credentials.
    AuthenticationFailed(String),
    /// The service could not be reached or answered with an error.
    NetworkError(String),
    /// The configuration is incomplete.
    InvalidConfig(String),
    /// The ticket could not be created.
    CreationFailed(String),
    /// The connection check failed.
    ConnectionFailed(String),
}

/// Outcome of a ticketing operation.
pub type TicketingResult<T> = Result<T, TicketingError>;

impl Clone for TicketingError {
    fn clone(&self) -> (r: Self)
        ensures
            r == *self,
    {
        match self {
            TicketingError::AuthenticationFailed(m) => TicketingError::AuthenticationFailed(m.clone()),
            TicketingError::NetworkError(m) => TicketingError::NetworkError(m.clone()),
            TicketingError::InvalidConfig(m) => TicketingError::InvalidConfig(m.clone()),
            TicketingError::CreationFailed(m) => TicketingError::CreationFailed(m.clone()),
            TicketingError::ConnectionFailed(m) => TicketingError::ConnectionFailed(m.clone()),
        }
    }
}

/// The message shown for a ticketing error.
pub open spec fn ticketing_error_text(e: TicketingError) -> Seq<char> {
    match e {
        TicketingError::AuthenticationFailed(m) => "Authentication failed: "@ + m@,
        TicketingError::NetworkError(m) => "Network error: "@ + m@,
        TicketingError::InvalidConfig(m) => "Invalid configuration: "@ + m@,
        TicketingError::CreationFailed(m) => "Ticket creation failed: "@ + m@,
        TicketingError::ConnectionFailed(m) => "Connection check failed: "@ + m@,
    }
}

impl TicketingError {
    /// The message shown for this error.
    pub fn to_string(&self) -> (r: String)
        ensures
            r@ == ticketing_error_text(*self),
    {
        let (prefix, m): (&str, &String) = match self {
            TicketingError::AuthenticationFailed(m) => ("Authentication failed: ", m),
            TicketingError::NetworkError(m) => ("Network error: ", m),
            TicketingError::InvalidConfig(m) => ("Invalid configuration: ", m),
            TicketingError::CreationFailed(m) => ("Ticket creation failed: ", m),
            TicketingError::ConnectionFailed(m) => ("Connection check failed: ", m),
        };
        let mut s = String::from_str(prefix);
        s.append(m.as_str());
        s
    }
}

/// Credentials of a ticketing integration.
#[derive(Debug)]
pub struct TicketingCredentials {
    /// API key or token.
    pub api_key: String,
    pub workspace_id: Option<String>,
    /// The team issues are filed in (required by Linear).
    pub team_id: Option<String>,
}

impl Clone for TicketingCredentials {
    fn clone(&self) -> (r: Self)
        ensures
            r == *self,
    {
        TicketingCredentials {
            api_key: self.api_key.clone(),
            workspace_id: match &self.workspace_id {
                Some(w) => Some(w.clone()),
                None => None,
            },
            team_id: match &self.team_id {
                Some(t) => Some(t.clone()),
                None => None,
            },
        }
    }
}

/// A ticket to create.
#[derive(Debug, Clone)]
pub struct CreateTicketRequest {
    pub title: String,
    pub description: String,
    /// Files to attach.
    pub attachments: Vec<String>,
    pub priority: Option<String>,
    pub labels: Vec<String>,
    /// Assignee (from the profile's defaults).
    pub assignee_id: Option<String>,
    /// Workflow state (from the profile's defaults).
    pub state_id: Option<String>,
}

/// The outcome of uploading one attachment.
#[derive(Debug)]
pub struct AttachmentUploadResult {
    /// The file that was uploaded.
    pub file_path: String,
    pub success: bool,
    /// The asset URL on success, the error message on failure.
    pub message: String,
}

impl Clone for AttachmentUploadResult {
    fn clone(&self) -> (r: Self)
        ensures
            r == *self,
    {
        AttachmentUploadResult {
            file_path: self.file_path.clone(),
            success: self.success,
            message: self.message.clone(),
        }
    }
}

/// A created ticket.
#[derive(Debug, Clone)]
pub struct CreateTicketResponse {
    pub id: String,
    pub url: String,
    /// Display identifier such as `PROJ-123`.
    pub identifier: String,
    /// One entry per attachment of the request.
    pub attachment_results: Vec<AttachmentUploadResult>,
}

/// Whether an integration can reach its service.
#[derive(Debug)]
pub struct ConnectionStatus {
    pub connected: bool,
    /// Details when not connected.
    pub message: Option<String>,
    pub integration_name: String,
}

} // verus!

//! The interface of a ticketing integration.
use vstd::prelude::*;

use crate::ticketing::types::{
    ConnectionStatus, CreateTicketRequest, CreateTicketResponse, TicketingCredentials,
    TicketingResult,
};

verus! {

/// A service that tickets can be filed with: it authenticates with API
/// credentials, creates tickets with attachments and checks its connection.
pub trait TicketingIntegration: Send + Sync {
    /// Authenticates with the service and keeps the credentials on success.
    fn authenticate(&self, credentials: &TicketingCredentials) -> TicketingResult<()>;

    /// Files a ticket.
    fn create_ticket(&self, request: &CreateTicketRequest) -> TicketingResult<CreateTicketResponse>;

    /// Tells whether the service can be reached with the kept credentials.
    fn check_connection(&self) -> TicketingResult<ConnectionStatus>;

    /// The name of the integration, such as `Linear`.
    fn name(&self) -> &str;
}

} // verus!

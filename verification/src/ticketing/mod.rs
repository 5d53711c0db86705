//! Filing QA findings as tickets in an external tracker.
pub mod types;
pub mod trait_def;
pub mod linear;
pub mod replies;

pub use types::{
    AttachmentUploadResult, ConnectionStatus, CreateTicketRequest, CreateTicketResponse,
    TicketingCredentials, TicketingError, TicketingResult,
};
pub use trait_def::TicketingIntegration;
pub use linear::LinearIntegration;

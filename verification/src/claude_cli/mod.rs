//! AI-assisted bug descriptions: request and response types, prompt
//! construction, availability status and the invoker interface.
pub mod types;
pub mod prompts;
pub mod status;
pub mod subprocess;
pub use prompts::{BugSummary, PromptBuilder};

pub use types::{
    BugContext, ClaudeCredentials, ClaudeError, ClaudeRequest, ClaudeResponse, ClaudeStatus,
    PromptTask,
};



pub use status::{check_api_configured, get_claude_status, refresh_claude_status};
pub use subprocess::{ClaudeInvoker, QueuedClaudeInvoker, RealClaudeInvoker};

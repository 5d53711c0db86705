//! Value types exchanged with the AI description service: credentials,
//! availability status, errors, request and response records.
use std::path::PathBuf;
use vstd::prelude::*;

use crate::text::{decimal, push_decimal};

verus! {

/// File-system paths are carried through requests unchanged; nothing here
/// looks inside them.
#[verifier::external_type_specification]
#[verifier::external_body]
pub struct ExPathBuf(PathBuf);

/// Credentials for calling the Messages API through the desktop assistant's sign-in.
#[derive(Debug)]
pub struct ClaudeCredentials {
    pub access_token: String,
}

impl Clone for ClaudeCredentials {
    fn clone(&self) -> (r: Self)
        ensures
            r == *self,
    {
        ClaudeCredentials { access_token: self.access_token.clone() }
    }
}

/// Whether the AI features can be used.
#[derive(Debug)]
pub enum ClaudeStatus {
    /// Signed in and ready.
    Ready { version: String },
    /// Installed but not signed in.
    NotAuthenticated { version: String, message: String },
    /// Not installed.
    NotInstalled { message: String },
}

impl Clone for ClaudeStatus {
    fn clone(&self) -> (r: Self)
        ensures
            r == *self,
    {
        match self {
            ClaudeStatus::Ready { version } => ClaudeStatus::Ready { version: version.clone() },
            ClaudeStatus::NotAuthenticated { version, message } => ClaudeStatus::NotAuthenticated {
                version: version.clone(),
                message: message.clone(),
            },
            ClaudeStatus::NotInstalled { message } => ClaudeStatus::NotInstalled {
                message: message.clone(),
            },
        }
    }
}

impl ClaudeStatus {
    /// True exactly for the `Ready` status.
    pub fn is_ready(&self) -> (r: bool)
        ensures
            r == (*self is Ready),
    {
        match self {
            ClaudeStatus::Ready { .. } => true,
            _ => false,
        }
    }
}

/// Errors of the AI description service.
#[derive(Debug)]
pub enum ClaudeError {
    /// No desktop assistant installation (no credentials file).
    NotFound(String),
    /// Installed but without a usable sign-in.
    NotAuthenticated(String),
    /// The request could not be made.
    InvocationFailed(String),
    /// The request took longer than its timeout.
    Timeout { seconds: u64, task: String },
    /// The response could not be understood.
    ParseError(String),
    /// The service answered with an error.
    ApiError(String),
    /// Too many requests are waiting.
    QueueFull(String),
}

impl Clone for ClaudeError {
    fn clone(&self) -> (r: Self)
        ensures
            r == *self,
    {
        match self {
            ClaudeError::NotFound(m) => ClaudeError::NotFound(m.clone()),
            ClaudeError::NotAuthenticated(m) => ClaudeError::NotAuthenticated(m.clone()),
            ClaudeError::InvocationFailed(m) => ClaudeError::InvocationFailed(m.clone()),
            ClaudeError::Timeout { seconds, task } => ClaudeError::Timeout {
                seconds: *seconds,
                task: task.clone(),
            },
            ClaudeError::ParseError(m) => ClaudeError::ParseError(m.clone()),
            ClaudeError::ApiError(m) => ClaudeError::ApiError(m.clone()),
            ClaudeError::QueueFull(m) => ClaudeError::QueueFull(m.clone()),
        }
    }
}

/// The message shown for an error.
pub open spec fn claude_error_text(e: ClaudeError) -> Seq<char> {
    match e {
        ClaudeError::NotFound(m) => "Assistant CLI not found: "@ + m@,
        ClaudeError::NotAuthenticated(m) => "Assistant CLI not authenticated: "@ + m@,
        ClaudeError::InvocationFailed(m) => "Assistant invocation failed: "@ + m@,
        ClaudeError::Timeout { seconds, task } => "Assistant invocation timed out after "@ + decimal(
            seconds as nat,
        ) + "s for task: "@ + task@,
        ClaudeError::ParseError(m) => "Failed to parse assistant response: "@ + m@,
        ClaudeError::ApiError(m) => "Assistant API error: "@ + m@,
        ClaudeError::QueueFull(m) => "Assistant request queue full: "@ + m@,
    }
}

impl ClaudeError {
    /// The message shown for this error.
    pub fn to_string(&self) -> (r: String)
        ensures
            r@ == claude_error_text(*self),
    {
        let mut s;
        match self {
            ClaudeError::NotFound(m) => {
                s = String::from_str("Assistant CLI not found: ");
                s.append(m.as_str());
            },
            ClaudeError::NotAuthenticated(m) => {
                s = String::from_str("Assistant CLI not authenticated: ");
                s.append(m.as_str());
            },
            ClaudeError::InvocationFailed(m) => {
                s = String::from_str("Assistant invocation failed: ");
                s.append(m.as_str());
            },
            ClaudeError::Timeout { seconds, task } => {
                s = String::from_str("Assistant invocation timed out after ");
                push_decimal(&mut s, *seconds);
                s.append("s for task: ");
                s.append(task.as_str());
            },
            ClaudeError::ParseError(m) => {
                s = String::from_str("Failed to parse assistant response: ");
                s.append(m.as_str());
            },
            ClaudeError::ApiError(m) => {
                s = String::from_str("Assistant API error: ");
                s.append(m.as_str());
            },
            ClaudeError::QueueFull(m) => {
                s = String::from_str("Assistant request queue full: ");
                s.append(m.as_str());
            },
        }
        s
    }
}

/// What is known of a bug when asking for its description.
#[derive(Debug, Clone)]
pub struct BugContext {
    pub bug_id: String,
    /// Quick notes taken during capture.
    pub notes: Option<String>,
    /// Screenshot files (at most five recommended).
    pub screenshot_paths: Vec<PathBuf>,
    pub app_name: Option<String>,
    pub app_version: Option<String>,
    pub meeting_id: Option<String>,
    pub environment: Option<String>,
    /// `bug`, `feature` or `feedback`.
    pub bug_type: Option<String>,
}

/// The kind of AI task to perform.
#[derive(Debug, Clone, Copy, PartialEq, Eq, Structural)]
pub enum PromptTask {
    /// Write a first description from screenshots and notes.
    DescribeBug,
    /// Extract errors and warnings from a console screenshot.
    ParseConsole,
    /// Rework an existing description following instructions.
    RefineDescription,
    /// Use a prompt written by the user.
    Custom,
}

/// A task's name, spelled as in its `Debug` output.
pub open spec fn prompt_task_name(t: PromptTask) -> Seq<char> {
    match t {
        PromptTask::DescribeBug => "DescribeBug"@,
        PromptTask::ParseConsole => "ParseConsole"@,
        PromptTask::RefineDescription => "RefineDescription"@,
        PromptTask::Custom => "Custom"@,
    }
}

impl PromptTask {
    /// The task's name, spelled as in its `Debug` output.
    pub fn name(&self) -> (r: &str)
        ensures
            r@ == prompt_task_name(*self),
    {
        match self {
            PromptTask::DescribeBug => "DescribeBug",
            PromptTask::ParseConsole => "ParseConsole",
            PromptTask::RefineDescription => "RefineDescription",
            PromptTask::Custom => "Custom",
        }
    }
}

/// The answer to a request.
#[derive(Debug, Clone)]
pub struct ClaudeResponse {
    /// The generated text.
    pub content: String,
    /// The task that was performed.
    pub task: PromptTask,
    /// The bug the request was about, if any.
    pub bug_id: Option<String>,
}

/// A request to the AI service.
#[derive(Debug, Clone)]
pub struct ClaudeRequest {
    /// The prompt text.
    pub prompt: String,
    /// Images to attach.
    pub image_paths: Vec<PathBuf>,
    pub task: PromptTask,
    /// The bug the request is about, for tracking.
    pub bug_id: Option<String>,
    /// Timeout in seconds.
    pub timeout_secs: u64,
}

/// Timeout of a text-only request, in seconds.
pub const TEXT_TIMEOUT_SECS: u64 = 15;

/// Timeout of a request with images, in seconds.
pub const IMAGE_TIMEOUT_SECS: u64 = 30;

impl ClaudeRequest {
    /// A text-only request, with the short timeout and no bug.
    pub fn new_text(prompt: String, task: PromptTask) -> (r: Self)
        ensures
            r.prompt == prompt,
            r.image_paths@.len() == 0,
            r.task == task,
            r.bug_id is None,
            r.timeout_secs == TEXT_TIMEOUT_SECS,
    {
        ClaudeRequest {
            prompt,
            image_paths: Vec::new(),
            task,
            bug_id: None,
            timeout_secs: TEXT_TIMEOUT_SECS,
        }
    }

    /// A request with images, with the longer timeout and no bug.
    pub fn new_with_images(prompt: String, image_paths: Vec<PathBuf>, task: PromptTask) -> (r: Self)
        ensures
            r.prompt == prompt,
            r.image_paths == image_paths,
            r.task == task,
            r.bug_id is None,
            r.timeout_secs == IMAGE_TIMEOUT_SECS,
    {
        ClaudeRequest { prompt, image_paths, task, bug_id: None, timeout_secs: IMAGE_TIMEOUT_SECS }
    }

    /// The same request, tagged with a bug.
    pub fn with_bug_id(self, bug_id: String) -> (r: Self)
        ensures
            r.prompt == self.prompt,
            r.image_paths == self.image_paths,
            r.task == self.task,
            r.bug_id == Some(bug_id),
            r.timeout_secs == self.timeout_secs,
    {
        let mut req = self;
        req.bug_id = Some(bug_id);
        req
    }

    /// The same request with another timeout.
    pub fn with_timeout(self, timeout_secs: u64) -> (r: Self)
        ensures
            r.prompt == self.prompt,
            r.image_paths == self.image_paths,
            r.task == self.task,
            r.bug_id == self.bug_id,
            r.timeout_secs == timeout_secs,
    {
        let mut req = self;
        req.timeout_secs = timeout_secs;
        req
    }

    /// The error reported when this request runs out of time: its timeout
    /// and the name of its task.
    pub fn timeout_error(&self) -> (r: ClaudeError)
        ensures
            r == (ClaudeError::Timeout { seconds: self.timeout_secs, task: r->task }),
            r->task@ == prompt_task_name(self.task),
    {
        ClaudeError::Timeout { seconds: self.timeout_secs, task: String::from_str(self.task.name()) }
    }

    /// The response to this request carrying `content`: it keeps the
    /// request's task and bug.
    pub fn respond(&self, content: String) -> (r: ClaudeResponse)
        ensures
            r.content == content,
            r.task == self.task,
            r.bug_id == self.bug_id,
    {
        let bug_id = match &self.bug_id {
            Some(b) => Some(b.clone()),
            None => None,
        };
        ClaudeResponse { content, task: self.task, bug_id }
    }
}

} // verus!

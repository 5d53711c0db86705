//! The screenshot capture interface of a platform.
use vstd::prelude::*;

use crate::platform::error::{PlatformError, Result};

verus! {

/// Starts the operating system's screenshot tool; screenshots are saved by
/// the user into the session's capture folder.
pub trait CaptureBridge: Send + Sync {
    /// Starts the screenshot tool. Success means the tool was started, not
    /// that a screenshot was taken.
    fn trigger_screenshot(&self) -> Result<()>;
}

/// The ways of starting the screenshot tool, in the order they are tried:
/// the `ms-screenclip:` URI, the `SnippingTool.exe` process, and the
/// simulated Win+Shift+S key press.
#[derive(Debug, Clone, Copy, PartialEq, Eq, Structural)]
pub enum TriggerMethod {
    Uri,
    Process,
    KeySimulation,
}

/// What to do after one way of starting the screenshot tool was tried.
#[derive(Debug)]
pub enum TriggerStep {
    /// The tool was started: report success.
    Done,
    /// Try this way next.
    Try(TriggerMethod),
    /// Every way failed: report this error.
    Fail(PlatformError),
}

/// The way tried after `m` failed, if any.
pub open spec fn next_method(m: TriggerMethod) -> Option<TriggerMethod> {
    match m {
        TriggerMethod::Uri => Some(TriggerMethod::Process),
        TriggerMethod::Process => Some(TriggerMethod::KeySimulation),
        TriggerMethod::KeySimulation => None,
    }
}

/// The message of the error when every way of starting the tool failed.
pub const ALL_TRIGGERS_FAILED: &'static str = "All screenshot trigger methods failed (URI, process, key simulation)";

/// The first way to try.
pub fn first_trigger_method() -> (r: TriggerMethod)
    ensures
        r == TriggerMethod::Uri,
{
    TriggerMethod::Uri
}

/// Decides what follows trying `method`: success ends the attempt, a
/// failure moves on to the next way, and when the last way failed too the
/// error names all of them (`method` `all`).
pub fn after_trigger_attempt(method: TriggerMethod, succeeded: bool) -> (r: TriggerStep)
    ensures
        succeeded ==> r == TriggerStep::Done,
        !succeeded ==> match next_method(method) {
            Some(n) => r == TriggerStep::Try(n),
            None => r matches TriggerStep::Fail(PlatformError::ScreenshotTriggerError {
                method: m,
                message: msg,
            }) && m@ == "all"@ && msg@ == ALL_TRIGGERS_FAILED@,
        },
{
    if succeeded {
        return TriggerStep::Done;
    }
    match method {
        TriggerMethod::Uri => TriggerStep::Try(TriggerMethod::Process),
        TriggerMethod::Process => TriggerStep::Try(TriggerMethod::KeySimulation),
        TriggerMethod::KeySimulation => TriggerStep::Fail(PlatformError::ScreenshotTriggerError {
            method: String::from_str("all"),
            message: String::from_str(ALL_TRIGGERS_FAILED),
        }),
    }
}

} // verus!

//! Errors of platform-specific operations.
use vstd::prelude::*;

verus! {

/// Errors of platform-specific operations.
#[derive(Debug)]
pub enum PlatformError {
    /// The operation is not available on this platform.
    NotImplemented { operation: String, platform: String },
    /// A registry operation failed.
    RegistryError { key: String, operation: String, message: String },
    /// A file system operation failed.
    FileSystemError { path: String, operation: String, message: String },
    /// The screenshot tool could not be started.
    ScreenshotTriggerError { method: String, message: String },
    /// An argument was not valid.
    InvalidArgument { parameter: String, message: String },
    /// Any other failure.
    Other { message: String },
}

/// Outcome of a platform operation.
pub type Result<T> = core::result::Result<T, PlatformError>;

/// The message shown for a platform error.
pub open spec fn platform_error_text(e: PlatformError) -> Seq<char> {
    match e {
        PlatformError::NotImplemented { operation, platform } => "Operation '"@ + operation@
            + "' not implemented on "@ + platform@,
        PlatformError::RegistryError { key, operation, message } => "Registry "@ + operation@
            + " failed for key '"@ + key@ + "': "@ + message@,
        PlatformError::FileSystemError { path, operation, message } => "File system "@
            + operation@ + " failed for path '"@ + path@ + "': "@ + message@,
        PlatformError::ScreenshotTriggerError { method, message } => "Screenshot trigger '"@
            + method@ + "' failed: "@ + message@,
        PlatformError::InvalidArgument { parameter, message } => "Invalid argument '"@
            + parameter@ + "': "@ + message@,
        PlatformError::Other { message } => "Platform error: "@ + message@,
    }
}

impl PlatformError {
    /// The message shown for this error.
    pub fn to_string(&self) -> (r: String)
        ensures
            r@ == platform_error_text(*self),
    {
        let mut s;
        match self {
            PlatformError::NotImplemented { operation, platform } => {
                s = String::from_str("Operation '");
                s.append(operation.as_str());
                s.append("' not implemented on ");
                s.append(platform.as_str());
            },
            PlatformError::RegistryError { key, operation, message } => {
                s = String::from_str("Registry ");
                s.append(operation.as_str());
                s.append(" failed for key '");
                s.append(key.as_str());
                s.append("': ");
                s.append(message.as_str());
            },
            PlatformError::FileSystemError { path, operation, message } => {
                s = String::from_str("File system ");
                s.append(operation.as_str());
                s.append(" failed for path '");
                s.append(path.as_str());
                s.append("': ");
                s.append(message.as_str());
            },
            PlatformError::ScreenshotTriggerError { method, message } => {
                s = String::from_str("Screenshot trigger '");
                s.append(method.as_str());
                s.append("' failed: ");
                s.append(message.as_str());
            },
            PlatformError::InvalidArgument { parameter, message } => {
                s = String::from_str("Invalid argument '");
                s.append(parameter.as_str());
                s.append("': ");
                s.append(message.as_str());
            },
            PlatformError::Other { message } => {
                s = String::from_str("Platform error: ");
                s.append(message.as_str());
            },
        }
        s
    }

    /// The error for a failed input/output operation with message `message`:
    /// a file system error of operation `io` with no path.
    pub fn from_io_message(message: String) -> (r: Self)
        ensures
            r matches PlatformError::FileSystemError { path, operation, message: m } && path@.len()
                == 0 && operation@ == "io"@ && m == message,
    {
        PlatformError::FileSystemError {
            path: String::new(),
            operation: String::from_str("io"),
            message,
        }
    }

    /// The error for `operation` not being available on `platform`.
    pub fn not_implemented(operation: &str, platform: &str) -> (r: Self)
        ensures
            r matches PlatformError::NotImplemented { operation: o, platform: p } && o@
                == operation@ && p@ == platform@,
    {
        PlatformError::NotImplemented {
            operation: String::from_str(operation),
            platform: String::from_str(platform),
        }
    }
}

} // verus!

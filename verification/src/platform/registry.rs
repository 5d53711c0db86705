//! The interface for redirecting where the operating system saves screenshots.
use std::path::{Path, PathBuf};
use vstd::prelude::*;

use crate::platform::error::Result;
use crate::text::{replace_str, replaced};

verus! {

/// Borrowed file-system paths are handed through unchanged.
#[verifier::external_type_specification]
#[verifier::external_body]
pub struct ExPath(Path);

/// Reads and changes the folder the screenshot tool saves into, and puts it
/// back after a crash.
pub trait RegistryBridge: Send + Sync {
    /// The folder screenshots are saved into now.
    fn read_screenshot_folder(&self) -> Result<PathBuf>;

    /// Makes screenshots be saved into `folder`.
    fn write_screenshot_folder(&self, folder: &Path) -> Result<()>;

    /// Puts back the folder that was in use before a redirect.
    fn restore_screenshot_folder(&self, original_folder: &Path) -> Result<()>;

    /// Puts back folders left redirected by an earlier run that ended abruptly.
    fn detect_and_restore_stale_redirects(&self) -> Result<()>;
}

/// Starting the application when the user signs in.
pub trait Platform {
    fn enable_startup(&self) -> Result<()>;

    fn disable_startup(&self) -> Result<()>;
}

/// A screenshot folder setting with `%USERPROFILE%`, `%APPDATA%` and
/// `%LOCALAPPDATA%` expanded, in that order, each only where the variable
/// has a value.
pub open spec fn env_expanded(
    path: Seq<char>,
    userprofile: Option<Seq<char>>,
    appdata: Option<Seq<char>>,
    localappdata: Option<Seq<char>>,
) -> Seq<char> {
    let a = match userprofile {
        Some(v) => replaced(path, "%USERPROFILE%"@, v),
        None => path,
    };
    let b = match appdata {
        Some(v) => replaced(a, "%APPDATA%"@, v),
        None => a,
    };
    match localappdata {
        Some(v) => replaced(b, "%LOCALAPPDATA%"@, v),
        None => b,
    }
}

/// Expands the environment variables a screenshot folder setting may name,
/// given their values (`None` for a variable that is not set).
pub fn expand_env_vars(
    path: &str,
    userprofile: Option<&str>,
    appdata: Option<&str>,
    localappdata: Option<&str>,
) -> (r: String)
    ensures
        r@ == env_expanded(
            path@,
            match userprofile { Some(v) => Some(v@), None => None },
            match appdata { Some(v) => Some(v@), None => None },
            match localappdata { Some(v) => Some(v@), None => None },
        ),
{
    proof {
        reveal_strlit("%USERPROFILE%");
        reveal_strlit("%APPDATA%");
        reveal_strlit("%LOCALAPPDATA%");
    }
    let mut expanded = String::from_str(path);
    if let Some(v) = userprofile {
        expanded = replace_str(expanded.as_str(), "%USERPROFILE%", v);
    }
    if let Some(v) = appdata {
        expanded = replace_str(expanded.as_str(), "%APPDATA%", v);
    }
    if let Some(v) = localappdata {
        expanded = replace_str(expanded.as_str(), "%LOCALAPPDATA%", v);
    }
    expanded
}

} // verus!

//! macOS: none of the platform operations is available there yet; each
//! reports `NotImplemented` with its own name.
use std::path::{Path, PathBuf};
use vstd::prelude::*;

use crate::platform::capture::CaptureBridge;
use crate::platform::error::{PlatformError, Result};
use crate::platform::registry::{Platform, RegistryBridge};

verus! {

/// The platform name the macOS operations report.
pub const MACOS: &'static str = "macOS";

/// True for the error saying that `operation` is not implemented on macOS.
pub open spec fn not_on_macos(e: PlatformError, operation: Seq<char>) -> bool {
    e matches PlatformError::NotImplemented { operation: o, platform: p } && o@ == operation && p@
        == MACOS@
}

/// The screenshot capture bridge of macOS.
pub struct MacCaptureBridge {}

impl MacCaptureBridge {
    pub fn new() -> (r: Self) {
        MacCaptureBridge {  }
    }
}

impl Default for MacCaptureBridge {
    fn default() -> (r: Self) {
        MacCaptureBridge::new()
    }
}

impl CaptureBridge for MacCaptureBridge {
    fn trigger_screenshot(&self) -> (r: Result<()>)
        ensures
            r matches Err(e) && not_on_macos(e, "trigger_screenshot"@),
    {
        Err(PlatformError::not_implemented("trigger_screenshot", MACOS))
    }
}

/// The screenshot folder bridge of macOS, which has no registry.
pub struct MacRegistryBridge {}

impl MacRegistryBridge {
    pub fn new() -> (r: Self) {
        MacRegistryBridge {  }
    }
}

impl Default for MacRegistryBridge {
    fn default() -> (r: Self) {
        MacRegistryBridge::new()
    }
}

impl RegistryBridge for MacRegistryBridge {
    fn read_screenshot_folder(&self) -> (r: Result<PathBuf>)
        ensures
            r matches Err(e) && not_on_macos(e, "read_screenshot_folder"@),
    {
        Err(PlatformError::not_implemented("read_screenshot_folder", MACOS))
    }

    fn write_screenshot_folder(&self, _folder: &Path) -> (r: Result<()>)
        ensures
            r matches Err(e) && not_on_macos(e, "write_screenshot_folder"@),
    {
        Err(PlatformError::not_implemented("write_screenshot_folder", MACOS))
    }

    fn restore_screenshot_folder(&self, _original_folder: &Path) -> (r: Result<()>)
        ensures
            r matches Err(e) && not_on_macos(e, "restore_screenshot_folder"@),
    {
        Err(PlatformError::not_implemented("restore_screenshot_folder", MACOS))
    }

    fn detect_and_restore_stale_redirects(&self) -> (r: Result<()>)
        ensures
            r matches Err(e) && not_on_macos(e, "detect_and_restore_stale_redirects"@),
    {
        Err(PlatformError::not_implemented("detect_and_restore_stale_redirects", MACOS))
    }
}

/// Sign-in startup on macOS.
pub struct MacPlatform;

impl Platform for MacPlatform {
    fn enable_startup(&self) -> (r: Result<()>)
        ensures
            r matches Err(e) && not_on_macos(e, "enable_startup"@),
    {
        Err(PlatformError::not_implemented("enable_startup", MACOS))
    }

    fn disable_startup(&self) -> (r: Result<()>)
        ensures
            r matches Err(e) && not_on_macos(e, "disable_startup"@),
    {
        Err(PlatformError::not_implemented("disable_startup", MACOS))
    }
}

} // verus!

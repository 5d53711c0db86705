//! Platform-specific operations behind traits: starting the screenshot
//! tool, redirecting the screenshot folder and sign-in startup. The
//! portable implementations here report every operation as not available.
//! The Windows implementations (registry, Win32 key simulation) are not
//! part of this build; the order in which Windows tries ways of starting
//! the screenshot tool is kept in `capture`.
use vstd::prelude::*;

pub mod error;
pub mod capture;
pub mod registry;
pub mod macos;

pub use capture::CaptureBridge;
pub use error::{PlatformError, Result};
pub use macos::{MacCaptureBridge, MacPlatform, MacRegistryBridge};
pub use registry::{Platform, RegistryBridge};

verus! {

/// The capture bridge of the portable build: the macOS one.
pub open spec fn portable_capture_bridge() -> Box<dyn CaptureBridge> {
    Box::new(MacCaptureBridge {})
}

/// The capture bridge of the portable build.
pub fn get_capture_bridge() -> (r: Box<dyn CaptureBridge>)
    ensures
        r == portable_capture_bridge(),
{
    let m = MacCaptureBridge::new();
    let b: Box<dyn CaptureBridge> = Box::new(m);
    return b;
}

/// The screenshot folder bridge of the portable build: the macOS one.
pub open spec fn portable_registry_bridge() -> Box<dyn RegistryBridge> {
    Box::new(MacRegistryBridge {})
}

/// The screenshot folder bridge of the portable build.
pub fn get_registry_bridge() -> (r: Box<dyn RegistryBridge>)
    ensures
        r == portable_registry_bridge(),
{
    let m = MacRegistryBridge::new();
    let b: Box<dyn RegistryBridge> = Box::new(m);
    return b;
}

} // verus!

use std::path::PathBuf;
use unbroken_qa_capture::platform::capture::{
    after_trigger_attempt, first_trigger_method, TriggerMethod, TriggerStep,
};
use unbroken_qa_capture::platform::registry::expand_env_vars;
use unbroken_qa_capture::platform::{
    get_capture_bridge, get_registry_bridge, CaptureBridge, MacCaptureBridge, MacPlatform,
    MacRegistryBridge, Platform, PlatformError, RegistryBridge,
};

fn assert_not_implemented<T: std::fmt::Debug>(result: Result<T, PlatformError>, op: &str) {
    assert!(result.is_err());
    match result.unwrap_err() {
        PlatformError::NotImplemented { operation, platform } => {
            assert_eq!(operation, op);
            assert_eq!(platform, "macOS");
        }
        _ => panic!("Expected NotImplemented error"),
    }
}

#[test]
fn test_macos_capture_bridge_returns_not_implemented() {
    let bridge = MacCaptureBridge::new();
    assert_not_implemented(bridge.trigger_screenshot(), "trigger_screenshot");
}

#[test]
fn test_macos_registry_bridge_returns_not_implemented() {
    let bridge = MacRegistryBridge::new();
    let temp_path = PathBuf::from("/tmp/test");
    assert_not_implemented(bridge.read_screenshot_folder(), "read_screenshot_folder");
    assert_not_implemented(bridge.write_screenshot_folder(&temp_path), "write_screenshot_folder");
    assert_not_implemented(bridge.restore_screenshot_folder(&temp_path), "restore_screenshot_folder");
    assert_not_implemented(
        bridge.detect_and_restore_stale_redirects(),
        "detect_and_restore_stale_redirects",
    );
}

#[test]
fn test_macos_bridges_default_constructors() {
    let _capture_bridge = MacCaptureBridge::default();
    let _registry_bridge = MacRegistryBridge::default();
}

#[test]
fn test_capture_bridge_instantiation() {
    let _bridge = get_capture_bridge();
}

// ── further cases ───────────────────────────────────────────────────────

#[test]
fn portable_bridges_and_startup_report_not_implemented() {
    assert_not_implemented(get_capture_bridge().trigger_screenshot(), "trigger_screenshot");
    assert_not_implemented(get_registry_bridge().read_screenshot_folder(), "read_screenshot_folder");
    assert_not_implemented(MacPlatform.enable_startup(), "enable_startup");
    assert_not_implemented(MacPlatform.disable_startup(), "disable_startup");
}

#[test]
fn platform_error_messages() {
    let e = PlatformError::not_implemented("trigger_screenshot", "macOS");
    assert_eq!(e.to_string(), "Operation 'trigger_screenshot' not implemented on macOS");
    let e = PlatformError::RegistryError {
        key: "K".to_string(),
        operation: "write".to_string(),
        message: "denied".to_string(),
    };
    assert_eq!(e.to_string(), "Registry write failed for key 'K': denied");
    let e = PlatformError::from_io_message("disk full".to_string());
    assert_eq!(e.to_string(), "File system io failed for path '': disk full");
    let e = PlatformError::ScreenshotTriggerError { method: "uri".to_string(), message: "m".to_string() };
    assert_eq!(e.to_string(), "Screenshot trigger 'uri' failed: m");
    let e = PlatformError::InvalidArgument { parameter: "p".to_string(), message: "m".to_string() };
    assert_eq!(e.to_string(), "Invalid argument 'p': m");
    let e = PlatformError::Other { message: "m".to_string() };
    assert_eq!(e.to_string(), "Platform error: m");
}

#[test]
fn expand_env_vars_replaces_known_variables() {
    assert_eq!(
        expand_env_vars("%USERPROFILE%\\Pictures", Some("C:\\Users\\qa"), None, None),
        "C:\\Users\\qa\\Pictures"
    );
    assert_eq!(
        expand_env_vars("C:\\Absolute\\Path", Some("C:\\Users\\qa"), Some("X"), Some("Y")),
        "C:\\Absolute\\Path"
    );
    assert_eq!(
        expand_env_vars("%APPDATA%\\a;%LOCALAPPDATA%\\b", None, Some("R"), Some("L")),
        "R\\a;L\\b"
    );
    assert_eq!(
        expand_env_vars("%USERPROFILE%\\x", None, Some("R"), None),
        "%USERPROFILE%\\x"
    );
}

#[test]
fn screenshot_trigger_falls_back_in_order() {
    assert_eq!(first_trigger_method(), TriggerMethod::Uri);
    assert!(matches!(after_trigger_attempt(TriggerMethod::Uri, true), TriggerStep::Done));
    assert!(matches!(
        after_trigger_attempt(TriggerMethod::Uri, false),
        TriggerStep::Try(TriggerMethod::Process)
    ));
    assert!(matches!(
        after_trigger_attempt(TriggerMethod::Process, false),
        TriggerStep::Try(TriggerMethod::KeySimulation)
    ));
    assert!(matches!(after_trigger_attempt(TriggerMethod::KeySimulation, true), TriggerStep::Done));
    match after_trigger_attempt(TriggerMethod::KeySimulation, false) {
        TriggerStep::Fail(PlatformError::ScreenshotTriggerError { method, message }) => {
            assert_eq!(method, "all");
            assert_eq!(message, "All screenshot trigger methods failed (URI, process, key simulation)");
        }
        other => panic!("unexpected {other:?}"),
    }
}

/// Triggering the screenshot tool returns a well-formed result and does not
/// panic, whether or not the tool could be started.
#[test]
fn test_trigger_screenshot_returns_valid_result() {
    let bridge = get_capture_bridge();
    let result = bridge.trigger_screenshot();
    match result {
        Ok(_) => {
            println!("✓ Screenshot trigger succeeded");
        }
        Err(e) => {
            println!("⚠ Screenshot trigger failed (expected in some environments): {:?}", e);
        }
    }
}

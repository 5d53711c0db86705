use std::collections::HashSet;
use unbroken_qa_capture::hotkey::{HotkeyAction, HotkeyConfig, HotkeyManager, ShortcutMap};

const ALL_ACTIONS: [HotkeyAction; 5] = [
    HotkeyAction::ToggleSession,
    HotkeyAction::StartBugCapture,
    HotkeyAction::EndBugCapture,
    HotkeyAction::OpenQuickNotepad,
    HotkeyAction::OpenSessionNotepad,
];

#[test]
fn test_hotkey_action_event_names() {
    assert_eq!(HotkeyAction::ToggleSession.event_name(), "hotkey-toggle-session");
    assert_eq!(HotkeyAction::StartBugCapture.event_name(), "hotkey-start-bug-capture");
    assert_eq!(HotkeyAction::EndBugCapture.event_name(), "hotkey-end-bug-capture");
    assert_eq!(HotkeyAction::OpenQuickNotepad.event_name(), "hotkey-open-quick-notepad");
    assert_eq!(HotkeyAction::OpenSessionNotepad.event_name(), "hotkey-open-session-notepad");
}

#[test]
fn test_hotkey_action_descriptions() {
    assert_eq!(HotkeyAction::ToggleSession.description(), "Toggle Session");
    assert_eq!(HotkeyAction::StartBugCapture.description(), "Start Bug Capture");
    assert_eq!(HotkeyAction::EndBugCapture.description(), "End Bug Capture");
    assert_eq!(HotkeyAction::OpenQuickNotepad.description(), "Open Quick Notepad");
    assert_eq!(HotkeyAction::OpenSessionNotepad.description(), "Open Session Notepad");
}

#[test]
fn test_default_config() {
    let config = HotkeyConfig::default();
    assert_eq!(config.shortcuts.get(&HotkeyAction::ToggleSession), Some(&"Ctrl+Shift+Q".to_string()));
    assert_eq!(config.shortcuts.get(&HotkeyAction::StartBugCapture), Some(&"PrintScreen".to_string()));
    assert_eq!(config.shortcuts.get(&HotkeyAction::EndBugCapture), Some(&"F4".to_string()));
    assert_eq!(config.shortcuts.get(&HotkeyAction::OpenQuickNotepad), Some(&"Ctrl+Shift+N".to_string()));
    assert_eq!(config.shortcuts.get(&HotkeyAction::OpenSessionNotepad), Some(&"Ctrl+Shift+M".to_string()));
}

#[test]
fn test_hotkey_manager_creation() {
    let manager = HotkeyManager::new();
    let config = manager.get_config();
    assert_eq!(config.shortcuts.len(), 5);
}

#[test]
fn test_hotkey_manager_with_custom_config() {
    let mut shortcuts = ShortcutMap::new();
    shortcuts.insert(HotkeyAction::ToggleSession, "Ctrl+Alt+T".to_string());
    let custom_config = HotkeyConfig { shortcuts };
    let manager = HotkeyManager::with_config(custom_config);
    let config = manager.get_config();
    assert_eq!(config.shortcuts.get(&HotkeyAction::ToggleSession), Some(&"Ctrl+Alt+T".to_string()));
}

#[test]
fn hotkey_test_is_registered_initially_false() {
    let manager = HotkeyManager::new();
    assert!(!manager.is_registered("Ctrl+Shift+Q"));
}

#[test]
fn test_all_actions_have_unique_event_names() {
    let event_names: HashSet<_> = ALL_ACTIONS.iter().map(|a| a.event_name()).collect();
    assert_eq!(event_names.len(), 5);
}

#[test]
fn test_all_actions_have_unique_descriptions() {
    let descriptions: HashSet<_> = ALL_ACTIONS.iter().map(|a| a.description()).collect();
    assert_eq!(descriptions.len(), 5);
}

#[test]
fn test_config_clone() {
    let config1 = HotkeyConfig::default();
    let config2 = config1.clone();
    assert_eq!(
        config1.shortcuts.get(&HotkeyAction::ToggleSession),
        config2.shortcuts.get(&HotkeyAction::ToggleSession)
    );
}

#[test]
fn test_manager_initialization() {
    let manager = HotkeyManager::new();
    let config = manager.get_config();
    assert!(config.shortcuts.contains_key(&HotkeyAction::ToggleSession));
    assert!(config.shortcuts.contains_key(&HotkeyAction::StartBugCapture));
    assert!(config.shortcuts.contains_key(&HotkeyAction::EndBugCapture));
    assert!(config.shortcuts.contains_key(&HotkeyAction::OpenQuickNotepad));
    assert!(config.shortcuts.contains_key(&HotkeyAction::OpenSessionNotepad));
}

#[test]
fn test_custom_config_initialization() {
    let mut shortcuts = ShortcutMap::new();
    shortcuts.insert(HotkeyAction::ToggleSession, "Alt+F1".to_string());
    shortcuts.insert(HotkeyAction::StartBugCapture, "Alt+F2".to_string());
    let custom_config = HotkeyConfig { shortcuts };
    let manager = HotkeyManager::with_config(custom_config.clone());
    let retrieved_config = manager.get_config();
    assert_eq!(retrieved_config.shortcuts.get(&HotkeyAction::ToggleSession), Some(&"Alt+F1".to_string()));
    assert_eq!(retrieved_config.shortcuts.get(&HotkeyAction::StartBugCapture), Some(&"Alt+F2".to_string()));
}

#[test]
fn test_event_name_mapping() {
    let actions = vec![
        (HotkeyAction::ToggleSession, "hotkey-toggle-session"),
        (HotkeyAction::StartBugCapture, "hotkey-start-bug-capture"),
        (HotkeyAction::EndBugCapture, "hotkey-end-bug-capture"),
        (HotkeyAction::OpenQuickNotepad, "hotkey-open-quick-notepad"),
        (HotkeyAction::OpenSessionNotepad, "hotkey-open-session-notepad"),
    ];
    for (action, expected_event) in actions {
        assert_eq!(action.event_name(), expected_event);
    }
}

#[test]
fn test_description_mapping() {
    let actions = vec![
        (HotkeyAction::ToggleSession, "Toggle Session"),
        (HotkeyAction::StartBugCapture, "Start Bug Capture"),
        (HotkeyAction::EndBugCapture, "End Bug Capture"),
        (HotkeyAction::OpenQuickNotepad, "Open Quick Notepad"),
        (HotkeyAction::OpenSessionNotepad, "Open Session Notepad"),
    ];
    for (action, expected_desc) in actions {
        assert_eq!(action.description(), expected_desc);
    }
}

#[test]
fn test_config_update() {
    let manager = HotkeyManager::new();
    let original_config = manager.get_config();
    let mut new_shortcuts = ShortcutMap::new();
    new_shortcuts.insert(HotkeyAction::ToggleSession, "Ctrl+Alt+S".to_string());
    new_shortcuts.insert(HotkeyAction::StartBugCapture, "Ctrl+Alt+B".to_string());
    new_shortcuts.insert(HotkeyAction::EndBugCapture, "Ctrl+Alt+E".to_string());
    new_shortcuts.insert(HotkeyAction::OpenQuickNotepad, "Ctrl+Alt+Q".to_string());
    new_shortcuts.insert(HotkeyAction::OpenSessionNotepad, "Ctrl+Alt+M".to_string());
    let new_config = HotkeyConfig { shortcuts: new_shortcuts };
    assert_ne!(
        original_config.shortcuts.get(&HotkeyAction::ToggleSession),
        new_config.shortcuts.get(&HotkeyAction::ToggleSession)
    );
}

#[test]
fn hotkey_tests_test_is_registered_initially_false() {
    let manager = HotkeyManager::new();
    assert!(!manager.is_registered("F5"));
    assert!(!manager.is_registered("F7"));
    assert!(!manager.is_registered("F9"));
}

#[test]
fn test_all_actions_covered() {
    let config = HotkeyConfig::default();
    let expected_count = 5;
    assert_eq!(config.shortcuts.len(), expected_count);
}

#[test]
fn test_manager_clone_independence() {
    let manager1 = HotkeyManager::new();
    let config1 = manager1.get_config();
    let mut new_shortcuts = ShortcutMap::new();
    new_shortcuts.insert(HotkeyAction::ToggleSession, "Alt+T".to_string());
    let config2 = HotkeyConfig { shortcuts: new_shortcuts };
    let manager2 = HotkeyManager::with_config(config2);
    let retrieved_config2 = manager2.get_config();
    let retrieved_config1 = manager1.get_config();
    assert_eq!(
        config1.shortcuts.get(&HotkeyAction::ToggleSession),
        retrieved_config1.shortcuts.get(&HotkeyAction::ToggleSession)
    );
    assert_ne!(
        retrieved_config1.shortcuts.get(&HotkeyAction::ToggleSession),
        retrieved_config2.shortcuts.get(&HotkeyAction::ToggleSession)
    );
}

#[test]
fn test_empty_config() {
    let empty_config = HotkeyConfig { shortcuts: ShortcutMap::new() };
    let manager = HotkeyManager::with_config(empty_config);
    let config = manager.get_config();
    assert_eq!(config.shortcuts.len(), 0);
}

#[test]
fn test_partial_config() {
    let mut shortcuts = ShortcutMap::new();
    shortcuts.insert(HotkeyAction::ToggleSession, "F1".to_string());
    let partial_config = HotkeyConfig { shortcuts };
    let manager = HotkeyManager::with_config(partial_config);
    let config = manager.get_config();
    assert_eq!(config.shortcuts.len(), 1);
    assert_eq!(config.shortcuts.get(&HotkeyAction::ToggleSession), Some(&"F1".to_string()));
    assert_eq!(config.shortcuts.get(&HotkeyAction::StartBugCapture), None);
}

#[test]
fn test_config_with_duplicate_shortcuts() {
    let mut shortcuts = ShortcutMap::new();
    shortcuts.insert(HotkeyAction::ToggleSession, "F1".to_string());
    shortcuts.insert(HotkeyAction::StartBugCapture, "F1".to_string());
    let config = HotkeyConfig { shortcuts };
    let manager = HotkeyManager::with_config(config);
    let retrieved_config = manager.get_config();
    assert_eq!(retrieved_config.shortcuts.get(&HotkeyAction::ToggleSession), Some(&"F1".to_string()));
    assert_eq!(retrieved_config.shortcuts.get(&HotkeyAction::StartBugCapture), Some(&"F1".to_string()));
}

#[test]
fn test_manager_default_trait() {
    let manager1 = HotkeyManager::default();
    let manager2 = HotkeyManager::new();
    let config1 = manager1.get_config();
    let config2 = manager2.get_config();
    for action in ALL_ACTIONS {
        assert_eq!(config1.shortcuts.get(&action), config2.shortcuts.get(&action));
    }
}

// ── further cases ───────────────────────────────────────────────────────

#[test]
fn registration_bookkeeping() {
    let mut manager = HotkeyManager::new();
    assert_eq!(manager.shortcuts_to_register().len(), 5);
    assert_eq!(manager.shortcuts_to_register()[0].0, HotkeyAction::ToggleSession);
    manager.record_registered(vec!["Ctrl+Shift+Q".to_string(), "F4".to_string()]);
    assert!(manager.is_registered("F4"));
    assert!(!manager.is_registered("PrintScreen"));
    let mut shortcuts = ShortcutMap::new();
    shortcuts.insert(HotkeyAction::EndBugCapture, "F8".to_string());
    manager.set_config(HotkeyConfig { shortcuts });
    assert!(manager.is_registered("F4"));
    assert_eq!(manager.shortcuts_to_register().len(), 1);
    assert_eq!(
        HotkeyManager::registration_failure("Bad+Key", &HotkeyAction::OpenQuickNotepad, "Invalid shortcut format: x"),
        "Failed to register 'Bad+Key' for Open Quick Notepad: Invalid shortcut format: x"
    );
}

#[test]
fn insert_replaces_and_returns_previous() {
    let mut shortcuts = ShortcutMap::new();
    assert_eq!(shortcuts.insert(HotkeyAction::EndBugCapture, "F4".to_string()), None);
    assert_eq!(shortcuts.insert(HotkeyAction::EndBugCapture, "F6".to_string()), Some("F4".to_string()));
    assert_eq!(shortcuts.len(), 1);
    assert_eq!(shortcuts.get(&HotkeyAction::EndBugCapture), Some(&"F6".to_string()));
}

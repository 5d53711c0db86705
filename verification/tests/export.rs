use unbroken_qa_capture::export::{bug_folder_number, sort_bug_folders, tickets_ready_content};
use unbroken_qa_capture::text::parse_i32;
use unbroken_qa_capture::tray::{
    tray_icon_for_state, tray_menu_action, tray_menu_items, TrayIcon, TrayMenuAction,
};

#[test]
fn bug_folder_numbers() {
    assert_eq!(bug_folder_number("bug_001"), Some(1));
    assert_eq!(bug_folder_number("bug_42"), Some(42));
    assert_eq!(bug_folder_number("bug_-3"), Some(-3));
    assert_eq!(bug_folder_number("bug_"), None);
    assert_eq!(bug_folder_number("bug_x1"), None);
    assert_eq!(bug_folder_number("_unsorted"), None);
    assert_eq!(bug_folder_number("Bug_001"), None);
}

#[test]
fn i32_parsing_matches_std() {
    for s in ["0", "+7", "-0", "2147483647", "-2147483648", "2147483648", "-2147483649", "", "-", "+", "1a", " 1", "007", "99999999999999999999"] {
        assert_eq!(parse_i32(s), s.parse::<i32>().ok(), "input {s:?}");
    }
}

#[test]
fn export_orders_bugs_and_separates_them() {
    let sorted = sort_bug_folders(vec![
        (10, "b10".to_string()),
        (2, "b2".to_string()),
        (1, "b1".to_string()),
    ]);
    let numbers: Vec<i32> = sorted.iter().map(|(n, _)| *n).collect();
    assert_eq!(numbers, vec![1, 2, 10]);
    let content = tickets_ready_content(&[
        (1, Some("First".to_string())),
        (2, None),
        (10, Some("Tenth".to_string())),
    ]);
    assert_eq!(
        content,
        "# Bug 001\n\nFirst\n\n---\n\n# Bug 002\n\nNo description available.\n\n---\n\n# Bug 010\n\nTenth"
    );
    assert_eq!(tickets_ready_content(&[]), "");
    assert_eq!(tickets_ready_content(&[(-1, None)]), "# Bug -01\n\nNo description available.");
}

#[test]
fn tray_menus_per_state() {
    let labels = |state: &str, bug: Option<&str>| -> Vec<String> {
        tray_menu_items(state, bug).into_iter().map(|i| i.label).collect()
    };
    assert_eq!(labels("idle", None), vec!["Start Session", "Open App", "Settings", "Quit"]);
    assert_eq!(labels("active", None), vec!["End Session", "Open App", "Quit"]);
    assert_eq!(labels("bug", Some("BUG-003")), vec!["End Bug Capture BUG-003 (F4)", "End Session", "Open App"]);
    assert_eq!(labels("bug", None)[0], "End Bug Capture (F4)");
    assert_eq!(labels("review", None), vec!["Open Review", "Quit"]);
    assert_eq!(labels("weird", None), vec!["Open App", "Quit"]);
    let ids: Vec<String> = tray_menu_items("idle", None).into_iter().map(|i| i.id).collect();
    assert_eq!(ids, vec!["start-session", "open-main-window", "settings", "quit"]);
}

#[test]
fn tray_icon_unknown_state_falls_back_to_idle() {
    assert_eq!(tray_icon_for_state("active"), TrayIcon::Active);
    assert_eq!(tray_icon_for_state("bug"), TrayIcon::Bug);
    assert_eq!(tray_icon_for_state("review"), TrayIcon::Review);
    assert_eq!(tray_icon_for_state("idle"), TrayIcon::Idle);
    assert_eq!(tray_icon_for_state("nonsense"), TrayIcon::Idle);
}

#[test]
fn tray_menu_action_maps_ids_to_events() {
    assert_eq!(tray_menu_action("quit"), TrayMenuAction::Quit);
    assert_eq!(
        tray_menu_action("start-session"),
        TrayMenuAction::ShowAndEmit("tray-menu-start-session".to_string())
    );
    assert_eq!(
        tray_menu_action("new-bug-capture"),
        TrayMenuAction::ShowAndEmit("tray-menu-new-bug".to_string())
    );
    assert_eq!(
        tray_menu_action("open-main-window"),
        TrayMenuAction::ShowAndEmit("tray-window-shown".to_string())
    );
    assert_eq!(
        tray_menu_action("help"),
        TrayMenuAction::ShowAndEmit("tray-menu-help".to_string())
    );
    assert_eq!(tray_menu_action("unknown-id"), TrayMenuAction::Ignore);
}

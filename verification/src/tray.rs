//! The system tray: the menu offered in each application state and the
//! icon shown for it.
use vstd::prelude::*;

use crate::text::str_eq;

verus! {

/// One entry of the tray menu: the id its click is reported with and its label.
#[derive(Debug)]
pub struct TrayMenuItem {
    pub id: String,
    pub label: String,
}

/// The state an application-state name stands for; unknown names stand for
/// no known state.
#[derive(Debug, Clone, Copy, PartialEq, Eq, Structural)]
pub enum TrayState {
    Idle,
    Active,
    Bug,
    Review,
    Unknown,
}

/// The state a name stands for.
pub open spec fn tray_state_of(name: Seq<char>) -> TrayState {
    if name == "idle"@ {
        TrayState::Idle
    } else if name == "active"@ {
        TrayState::Active
    } else if name == "bug"@ {
        TrayState::Bug
    } else if name == "review"@ {
        TrayState::Review
    } else {
        TrayState::Unknown
    }
}

/// The tray icons.
#[derive(Debug, Clone, Copy, PartialEq, Eq, Structural)]
pub enum TrayIcon {
    Idle,
    Active,
    Bug,
    Review,
}

/// The icon for a state; unknown states show the idle icon.
pub open spec fn icon_of(state: TrayState) -> TrayIcon {
    match state {
        TrayState::Active => TrayIcon::Active,
        TrayState::Bug => TrayIcon::Bug,
        TrayState::Review => TrayIcon::Review,
        _ => TrayIcon::Idle,
    }
}

/// The label of the item that ends the current bug capture.
pub open spec fn end_bug_label(bug_id: Option<Seq<char>>) -> Seq<char> {
    match bug_id {
        Some(id) => "End Bug Capture "@ + id + " (F4)"@,
        None => "End Bug Capture (F4)"@,
    }
}

/// The ids and labels of the menu for a state, in order.
pub open spec fn menu_of(state: TrayState, bug_id: Option<Seq<char>>) -> Seq<(Seq<char>, Seq<char>)> {
    match state {
        TrayState::Idle => seq![
            ("start-session"@, "Start Session"@),
            ("open-main-window"@, "Open App"@),
            ("settings"@, "Settings"@),
            ("quit"@, "Quit"@),
        ],
        TrayState::Active => seq![
            ("end-session"@, "End Session"@),
            ("open-main-window"@, "Open App"@),
            ("quit"@, "Quit"@),
        ],
        TrayState::Bug => seq![
            ("end-bug-capture"@, end_bug_label(bug_id)),
            ("end-session"@, "End Session"@),
            ("open-main-window"@, "Open App"@),
        ],
        TrayState::Review => seq![
            ("open-review"@, "Open Review"@),
            ("quit"@, "Quit"@),
        ],
        TrayState::Unknown => seq![
            ("open-main-window"@, "Open App"@),
            ("quit"@, "Quit"@),
        ],
    }
}

/// The ids and labels of a list of menu items.
pub open spec fn items_view(items: Seq<TrayMenuItem>) -> Seq<(Seq<char>, Seq<char>)> {
    items.map_values(|it: TrayMenuItem| (it.id@, it.label@))
}

/// The state an application-state name stands for.
pub fn tray_state(name: &str) -> (r: TrayState)
    ensures
        r == tray_state_of(name@),
{
    if str_eq(name, "idle") {
        TrayState::Idle
    } else if str_eq(name, "active") {
        TrayState::Active
    } else if str_eq(name, "bug") {
        TrayState::Bug
    } else if str_eq(name, "review") {
        TrayState::Review
    } else {
        TrayState::Unknown
    }
}

/// The icon shown in the application state named `state`.
pub fn tray_icon_for_state(state: &str) -> (r: TrayIcon)
    ensures
        r == icon_of(tray_state_of(state@)),
{
    match tray_state(state) {
        TrayState::Active => TrayIcon::Active,
        TrayState::Bug => TrayIcon::Bug,
        TrayState::Review => TrayIcon::Review,
        _ => TrayIcon::Idle,
    }
}

fn item(id: &str, label: &str) -> (r: TrayMenuItem)
    ensures
        r.id@ == id@,
        r.label@ == label@,
{
    TrayMenuItem { id: String::from_str(id), label: String::from_str(label) }
}

/// The tray menu for the application state named `state`; while a bug is
/// captured, its id (if known) is named in the item that ends the capture.
pub fn tray_menu_items(state: &str, bug_id: Option<&str>) -> (r: Vec<TrayMenuItem>)
    ensures
        items_view(r@) == menu_of(
            tray_state_of(state@),
            match bug_id {
                Some(b) => Some(b@),
                None => None,
            },
        ),
{
    let mut v: Vec<TrayMenuItem> = Vec::new();
    match tray_state(state) {
        TrayState::Idle => {
            v.push(item("start-session", "Start Session"));
            v.push(item("open-main-window", "Open App"));
            v.push(item("settings", "Settings"));
            v.push(item("quit", "Quit"));
        },
        TrayState::Active => {
            v.push(item("end-session", "End Session"));
            v.push(item("open-main-window", "Open App"));
            v.push(item("quit", "Quit"));
        },
        TrayState::Bug => {
            let label = match bug_id {
                Some(id) => {
                    let mut l = String::from_str("End Bug Capture ");
                    l.append(id);
                    l.append(" (F4)");
                    l
                },
                None => String::from_str("End Bug Capture (F4)"),
            };
            v.push(TrayMenuItem { id: String::from_str("end-bug-capture"), label });
            v.push(item("end-session", "End Session"));
            v.push(item("open-main-window", "Open App"));
        },
        TrayState::Review => {
            v.push(item("open-review", "Open Review"));
            v.push(item("quit", "Quit"));
        },
        TrayState::Unknown => {
            v.push(item("open-main-window", "Open App"));
            v.push(item("quit", "Quit"));
        },
    }
    assert(items_view(v@) =~= menu_of(
        tray_state_of(state@),
        match bug_id {
            Some(b) => Some(b@),
            None => None,
        },
    ));
    v
}

/// What clicking a tray menu item does: show the main window and tell the
/// frontend with an event, or quit the application.
#[derive(Debug, PartialEq, Eq)]
pub enum TrayMenuAction {
    /// Show and focus the main window, then emit this event.
    ShowAndEmit(String),
    /// Exit the application.
    Quit,
    /// Nothing: the id is not one of the menu's.
    Ignore,
}

/// The event emitted for a menu item id that shows the main window.
pub open spec fn menu_event_of(id: Seq<char>) -> Option<Seq<char>> {
    if id == "start-session"@ {
        Some("tray-menu-start-session"@)
    } else if id == "new-bug-capture"@ {
        Some("tray-menu-new-bug"@)
    } else if id == "open-main-window"@ {
        Some("tray-window-shown"@)
    } else if id == "settings"@ {
        Some("tray-menu-settings"@)
    } else if id == "end-session"@ {
        Some("tray-menu-end-session"@)
    } else if id == "end-bug-capture"@ {
        Some("tray-menu-end-bug-capture"@)
    } else if id == "open-review"@ {
        Some("tray-menu-open-review"@)
    } else if id == "help"@ {
        Some("tray-menu-help"@)
    } else {
        None
    }
}

/// What a click on the menu item with this id does.
pub fn tray_menu_action(id: &str) -> (r: TrayMenuAction)
    ensures
        id@ == "quit"@ ==> r == TrayMenuAction::Quit,
        id@ != "quit"@ ==> match menu_event_of(id@) {
            Some(e) => r matches TrayMenuAction::ShowAndEmit(ev) && ev@ == e,
            None => r == TrayMenuAction::Ignore,
        },
{
    if str_eq(id, "quit") {
        return TrayMenuAction::Quit;
    }
    if str_eq(id, "start-session") {
        TrayMenuAction::ShowAndEmit(String::from_str("tray-menu-start-session"))
    } else if str_eq(id, "new-bug-capture") {
        TrayMenuAction::ShowAndEmit(String::from_str("tray-menu-new-bug"))
    } else if str_eq(id, "open-main-window") {
        TrayMenuAction::ShowAndEmit(String::from_str("tray-window-shown"))
    } else if str_eq(id, "settings") {
        TrayMenuAction::ShowAndEmit(String::from_str("tray-menu-settings"))
    } else if str_eq(id, "end-session") {
        TrayMenuAction::ShowAndEmit(String::from_str("tray-menu-end-session"))
    } else if str_eq(id, "end-bug-capture") {
        TrayMenuAction::ShowAndEmit(String::from_str("tray-menu-end-bug-capture"))
    } else if str_eq(id, "open-review") {
        TrayMenuAction::ShowAndEmit(String::from_str("tray-menu-open-review"))
    } else if str_eq(id, "help") {
        TrayMenuAction::ShowAndEmit(String::from_str("tray-menu-help"))
    } else {
        TrayMenuAction::Ignore
    }
}

} // verus!

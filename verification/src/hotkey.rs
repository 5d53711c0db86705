//! Global hotkeys: the actions they trigger, the shortcut assigned to each
//! action, and the bookkeeping of which shortcuts are registered.
use vstd::prelude::*;

use crate::text::str_eq;

verus! {

/// An action that a hotkey can trigger.
#[derive(Debug, Clone, Copy, PartialEq, Eq, Hash, Structural)]
pub enum HotkeyAction {
    ToggleSession,
    StartBugCapture,
    EndBugCapture,
    OpenQuickNotepad,
    OpenSessionNotepad,
}

/// The event emitted when an action's hotkey is pressed.
pub open spec fn event_name_of(a: HotkeyAction) -> Seq<char> {
    match a {
        HotkeyAction::ToggleSession => "hotkey-toggle-session"@,
        HotkeyAction::StartBugCapture => "hotkey-start-bug-capture"@,
        HotkeyAction::EndBugCapture => "hotkey-end-bug-capture"@,
        HotkeyAction::OpenQuickNotepad => "hotkey-open-quick-notepad"@,
        HotkeyAction::OpenSessionNotepad => "hotkey-open-session-notepad"@,
    }
}

/// The human-readable name of an action.
pub open spec fn description_of(a: HotkeyAction) -> Seq<char> {
    match a {
        HotkeyAction::ToggleSession => "Toggle Session"@,
        HotkeyAction::StartBugCapture => "Start Bug Capture"@,
        HotkeyAction::EndBugCapture => "End Bug Capture"@,
        HotkeyAction::OpenQuickNotepad => "Open Quick Notepad"@,
        HotkeyAction::OpenSessionNotepad => "Open Session Notepad"@,
    }
}

/// Different actions emit different events, so a listener can tell them apart.
pub proof fn lemma_event_names_distinct(a: HotkeyAction, b: HotkeyAction)
    ensures
        event_name_of(a) == event_name_of(b) ==> a == b,
{
    reveal_strlit("hotkey-toggle-session");
    reveal_strlit("hotkey-start-bug-capture");
    reveal_strlit("hotkey-end-bug-capture");
    reveal_strlit("hotkey-open-quick-notepad");
    reveal_strlit("hotkey-open-session-notepad");
    if event_name_of(a) == event_name_of(b) {
        assert(event_name_of(a).len() == event_name_of(b).len());
        assert(event_name_of(a)[7] == event_name_of(b)[7]);
        assert(event_name_of(a)[17] == event_name_of(b)[17]);
    }
}

/// Different actions have different descriptions.
pub proof fn lemma_descriptions_distinct(a: HotkeyAction, b: HotkeyAction)
    ensures
        description_of(a) == description_of(b) ==> a == b,
{
    reveal_strlit("Toggle Session");
    reveal_strlit("Start Bug Capture");
    reveal_strlit("End Bug Capture");
    reveal_strlit("Open Quick Notepad");
    reveal_strlit("Open Session Notepad");
    if description_of(a) == description_of(b) {
        assert(description_of(a).len() == description_of(b).len());
        assert(description_of(a)[0] == description_of(b)[0]);
        assert(description_of(a)[5] == description_of(b)[5]);
    }
}

impl HotkeyAction {
    /// The event emitted when this action's hotkey is pressed.
    pub fn event_name(&self) -> (r: &'static str)
        ensures
            r@ == event_name_of(*self),
    {
        match self {
            HotkeyAction::ToggleSession => "hotkey-toggle-session",
            HotkeyAction::StartBugCapture => "hotkey-start-bug-capture",
            HotkeyAction::EndBugCapture => "hotkey-end-bug-capture",
            HotkeyAction::OpenQuickNotepad => "hotkey-open-quick-notepad",
            HotkeyAction::OpenSessionNotepad => "hotkey-open-session-notepad",
        }
    }

    /// The human-readable name of this action.
    pub fn description(&self) -> (r: &'static str)
        ensures
            r@ == description_of(*self),
    {
        match self {
            HotkeyAction::ToggleSession => "Toggle Session",
            HotkeyAction::StartBugCapture => "Start Bug Capture",
            HotkeyAction::EndBugCapture => "End Bug Capture",
            HotkeyAction::OpenQuickNotepad => "Open Quick Notepad",
            HotkeyAction::OpenSessionNotepad => "Open Session Notepad",
        }
    }
}

/// The shortcut assigned to each action; an action has at most one.
#[derive(Debug)]
pub struct ShortcutMap {
    toggle_session: Option<String>,
    start_bug_capture: Option<String>,
    end_bug_capture: Option<String>,
    open_quick_notepad: Option<String>,
    open_session_notepad: Option<String>,
}

/// Number of assigned shortcuts in one slot.
pub open spec fn slot_count(s: Option<String>) -> nat {
    if s is Some {
        1
    } else {
        0
    }
}

impl ShortcutMap {
    /// The shortcut assigned to `a`, if any.
    pub closed spec fn slot(&self, a: HotkeyAction) -> Option<String> {
        match a {
            HotkeyAction::ToggleSession => self.toggle_session,
            HotkeyAction::StartBugCapture => self.start_bug_capture,
            HotkeyAction::EndBugCapture => self.end_bug_capture,
            HotkeyAction::OpenQuickNotepad => self.open_quick_notepad,
            HotkeyAction::OpenSessionNotepad => self.open_session_notepad,
        }
    }

    /// The number of actions with a shortcut.
    pub open spec fn count(&self) -> nat {
        slot_count(self.slot(HotkeyAction::ToggleSession)) + slot_count(
            self.slot(HotkeyAction::StartBugCapture),
        ) + slot_count(self.slot(HotkeyAction::EndBugCapture)) + slot_count(
            self.slot(HotkeyAction::OpenQuickNotepad),
        ) + slot_count(self.slot(HotkeyAction::OpenSessionNotepad))
    }

    /// A map with no shortcuts.
    pub fn new() -> (r: Self)
        ensures
            forall|a: HotkeyAction| #[trigger] r.slot(a) is None,
            r.count() == 0,
    {
        ShortcutMap {
            toggle_session: None,
            start_bug_capture: None,
            end_bug_capture: None,
            open_quick_notepad: None,
            open_session_notepad: None,
        }
    }

    /// Assigns `shortcut` to `action`, giving back the shortcut it replaces.
    pub fn insert(&mut self, action: HotkeyAction, shortcut: String) -> (r: Option<String>)
        ensures
            r == old(self).slot(action),
            final(self).slot(action) == Some(shortcut),
            forall|a: HotkeyAction| a != action ==> #[trigger] final(self).slot(a) == old(self).slot(a),
            final(self).count() == old(self).count() + (if r is None {
                1nat
            } else {
                0nat
            }),
    {
        let slot = match action {
            HotkeyAction::ToggleSession => &mut self.toggle_session,
            HotkeyAction::StartBugCapture => &mut self.start_bug_capture,
            HotkeyAction::EndBugCapture => &mut self.end_bug_capture,
            HotkeyAction::OpenQuickNotepad => &mut self.open_quick_notepad,
            HotkeyAction::OpenSessionNotepad => &mut self.open_session_notepad,
        };
        let old_value = slot.take();
        *slot = Some(shortcut);
        old_value
    }

    /// The shortcut assigned to `action`, if any.
    pub fn get(&self, action: &HotkeyAction) -> (r: Option<&String>)
        ensures
            match self.slot(*action) {
                Some(s) => r == Some(&s),
                None => r is None,
            },
    {
        let slot = match action {
            HotkeyAction::ToggleSession => &self.toggle_session,
            HotkeyAction::StartBugCapture => &self.start_bug_capture,
            HotkeyAction::EndBugCapture => &self.end_bug_capture,
            HotkeyAction::OpenQuickNotepad => &self.open_quick_notepad,
            HotkeyAction::OpenSessionNotepad => &self.open_session_notepad,
        };
        match slot {
            Some(s) => Some(s),
            None => None,
        }
    }

    /// Whether `action` has a shortcut.
    pub fn contains_key(&self, action: &HotkeyAction) -> (r: bool)
        ensures
            r == self.slot(*action) is Some,
    {
        self.get(action).is_some()
    }

    /// The number of actions with a shortcut.
    pub fn len(&self) -> (r: usize)
        ensures
            r == self.count(),
    {
        let mut n: usize = 0;
        if self.toggle_session.is_some() {
            n = n + 1;
        }
        if self.start_bug_capture.is_some() {
            n = n + 1;
        }
        if self.end_bug_capture.is_some() {
            n = n + 1;
        }
        if self.open_quick_notepad.is_some() {
            n = n + 1;
        }
        if self.open_session_notepad.is_some() {
            n = n + 1;
        }
        n
    }

    /// The assigned shortcuts, in the order in which the actions are declared.
    pub fn entries(&self) -> (r: Vec<(HotkeyAction, String)>)
        ensures
            r@.len() == self.count(),
            forall|i: int|
                0 <= i < r@.len() ==> self.slot(#[trigger] r@[i].0) == Some(r@[i].1),
            forall|i: int, j: int| 0 <= i < j < r@.len() ==> r@[i].0 != r@[j].0,
            forall|a: HotkeyAction|
                #[trigger] self.slot(a) is Some ==> exists|i: int| 0 <= i < r@.len() && r@[i].0 == a,
    {
        let mut r: Vec<(HotkeyAction, String)> = Vec::new();
        if let Some(s) = &self.toggle_session {
            r.push((HotkeyAction::ToggleSession, s.clone()));
        }
        if let Some(s) = &self.start_bug_capture {
            r.push((HotkeyAction::StartBugCapture, s.clone()));
        }
        if let Some(s) = &self.end_bug_capture {
            r.push((HotkeyAction::EndBugCapture, s.clone()));
        }
        if let Some(s) = &self.open_quick_notepad {
            r.push((HotkeyAction::OpenQuickNotepad, s.clone()));
        }
        if let Some(s) = &self.open_session_notepad {
            r.push((HotkeyAction::OpenSessionNotepad, s.clone()));
        }
        proof {
            assert forall|a: HotkeyAction| #[trigger] self.slot(a) is Some implies exists|i: int|
                0 <= i < r@.len() && r@[i].0 == a by {
                match a {
                    HotkeyAction::ToggleSession => { assert(r@[0].0 == a); },
                    HotkeyAction::StartBugCapture => {
                        let i = slot_count(self.toggle_session) as int;
                        assert(r@[i].0 == a);
                    },
                    HotkeyAction::EndBugCapture => {
                        let i = (slot_count(self.toggle_session) + slot_count(self.start_bug_capture)) as int;
                        assert(r@[i].0 == a);
                    },
                    HotkeyAction::OpenQuickNotepad => {
                        let i = (slot_count(self.toggle_session) + slot_count(self.start_bug_capture)
                            + slot_count(self.end_bug_capture)) as int;
                        assert(r@[i].0 == a);
                    },
                    HotkeyAction::OpenSessionNotepad => {
                        let i = (r@.len() - 1) as int;
                        assert(r@[i].0 == a);
                    },
                }
            }
        }
        r
    }
}

impl Clone for ShortcutMap {
    fn clone(&self) -> (r: Self)
        ensures
            r == *self,
    {
        ShortcutMap {
            toggle_session: match &self.toggle_session {
                Some(s) => Some(s.clone()),
                None => None,
            },
            start_bug_capture: match &self.start_bug_capture {
                Some(s) => Some(s.clone()),
                None => None,
            },
            end_bug_capture: match &self.end_bug_capture {
                Some(s) => Some(s.clone()),
                None => None,
            },
            open_quick_notepad: match &self.open_quick_notepad {
                Some(s) => Some(s.clone()),
                None => None,
            },
            open_session_notepad: match &self.open_session_notepad {
                Some(s) => Some(s.clone()),
                None => None,
            },
        }
    }
}

/// The hotkey configuration: a shortcut for each configured action.
#[derive(Debug)]
pub struct HotkeyConfig {
    pub shortcuts: ShortcutMap,
}

impl Clone for HotkeyConfig {
    fn clone(&self) -> (r: Self)
        ensures
            r == *self,
    {
        HotkeyConfig { shortcuts: self.shortcuts.clone() }
    }
}

/// The shortcut each action has by default.
pub open spec fn default_shortcut(a: HotkeyAction) -> Seq<char> {
    match a {
        HotkeyAction::ToggleSession => "Ctrl+Shift+Q"@,
        HotkeyAction::StartBugCapture => "PrintScreen"@,
        HotkeyAction::EndBugCapture => "F4"@,
        HotkeyAction::OpenQuickNotepad => "Ctrl+Shift+N"@,
        HotkeyAction::OpenSessionNotepad => "Ctrl+Shift+M"@,
    }
}

/// True for the default configuration: every action has its default shortcut.
pub open spec fn is_default_config(c: HotkeyConfig) -> bool {
    forall|a: HotkeyAction|
        #[trigger] c.shortcuts.slot(a) is Some && c.shortcuts.slot(a)->0@ == default_shortcut(a)
}

impl Default for HotkeyConfig {
    fn default() -> (r: Self)
        ensures
            is_default_config(r),
            r.shortcuts.count() == 5,
    {
        let mut shortcuts = ShortcutMap::new();
        shortcuts.insert(HotkeyAction::ToggleSession, String::from_str("Ctrl+Shift+Q"));
        shortcuts.insert(HotkeyAction::StartBugCapture, String::from_str("PrintScreen"));
        shortcuts.insert(HotkeyAction::EndBugCapture, String::from_str("F4"));
        shortcuts.insert(HotkeyAction::OpenQuickNotepad, String::from_str("Ctrl+Shift+N"));
        shortcuts.insert(HotkeyAction::OpenSessionNotepad, String::from_str("Ctrl+Shift+M"));
        let r = HotkeyConfig { shortcuts };
        assert forall|a: HotkeyAction|
            #[trigger] r.shortcuts.slot(a) is Some && r.shortcuts.slot(a)->0@ == default_shortcut(
                a,
            ) by {
            match a {
                HotkeyAction::ToggleSession => {},
                HotkeyAction::StartBugCapture => {},
                HotkeyAction::EndBugCapture => {},
                HotkeyAction::OpenQuickNotepad => {},
                HotkeyAction::OpenSessionNotepad => {},
            }
        }
        r
    }
}

/// The hotkey configuration together with the shortcuts currently registered.
pub struct HotkeyManager {
    config: HotkeyConfig,
    registered_shortcuts: Vec<String>,
}

/// The message for a shortcut that could not be registered for `action`.
pub open spec fn registration_failure_text(
    shortcut: Seq<char>,
    action: HotkeyAction,
    error: Seq<char>,
) -> Seq<char> {
    "Failed to register '"@ + shortcut + "' for "@ + description_of(action) + ": "@ + error
}

impl HotkeyManager {
    /// The configuration in use.
    pub closed spec fn config_view(&self) -> HotkeyConfig {
        self.config
    }

    /// The shortcuts currently registered.
    pub closed spec fn registered_view(&self) -> Seq<Seq<char>> {
        self.registered_shortcuts@.map_values(|s: String| s@)
    }

    /// A manager with the default configuration and nothing registered.
    pub fn new() -> (r: Self)
        ensures
            is_default_config(r.config_view()),
            r.config_view().shortcuts.count() == 5,
            r.registered_view().len() == 0,
    {
        HotkeyManager { config: HotkeyConfig::default(), registered_shortcuts: Vec::new() }
    }

    /// A manager with `config` and nothing registered.
    pub fn with_config(config: HotkeyConfig) -> (r: Self)
        ensures
            r.config_view() == config,
            r.registered_view().len() == 0,
    {
        HotkeyManager { config, registered_shortcuts: Vec::new() }
    }

    /// A copy of the configuration in use.
    pub fn get_config(&self) -> (r: HotkeyConfig)
        ensures
            r == self.config_view(),
    {
        self.config.clone()
    }

    /// Whether `shortcut` is among the registered shortcuts.
    pub fn is_registered(&self, shortcut: &str) -> (r: bool)
        ensures
            r == self.registered_view().contains(shortcut@),
    {
        let mut i: usize = 0;
        while i < self.registered_shortcuts.len()
            invariant
                i <= self.registered_shortcuts@.len(),
                forall|j: int| 0 <= j < i ==> self.registered_shortcuts@[j]@ != shortcut@,
            decreases self.registered_shortcuts@.len() - i,
        {
            if str_eq(self.registered_shortcuts[i].as_str(), shortcut) {
                assert(self.registered_view()[i as int] == shortcut@);
                return true;
            }
            i = i + 1;
        }
        assert(!self.registered_view().contains(shortcut@)) by {
            if self.registered_view().contains(shortcut@) {
                let k = choose|k: int|
                    0 <= k < self.registered_view().len() && self.registered_view()[k] == shortcut@;
                assert(self.registered_shortcuts@[k]@ == shortcut@);
            }
        }
        false
    }

    /// The shortcuts to register: those of the configuration, by action.
    pub fn shortcuts_to_register(&self) -> (r: Vec<(HotkeyAction, String)>)
        ensures
            r@.len() == self.config_view().shortcuts.count(),
            forall|i: int|
                0 <= i < r@.len() ==> self.config_view().shortcuts.slot(#[trigger] r@[i].0) == Some(
                    r@[i].1,
                ),
    {
        self.config.shortcuts.entries()
    }

    /// Records which shortcuts were registered, forgetting the earlier record.
    pub fn record_registered(&mut self, registered: Vec<String>)
        ensures
            final(self).config_view() == old(self).config_view(),
            final(self).registered_view() == registered@.map_values(|s: String| s@),
    {
        self.registered_shortcuts = registered;
    }

    /// Replaces the configuration; the registered shortcuts stay recorded
    /// until they are registered anew.
    pub fn set_config(&mut self, config: HotkeyConfig)
        ensures
            final(self).config_view() == config,
            final(self).registered_view() == old(self).registered_view(),
    {
        self.config = config;
    }

    /// The message for `shortcut` failing to register for `action` with `error`.
    pub fn registration_failure(shortcut: &str, action: &HotkeyAction, error: &str) -> (r: String)
        ensures
            r@ == registration_failure_text(shortcut@, *action, error@),
    {
        let mut m = String::from_str("Failed to register '");
        m.append(shortcut);
        m.append("' for ");
        m.append(action.description());
        m.append(": ");
        m.append(error);
        m
    }
}

impl Default for HotkeyManager {
    fn default() -> (r: Self)
        ensures
            is_default_config(r.config_view()),
            r.config_view().shortcuts.count() == 5,
            r.registered_view().len() == 0,
    {
        HotkeyManager::new()
    }
}

} // verus!

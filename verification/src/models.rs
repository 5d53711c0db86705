//! The records kept for each QA session: sessions, bugs, captures and
//! settings, with the text forms of their status and type enums.
use std::collections::HashMap;
use vstd::prelude::*;

use crate::text::str_eq;

verus! {

/// A QA testing session.
#[derive(Debug, Clone, PartialEq)]
pub struct Session {
    pub id: String,
    pub started_at: String,
    pub ended_at: Option<String>,
    pub status: SessionStatus,
    pub folder_path: String,
    pub session_notes: Option<String>,
    pub environment_json: Option<String>,
    pub original_snip_path: Option<String>,
    pub created_at: String,
    /// The QA profile that was active when the session was started.
    pub profile_id: Option<String>,
}

/// Lifecycle state of a session.
#[derive(Debug, Clone, Copy, PartialEq, Eq, Structural)]
pub enum SessionStatus {
    Active,
    Ended,
    Reviewed,
    Synced,
}

/// The stored text form of a session status.
pub open spec fn session_status_text(s: SessionStatus) -> Seq<char> {
    match s {
        SessionStatus::Active => "active"@,
        SessionStatus::Ended => "ended"@,
        SessionStatus::Reviewed => "reviewed"@,
        SessionStatus::Synced => "synced"@,
    }
}

/// Distinct statuses have distinct text forms, so parsing the text of a
/// status gives that status back.
pub proof fn lemma_session_status_text_injective(a: SessionStatus, b: SessionStatus)
    ensures
        session_status_text(a) == session_status_text(b) ==> a == b,
{
    reveal_strlit("active");
    reveal_strlit("ended");
    reveal_strlit("reviewed");
    reveal_strlit("synced");
    if session_status_text(a) == session_status_text(b) {
        assert(session_status_text(a).len() == session_status_text(b).len());
        assert(session_status_text(a)[0] == session_status_text(b)[0]);
    }
}

impl SessionStatus {
    /// The stored text form of this status.
    pub fn as_str(&self) -> (r: &str)
        ensures
            r@ == session_status_text(*self),
    {
        match self {
            SessionStatus::Active => "active",
            SessionStatus::Ended => "ended",
            SessionStatus::Reviewed => "reviewed",
            SessionStatus::Synced => "synced",
        }
    }

    /// Parses the stored text form of a status.
    pub fn from_str(s: &str) -> (r: Result<Self, String>)
        ensures
            match r {
                Ok(v) => session_status_text(v) == s@,
                Err(e) => (forall|v: SessionStatus| session_status_text(v) != s@)
                    && e@ == "Invalid session status: "@ + s@,
            },
    {
        if str_eq(s, "active") {
            Ok(SessionStatus::Active)
        } else if str_eq(s, "ended") {
            Ok(SessionStatus::Ended)
        } else if str_eq(s, "reviewed") {
            Ok(SessionStatus::Reviewed)
        } else if str_eq(s, "synced") {
            Ok(SessionStatus::Synced)
        } else {
            assert forall|v: SessionStatus| session_status_text(v) != s@ by {
                match v {
                    SessionStatus::Active => {},
                    SessionStatus::Ended => {},
                    SessionStatus::Reviewed => {},
                    SessionStatus::Synced => {},
                }
            }
            let mut e = String::from_str("Invalid session status: ");
            e.append(s);
            Err(e)
        }
    }
}

/// An individual bug, feature request or piece of feedback.
#[derive(Debug, Clone, PartialEq)]
pub struct Bug {
    pub id: String,
    pub session_id: String,
    pub bug_number: i32,
    pub display_id: String,
    pub bug_type: BugType,
    pub title: Option<String>,
    pub notes: Option<String>,
    pub description: Option<String>,
    pub ai_description: Option<String>,
    pub status: BugStatus,
    pub meeting_id: Option<String>,
    pub software_version: Option<String>,
    pub console_parse_json: Option<String>,
    pub metadata_json: Option<String>,
    /// Profile-driven custom field values stored as a JSON object.
    pub custom_metadata: Option<String>,
    pub folder_path: String,
    pub created_at: String,
    pub updated_at: String,
}

/// Kind of a bug card.
#[derive(Debug, Clone, Copy, PartialEq, Eq, Structural)]
pub enum BugType {
    Bug,
    Feature,
    Feedback,
}

/// The stored text form of a bug type.
pub open spec fn bug_type_text(t: BugType) -> Seq<char> {
    match t {
        BugType::Bug => "bug"@,
        BugType::Feature => "feature"@,
        BugType::Feedback => "feedback"@,
    }
}

/// Distinct bug types have distinct text forms.
pub proof fn lemma_bug_type_text_injective(a: BugType, b: BugType)
    ensures
        bug_type_text(a) == bug_type_text(b) ==> a == b,
{
    reveal_strlit("bug");
    reveal_strlit("feature");
    reveal_strlit("feedback");
    if bug_type_text(a) == bug_type_text(b) {
        assert(bug_type_text(a).len() == bug_type_text(b).len());
        assert(bug_type_text(a)[0] == bug_type_text(b)[0]);
    }
}

impl BugType {
    /// The stored text form of this bug type.
    pub fn as_str(&self) -> (r: &str)
        ensures
            r@ == bug_type_text(*self),
    {
        match self {
            BugType::Bug => "bug",
            BugType::Feature => "feature",
            BugType::Feedback => "feedback",
        }
    }

    /// Parses the stored text form of a bug type.
    pub fn from_str(s: &str) -> (r: Result<Self, String>)
        ensures
            match r {
                Ok(v) => bug_type_text(v) == s@,
                Err(e) => (forall|v: BugType| bug_type_text(v) != s@)
                    && e@ == "Invalid bug type: "@ + s@,
            },
    {
        if str_eq(s, "bug") {
            Ok(BugType::Bug)
        } else if str_eq(s, "feature") {
            Ok(BugType::Feature)
        } else if str_eq(s, "feedback") {
            Ok(BugType::Feedback)
        } else {
            assert forall|v: BugType| bug_type_text(v) != s@ by {
                match v {
                    BugType::Bug => {},
                    BugType::Feature => {},
                    BugType::Feedback => {},
                }
            }
            let mut e = String::from_str("Invalid bug type: ");
            e.append(s);
            Err(e)
        }
    }
}

/// Progress of a bug card through capture and review.
#[derive(Debug, Clone, Copy, PartialEq, Eq, Structural)]
pub enum BugStatus {
    Capturing,
    Captured,
    Reviewed,
    Ready,
}

/// The stored text form of a bug status.
pub open spec fn bug_status_text(s: BugStatus) -> Seq<char> {
    match s {
        BugStatus::Capturing => "capturing"@,
        BugStatus::Captured => "captured"@,
        BugStatus::Reviewed => "reviewed"@,
        BugStatus::Ready => "ready"@,
    }
}

/// Distinct bug statuses have distinct text forms.
pub proof fn lemma_bug_status_text_injective(a: BugStatus, b: BugStatus)
    ensures
        bug_status_text(a) == bug_status_text(b) ==> a == b,
{
    reveal_strlit("capturing");
    reveal_strlit("captured");
    reveal_strlit("reviewed");
    reveal_strlit("ready");
    if bug_status_text(a) == bug_status_text(b) {
        assert(bug_status_text(a).len() == bug_status_text(b).len());
        assert(bug_status_text(a)[0] == bug_status_text(b)[0]);
        assert(bug_status_text(a)[1] == bug_status_text(b)[1]);
    }
}

impl BugStatus {
    /// The stored text form of this status.
    pub fn as_str(&self) -> (r: &str)
        ensures
            r@ == bug_status_text(*self),
    {
        match self {
            BugStatus::Capturing => "capturing",
            BugStatus::Captured => "captured",
            BugStatus::Reviewed => "reviewed",
            BugStatus::Ready => "ready",
        }
    }

    /// Parses the stored text form of a bug status.
    pub fn from_str(s: &str) -> (r: Result<Self, String>)
        ensures
            match r {
                Ok(v) => bug_status_text(v) == s@,
                Err(e) => (forall|v: BugStatus| bug_status_text(v) != s@)
                    && e@ == "Invalid bug status: "@ + s@,
            },
    {
        if str_eq(s, "capturing") {
            Ok(BugStatus::Capturing)
        } else if str_eq(s, "captured") {
            Ok(BugStatus::Captured)
        } else if str_eq(s, "reviewed") {
            Ok(BugStatus::Reviewed)
        } else if str_eq(s, "ready") {
            Ok(BugStatus::Ready)
        } else {
            assert forall|v: BugStatus| bug_status_text(v) != s@ by {
                match v {
                    BugStatus::Capturing => {},
                    BugStatus::Captured => {},
                    BugStatus::Reviewed => {},
                    BugStatus::Ready => {},
                }
            }
            let mut e = String::from_str("Invalid bug status: ");
            e.append(s);
            Err(e)
        }
    }
}

/// A media file (screenshot, video, console output) attached to a session.
#[derive(Debug, Clone, PartialEq)]
pub struct Capture {
    pub id: String,
    /// None when the capture is unsorted (no active bug at capture time).
    pub bug_id: Option<String>,
    pub session_id: String,
    pub file_name: String,
    pub file_path: String,
    pub file_type: CaptureType,
    pub annotated_path: Option<String>,
    pub file_size_bytes: Option<i64>,
    pub is_console_capture: bool,
    pub parsed_content: Option<String>,
    pub created_at: String,
}

/// Kind of a captured media file.
#[derive(Debug, Clone, Copy, PartialEq, Eq, Structural)]
pub enum CaptureType {
    Screenshot,
    Video,
    Console,
}

/// The stored text form of a capture type.
pub open spec fn capture_type_text(t: CaptureType) -> Seq<char> {
    match t {
        CaptureType::Screenshot => "screenshot"@,
        CaptureType::Video => "video"@,
        CaptureType::Console => "console"@,
    }
}

/// Distinct capture types have distinct text forms.
pub proof fn lemma_capture_type_text_injective(a: CaptureType, b: CaptureType)
    ensures
        capture_type_text(a) == capture_type_text(b) ==> a == b,
{
    reveal_strlit("screenshot");
    reveal_strlit("video");
    reveal_strlit("console");
    if capture_type_text(a) == capture_type_text(b) {
        assert(capture_type_text(a).len() == capture_type_text(b).len());
        assert(capture_type_text(a)[0] == capture_type_text(b)[0]);
    }
}

impl CaptureType {
    /// The stored text form of this capture type.
    pub fn as_str(&self) -> (r: &str)
        ensures
            r@ == capture_type_text(*self),
    {
        match self {
            CaptureType::Screenshot => "screenshot",
            CaptureType::Video => "video",
            CaptureType::Console => "console",
        }
    }

    /// Parses the stored text form of a capture type.
    pub fn from_str(s: &str) -> (r: Result<Self, String>)
        ensures
            match r {
                Ok(v) => capture_type_text(v) == s@,
                Err(e) => (forall|v: CaptureType| capture_type_text(v) != s@)
                    && e@ == "Invalid capture type: "@ + s@,
            },
    {
        if str_eq(s, "screenshot") {
            Ok(CaptureType::Screenshot)
        } else if str_eq(s, "video") {
            Ok(CaptureType::Video)
        } else if str_eq(s, "console") {
            Ok(CaptureType::Console)
        } else {
            assert forall|v: CaptureType| capture_type_text(v) != s@ by {
                match v {
                    CaptureType::Screenshot => {},
                    CaptureType::Video => {},
                    CaptureType::Console => {},
                }
            }
            let mut e = String::from_str("Invalid capture type: ");
            e.append(s);
            Err(e)
        }
    }
}

/// A key-value configuration pair.
#[derive(Debug, Clone, PartialEq)]
pub struct Setting {
    pub key: String,
    pub value: String,
    pub updated_at: String,
}

/// Environment metadata recorded with a bug.
#[derive(Debug, Clone, PartialEq)]
pub struct Environment {
    pub os: String,
    pub display_resolution: String,
    pub dpi_scaling: String,
    pub ram: String,
    pub cpu: String,
    pub foreground_app: String,
}

/// Structured metadata recorded with a bug.
#[derive(Debug, Clone, PartialEq)]
pub struct BugMetadata {
    pub meeting_id: Option<String>,
    pub software_version: Option<String>,
    pub environment: Environment,
    pub console_captures: Vec<String>,
    pub custom_fields: HashMap<String, String>,
}

/// One line of the session listing.
#[derive(Debug, Clone, PartialEq)]
pub struct SessionSummary {
    pub id: String,
    pub started_at: String,
    pub ended_at: Option<String>,
    pub status: SessionStatus,
    pub bug_count: i32,
}

/// A partial update of a bug: each field that is `Some` replaces the stored one.
#[derive(Debug, Clone, Default)]
pub struct BugUpdate {
    pub bug_type: Option<BugType>,
    pub title: Option<String>,
    pub notes: Option<String>,
    pub description: Option<String>,
    pub ai_description: Option<String>,
    pub status: Option<BugStatus>,
    pub meeting_id: Option<String>,
    pub software_version: Option<String>,
    pub custom_metadata: Option<String>,
}

} // verus!

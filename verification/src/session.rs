//! The session lifecycle: which session and which bug are active, the rules
//! for moving between them, and the records and folder names each step
//! creates. Storage, folders and events are handled by the caller with the
//! values computed here.
use std::path::{Path, PathBuf};
use vstd::prelude::*;

use crate::models::{Bug, BugStatus, BugType, Capture, CaptureType, Session, SessionStatus};
use crate::export::bug_folder_number_of;
use crate::text::{lemma_pad3_signed_parses, pad3_signed, push_pad3_signed, str_eq};

verus! {

/// Creates the folders of sessions and bugs; the application supplies the
/// real file system, tests a stand-in.
pub trait FileSystem: Send + Sync {
    /// Creates `path` and any missing parent folders.
    fn create_dir_all(&self, path: &Path) -> Result<(), String>;
}

/// Message for starting a session while another is active.
pub const SESSION_ALREADY_ACTIVE: &'static str = "A session is already active. End the current session before starting a new one.";

/// Message for starting a bug capture in a session that is not active.
pub const SESSION_NOT_ACTIVE: &'static str = "Session is not active";

/// The name of the folder of bug number `n`.
pub open spec fn bug_folder_name_of(n: i32) -> Seq<char> {
    "bug_"@ + pad3_signed(n as int)
}

/// The display id of bug number `n`.
pub open spec fn bug_display_id_of(n: i32) -> Seq<char> {
    "BUG-"@ + pad3_signed(n as int)
}

/// A bug folder is found again by the export under its own number: the
/// number read from the folder name `bug_NNN` is the bug's number.
pub proof fn lemma_bug_folder_number_round_trip(n: i32)
    ensures
        bug_folder_number_of(bug_folder_name_of(n)) == Some(n as int),
{
    reveal_strlit("bug_");
    lemma_pad3_signed_parses(n);
    let name = bug_folder_name_of(n);
    assert(name.subrange(0, 4) =~= "bug_"@);
    assert(name.subrange(4, name.len() as int) =~= pad3_signed(n as int));
}

/// The name of a session's folder: its start date, then the first eight
/// characters of its id.
pub open spec fn session_folder_name_of(date: Seq<char>, session_id: Seq<char>) -> Seq<char> {
    date + "_"@ + session_id.subrange(0, 8)
}

/// The name of the folder of bug number `n`, `bug_NNN`.
pub fn bug_folder_name(n: i32) -> (r: String)
    ensures
        r@ == bug_folder_name_of(n),
{
    let mut s = String::from_str("bug_");
    push_pad3_signed(&mut s, n);
    s
}

/// The display id of bug number `n`, `BUG-NNN`.
pub fn bug_display_id(n: i32) -> (r: String)
    ensures
        r@ == bug_display_id_of(n),
{
    let mut s = String::from_str("BUG-");
    push_pad3_signed(&mut s, n);
    s
}

/// The name of the folder of a session started on `date` (as `YYYY-MM-DD`).
pub fn session_folder_name(date: &str, session_id: &str) -> (r: String)
    requires
        session_id@.len() >= 8,
    ensures
        r@ == session_folder_name_of(date@, session_id@),
{
    let mut s = String::from_str(date);
    s.append("_");
    s.append(session_id.substring_char(0, 8));
    s
}

/// The record of a session just started at `now` in `folder_path`.
pub fn new_session_record(id: String, folder_path: String, now: String, profile_id: Option<String>) -> (r:
    Session)
    ensures
        r.id == id,
        r.started_at == now,
        r.ended_at is None,
        r.status == SessionStatus::Active,
        r.folder_path == folder_path,
        r.session_notes is None,
        r.environment_json is None,
        r.original_snip_path is None,
        r.created_at == now,
        r.profile_id == profile_id,
{
    let created_at = now.clone();
    Session {
        id,
        started_at: now,
        ended_at: None,
        status: SessionStatus::Active,
        folder_path,
        session_notes: None,
        environment_json: None,
        original_snip_path: None,
        created_at,
        profile_id,
    }
}

/// The record of bug number `bug_number` just started at `now` in
/// `folder_path`: a bug being captured, with nothing described yet.
pub fn new_bug_record(
    id: String,
    session_id: String,
    bug_number: i32,
    folder_path: String,
    now: String,
) -> (r: Bug)
    ensures
        r.id == id,
        r.session_id == session_id,
        r.bug_number == bug_number,
        r.display_id@ == bug_display_id_of(bug_number),
        r.bug_type == BugType::Bug,
        r.title is None && r.notes is None && r.description is None && r.ai_description is None,
        r.status == BugStatus::Capturing,
        r.meeting_id is None && r.software_version is None && r.console_parse_json is None,
        r.metadata_json is None && r.custom_metadata is None,
        r.folder_path == folder_path,
        r.created_at == now,
        r.updated_at == now,
{
    let created_at = now.clone();
    Bug {
        id,
        session_id,
        bug_number,
        display_id: bug_display_id(bug_number),
        bug_type: BugType::Bug,
        title: None,
        notes: None,
        description: None,
        ai_description: None,
        status: BugStatus::Capturing,
        meeting_id: None,
        software_version: None,
        console_parse_json: None,
        metadata_json: None,
        custom_metadata: None,
        folder_path,
        created_at,
        updated_at: now,
    }
}

/// The record of a capture filed at `now`.
pub fn new_capture_record(
    id: String,
    bug_id: Option<String>,
    session_id: String,
    file_name: String,
    file_path: String,
    file_type: CaptureType,
    file_size: i64,
    now: String,
) -> (r: Capture)
    ensures
        r.id == id,
        r.bug_id == bug_id,
        r.session_id == session_id,
        r.file_name == file_name,
        r.file_path == file_path,
        r.file_type == file_type,
        r.annotated_path is None,
        r.file_size_bytes == Some(file_size),
        !r.is_console_capture,
        r.parsed_content is None,
        r.created_at == now,
{
    Capture {
        id,
        bug_id,
        session_id,
        file_name,
        file_path,
        file_type,
        annotated_path: None,
        file_size_bytes: Some(file_size),
        is_console_capture: false,
        parsed_content: None,
        created_at: now,
    }
}

/// True for bugs that are being captured.
pub open spec fn is_capturing(b: Bug) -> bool {
    b.status == BugStatus::Capturing
}

/// The indices of the bugs being captured, in order.
pub open spec fn capturing_indices(bugs: Seq<Bug>) -> Seq<int>
    decreases bugs.len(),
{
    if bugs.len() == 0 {
        Seq::empty()
    } else if is_capturing(bugs.last()) {
        capturing_indices(bugs.drop_last()).push(bugs.len() - 1)
    } else {
        capturing_indices(bugs.drop_last())
    }
}

/// The bugs being captured are exactly the bugs whose status is
/// `Capturing`, listed by position in increasing order.
pub proof fn lemma_capturing_indices(bugs: Seq<Bug>)
    ensures
        forall|k: int|
            0 <= k < capturing_indices(bugs).len() ==> 0 <= #[trigger] capturing_indices(bugs)[k] < bugs.len()
                && bugs[capturing_indices(bugs)[k]].status == BugStatus::Capturing,
        forall|k: int, l: int|
            0 <= k < l < capturing_indices(bugs).len() ==> #[trigger] capturing_indices(bugs)[k]
                < #[trigger] capturing_indices(bugs)[l],
        forall|i: int|
            0 <= i < bugs.len() && (#[trigger] bugs[i]).status == BugStatus::Capturing ==> exists|k: int|
                0 <= k < capturing_indices(bugs).len() && capturing_indices(bugs)[k] == i,
    decreases bugs.len(),
{
    if bugs.len() > 0 {
        let d = bugs.drop_last();
        lemma_capturing_indices(d);
        let cd = capturing_indices(d);
        let c = capturing_indices(bugs);
        assert forall|i: int|
            0 <= i < bugs.len() && (#[trigger] bugs[i]).status == BugStatus::Capturing implies exists|k: int|
                0 <= k < c.len() && c[k] == i by {
            if i < bugs.len() - 1 {
                assert(d[i] == bugs[i]);
                let k = choose|k: int| 0 <= k < cd.len() && cd[k] == i;
                assert(c[k] == cd[k]);
            } else {
                assert(c[c.len() - 1] == i);
            }
        }
        assert forall|k: int| 0 <= k < c.len() implies 0 <= #[trigger] c[k] < bugs.len()
            && bugs[c[k]].status == BugStatus::Capturing by {
            if k < cd.len() {
                assert(c[k] == cd[k]);
                assert(d[cd[k]] == bugs[cd[k]]);
            }
        }
    }
}

/// Which session and which bug are active.
pub struct SessionManager {
    db_path: PathBuf,
    storage_root: PathBuf,
    active_session: Option<String>,
    active_bug: Option<String>,
}

/// What resuming a session decides: the bug that becomes active and the
/// other bugs left being captured, which are to be marked captured.
pub struct ResumePlan {
    pub active_bug: Option<String>,
    pub stale_bugs: Vec<String>,
}

impl SessionManager {
    /// The active session, if any.
    pub closed spec fn active_session_view(&self) -> Option<Seq<char>> {
        match self.active_session {
            Some(s) => Some(s@),
            None => None,
        }
    }

    /// The active bug, if any.
    pub closed spec fn active_bug_view(&self) -> Option<Seq<char>> {
        match self.active_bug {
            Some(b) => Some(b@),
            None => None,
        }
    }

    /// Where the session database lives.
    pub closed spec fn db_path_view(&self) -> PathBuf {
        self.db_path
    }

    /// The folder sessions are stored under.
    pub closed spec fn storage_root_view(&self) -> PathBuf {
        self.storage_root
    }

    /// A manager with no active session or bug.
    pub fn new(db_path: PathBuf, storage_root: PathBuf) -> (r: Self)
        ensures
            r.db_path_view() == db_path,
            r.storage_root_view() == storage_root,
            r.active_session_view() is None,
            r.active_bug_view() is None,
    {
        SessionManager { db_path, storage_root, active_session: None, active_bug: None }
    }

    /// Where the session database lives.
    pub fn db_path(&self) -> (r: &PathBuf)
        ensures
            *r == self.db_path_view(),
    {
        &self.db_path
    }

    /// The folder sessions are stored under.
    pub fn storage_root(&self) -> (r: &PathBuf)
        ensures
            *r == self.storage_root_view(),
    {
        &self.storage_root
    }

    /// The active session's id, if any.
    pub fn get_active_session_id(&self) -> (r: Option<String>)
        ensures
            match r {
                Some(s) => self.active_session_view() == Some(s@),
                None => self.active_session_view() is None,
            },
    {
        match &self.active_session {
            Some(s) => Some(s.clone()),
            None => None,
        }
    }

    /// The active bug's id, if any.
    pub fn get_active_bug_id(&self) -> (r: Option<String>)
        ensures
            match r {
                Some(b) => self.active_bug_view() == Some(b@),
                None => self.active_bug_view() is None,
            },
    {
        match &self.active_bug {
            Some(b) => Some(b.clone()),
            None => None,
        }
    }

    /// Whether a new session may start: only when none is active.
    pub fn check_can_start_session(&self) -> (r: Result<(), String>)
        ensures
            r is Ok <==> self.active_session_view() is None,
            r matches Err(m) ==> m@ == SESSION_ALREADY_ACTIVE@,
    {
        if self.active_session.is_some() {
            Err(String::from_str(SESSION_ALREADY_ACTIVE))
        } else {
            Ok(())
        }
    }

    /// Records that session `session_id` has started; the active bug stays.
    pub fn session_started(&mut self, session_id: &str)
        ensures
            final(self).active_session_view() == Some(session_id@),
            final(self).active_bug_view() == old(self).active_bug_view(),
            final(self).db_path_view() == old(self).db_path_view(),
            final(self).storage_root_view() == old(self).storage_root_view(),
    {
        self.active_session = Some(String::from_str(session_id));
    }

    /// Records that session `session_id` has ended: it is no longer active
    /// (another active session stays), and no bug is active any more.
    pub fn session_ended(&mut self, session_id: &str)
        ensures
            final(self).active_session_view() == (if old(self).active_session_view() == Some(
                session_id@,
            ) {
                None
            } else {
                old(self).active_session_view()
            }),
            final(self).active_bug_view() is None,
            final(self).db_path_view() == old(self).db_path_view(),
            final(self).storage_root_view() == old(self).storage_root_view(),
    {
        let matches = match &self.active_session {
            Some(s) => str_eq(s.as_str(), session_id),
            None => false,
        };
        if matches {
            self.active_session = None;
        }
        self.active_bug = None;
    }

    /// Records that session `session_id` was resumed, given its bugs: the
    /// first bug being captured becomes the active bug, and the others being
    /// captured are left to be marked captured.
    pub fn session_resumed(&mut self, session_id: &str, bugs: &[Bug]) -> (r: ResumePlan)
        ensures
            final(self).active_session_view() == Some(session_id@),
            final(self).db_path_view() == old(self).db_path_view(),
            final(self).storage_root_view() == old(self).storage_root_view(),
            match r.active_bug {
                Some(b) => capturing_indices(bugs@).len() > 0 && b == bugs@[capturing_indices(
                    bugs@,
                )[0]].id && final(self).active_bug_view() == Some(b@),
                None => capturing_indices(bugs@).len() == 0 && final(self).active_bug_view() is None,
            },
            r.stale_bugs@.len() == if capturing_indices(bugs@).len() > 0 {
                capturing_indices(bugs@).len() - 1
            } else {
                0
            },
            forall|i: int|
                0 <= i < r.stale_bugs@.len() ==> #[trigger] r.stale_bugs@[i] == bugs@[capturing_indices(
                    bugs@,
                )[i + 1]].id,
            r.active_bug matches Some(b) ==> exists|k: int|
                0 <= k < bugs@.len() && bugs@[k].status == BugStatus::Capturing && bugs@[k].id == b
                    && forall|j: int| 0 <= j < k ==> (#[trigger] bugs@[j]).status != BugStatus::Capturing,
            forall|i: int|
                0 <= i < r.stale_bugs@.len() ==> exists|k: int|
                    0 <= k < bugs@.len() && bugs@[k].status == BugStatus::Capturing && bugs@[k].id
                        == #[trigger] r.stale_bugs@[i],
    {
        let mut first: Option<String> = None;
        let mut stale: Vec<String> = Vec::new();
        let mut i: usize = 0;
        while i < bugs.len()
            invariant
                i <= bugs@.len(),
                match first {
                    Some(b) => capturing_indices(bugs@.subrange(0, i as int)).len() > 0 && b
                        == bugs@[capturing_indices(bugs@.subrange(0, i as int))[0]].id,
                    None => capturing_indices(bugs@.subrange(0, i as int)).len() == 0,
                },
                stale@.len() == if capturing_indices(bugs@.subrange(0, i as int)).len() > 0 {
                    capturing_indices(bugs@.subrange(0, i as int)).len() - 1
                } else {
                    0
                },
                forall|j: int|
                    0 <= j < stale@.len() ==> #[trigger] stale@[j] == bugs@[capturing_indices(
                        bugs@.subrange(0, i as int),
                    )[j + 1]].id,
                forall|j: int|
                    0 <= j < capturing_indices(bugs@.subrange(0, i as int)).len() ==> 0
                        <= #[trigger] capturing_indices(bugs@.subrange(0, i as int))[j] < i,
            decreases bugs@.len() - i,
        {
            let ghost prev = bugs@.subrange(0, i as int);
            let ghost next = bugs@.subrange(0, i + 1);
            assert(next.drop_last() =~= prev);
            assert(next.last() == bugs@[i as int]);
            let capturing = match bugs[i].status {
                BugStatus::Capturing => true,
                _ => false,
            };
            if capturing {
                assert(capturing_indices(next) == capturing_indices(prev).push(i as int));
                if first.is_none() {
                    first = Some(bugs[i].id.clone());
                } else {
                    stale.push(bugs[i].id.clone());
                }
            } else {
                assert(capturing_indices(next) == capturing_indices(prev));
            }
            i = i + 1;
        }
        assert(bugs@.subrange(0, bugs@.len() as int) =~= bugs@);
        proof {
            lemma_capturing_indices(bugs@);
            let c = capturing_indices(bugs@);
            if c.len() > 0 {
                let k0 = c[0];
                assert(0 <= k0 < bugs@.len() && bugs@[k0].status == BugStatus::Capturing);
                assert forall|j: int| 0 <= j < k0 implies (#[trigger] bugs@[j]).status != BugStatus::Capturing by {
                    if bugs@[j].status == BugStatus::Capturing {
                        let k = choose|k: int| 0 <= k < c.len() && c[k] == j;
                        if k > 0 {
                            assert(c[0] < c[k]);
                        }
                    }
                }
            }
            assert forall|i: int| 0 <= i < stale@.len() implies exists|k: int|
                0 <= k < bugs@.len() && bugs@[k].status == BugStatus::Capturing && bugs@[k].id
                    == #[trigger] stale@[i] by {
                let k = c[i + 1];
                assert(stale@[i] == bugs@[k].id);
                assert(0 <= k < bugs@.len() && bugs@[k].status == BugStatus::Capturing);
            }
        }
        self.active_session = Some(String::from_str(session_id));
        self.active_bug = match &first {
            Some(b) => Some(b.clone()),
            None => None,
        };
        ResumePlan { active_bug: first, stale_bugs: stale }
    }

    /// Whether a bug capture may start in `session`: only while it is active.
    pub fn check_session_active(session: &Session) -> (r: Result<(), String>)
        ensures
            r is Ok <==> session.status == SessionStatus::Active,
            r matches Err(m) ==> m@ == SESSION_NOT_ACTIVE@,
    {
        match session.status {
            SessionStatus::Active => Ok(()),
            _ => Err(String::from_str(SESSION_NOT_ACTIVE)),
        }
    }

    /// Records that bug `bug_id` is being captured (started or resumed).
    pub fn bug_started(&mut self, bug_id: &str)
        ensures
            final(self).active_bug_view() == Some(bug_id@),
            final(self).active_session_view() == old(self).active_session_view(),
            final(self).db_path_view() == old(self).db_path_view(),
            final(self).storage_root_view() == old(self).storage_root_view(),
    {
        self.active_bug = Some(String::from_str(bug_id));
    }

    /// Records that the capture of bug `bug_id` ended: it stops being the
    /// active bug; another active bug stays.
    pub fn bug_ended(&mut self, bug_id: &str)
        ensures
            final(self).active_bug_view() == (if old(self).active_bug_view() == Some(bug_id@) {
                None
            } else {
                old(self).active_bug_view()
            }),
            final(self).active_session_view() == old(self).active_session_view(),
            final(self).db_path_view() == old(self).db_path_view(),
            final(self).storage_root_view() == old(self).storage_root_view(),
    {
        let matches = match &self.active_bug {
            Some(b) => str_eq(b.as_str(), bug_id),
            None => false,
        };
        if matches {
            self.active_bug = None;
        }
    }
}

/// A session record once ended at `now`.
pub fn ended_session(session: Session, now: String) -> (r: Session)
    ensures
        r == (Session { ended_at: Some(now), status: SessionStatus::Ended, ..session }),
{
    let mut s = session;
    s.ended_at = Some(now);
    s.status = SessionStatus::Ended;
    s
}

/// A session record once resumed: active again, with no end.
pub fn resumed_session(session: Session) -> (r: Session)
    ensures
        r == (Session { ended_at: None, status: SessionStatus::Active, ..session }),
{
    let mut s = session;
    s.ended_at = None;
    s.status = SessionStatus::Active;
    s
}

/// A bug record whose status changed to `status` at `now`.
pub fn bug_with_status(bug: Bug, status: BugStatus, now: String) -> (r: Bug)
    ensures
        r == (Bug { status, updated_at: now, ..bug }),
{
    let mut b = bug;
    b.status = status;
    b.updated_at = now;
    b
}

} // verus!

//! The session summary (`session-summary.md`): session facts, an optional
//! AI overview and the list of captured bugs; and the request that asks for
//! the overview.
use std::path::{Path, PathBuf};
use std::sync::Arc;
use vstd::prelude::*;

use crate::claude_cli::prompts::{is_blank, str_is_blank};
use crate::claude_cli::subprocess::ClaudeInvoker;
use crate::claude_cli::types::{claude_error_text, ClaudeError, ClaudeRequest, ClaudeResponse, PromptTask};
use crate::models::{bug_status_text, bug_type_text, session_status_text, Bug, Session};
use crate::text::{decimal, push_decimal, push_signed_decimal, signed_decimal, trunc_div, trunc_rem};

verus! {

/// What chrono gives for `DateTime::parse_from_rfc3339(s)` formatted with
/// the strftime pattern `pattern` (`None` when `s` is not RFC 3339).
pub uninterp spec fn rfc3339_formatted(s: Seq<char>, pattern: Seq<char>) -> Option<Seq<char>>;

/// What chrono gives for the whole seconds from `start` to `end`, both
/// parsed as RFC 3339 (`None` when either does not parse).
pub uninterp spec fn rfc3339_seconds_between(start: Seq<char>, end: Seq<char>) -> Option<i64>;

/// Parses `s` as an RFC 3339 date and time with chrono
/// (`DateTime::parse_from_rfc3339`) and formats it with `DateTime::format`
/// and `pattern`. Formatting panics on an unknown specifier, so `pattern`
/// is held to the one pattern the summary uses, whose specifiers chrono
/// knows. The contract only names the result.
#[verifier::external_body]
fn format_rfc3339(s: &str, pattern: &str) -> (r: Option<String>)
    requires
        pattern@ == SUMMARY_DATE_PATTERN@,
    ensures
        match r {
            Some(x) => rfc3339_formatted(s@, pattern@) == Some(x@),
            None => rfc3339_formatted(s@, pattern@) is None,
        },
{
    chrono::DateTime::parse_from_rfc3339(s).ok().map(|dt| dt.format(pattern).to_string())
}

/// The whole seconds (`TimeDelta::num_seconds`) between two RFC 3339 dates
/// parsed with chrono. The contract only names the result.
#[verifier::external_body]
fn seconds_between(start: &str, end: &str) -> (r: Option<i64>)
    ensures
        r == rfc3339_seconds_between(start@, end@),
{
    match (chrono::DateTime::parse_from_rfc3339(start), chrono::DateTime::parse_from_rfc3339(end)) {
        (Ok(s), Ok(e)) => Some(e.signed_duration_since(s).num_seconds()),
        _ => None,
    }
}

/// Writes generated files such as `session-summary.md`; the application
/// supplies the real file system, tests a stand-in.
pub trait FileWriter: Send + Sync {
    /// Writes `content` to the file at `path`, replacing what was there.
    fn write_file(&self, path: &Path, content: &str) -> Result<(), String>;
}


/// How the summary shows dates: year, month, day, then the time in UTC.
pub const SUMMARY_DATE_PATTERN: &'static str = "%Y-%m-%d %H:%M:%S UTC";

/// A date as shown: formatted with `SUMMARY_DATE_PATTERN` when it parses,
/// as stored otherwise.
pub open spec fn shown_date(s: Seq<char>) -> Seq<char> {
    match rfc3339_formatted(s, SUMMARY_DATE_PATTERN@) {
        Some(f) => f,
        None => s,
    }
}

/// The duration line for a span of `secs` whole seconds: whole hours, and
/// the whole minutes left over.
pub open spec fn duration_line(secs: int) -> Seq<char> {
    "- **Duration:** "@ + signed_decimal(trunc_div(secs, 3600)) + "h "@ + signed_decimal(
        trunc_rem(trunc_div(secs, 60), 60),
    ) + "m\n"@
}

/// `label` and the text on lines of their own, when the text holds more
/// than white space.
pub open spec fn text_block(label: Seq<char>, text: Option<String>) -> Seq<char> {
    match text {
        Some(t) => if is_blank(t@) {
            Seq::empty()
        } else {
            label + t@ + "\n"@
        },
        None => Seq::empty(),
    }
}

/// The opening of the summary up to the start date.
pub open spec fn info_head(session: Session) -> Seq<char> {
    "# QA Session Summary\n\n## Session Information\n\n- **Session ID:** "@ + session.id@ + "\n"@
        + "- **Started:** "@ + shown_date(session.started_at@) + "\n"@
}

/// The end date and duration lines.
pub open spec fn info_end(session: Session) -> Seq<char> {
    match session.ended_at {
        Some(e) => "- **Ended:** "@ + shown_date(e@) + "\n"@ + match rfc3339_seconds_between(
            session.started_at@,
            e@,
        ) {
            Some(secs) => duration_line(secs as int),
            None => Seq::empty(),
        },
        None => "- **Ended:** In Progress\n"@,
    }
}

/// The bug count, status and notes lines.
pub open spec fn info_tail(session: Session, bug_count: nat) -> Seq<char> {
    "- **Bug Count:** "@ + decimal(bug_count) + "\n"@ + "- **Status:** "@ + session_status_text(
        session.status,
    ) + "\n"@ + text_block("\n### Session Notes\n\n"@, session.session_notes) + "\n"@
}

/// The session information block.
pub open spec fn session_info(session: Session, bug_count: nat) -> Seq<char> {
    info_head(session) + info_end(session) + info_tail(session, bug_count)
}

/// The heading of a bug's block.
pub open spec fn bug_title_line(bug: Bug) -> Seq<char> {
    "### "@ + bug.display_id@ + " - "@ + match bug.title {
        Some(t) => t@,
        None => "(No title)"@,
    } + "\n\n"@
}

/// The fixed facts of a bug's block.
pub open spec fn bug_facts(bug: Bug) -> Seq<char> {
    "- **Type:** "@ + bug_type_text(bug.bug_type) + "\n"@ + "- **Status:** "@ + bug_status_text(
        bug.status,
    ) + "\n"@ + match bug.software_version {
        Some(v) => "- **Software Version:** "@ + v@ + "\n"@,
        None => Seq::empty(),
    }
}

/// The heading and fixed facts of a bug's block.
pub open spec fn bug_head(bug: Bug) -> Seq<char> {
    bug_title_line(bug) + bug_facts(bug)
}

/// The texts of a bug's block.
pub open spec fn bug_texts(bug: Bug) -> Seq<char> {
    text_block("\n**Notes:**\n"@, bug.notes) + text_block("\n**Description:**\n"@, bug.description)
        + text_block("\n**AI Description:**\n"@, bug.ai_description)
}

/// The block that presents one bug.
pub open spec fn bug_block(bug: Bug) -> Seq<char> {
    bug_head(bug) + bug_texts(bug) + "\n"@
}

/// `b` ends `a` when `a` is some text followed by `b`.
proof fn lemma_ends_with(pre: Seq<char>, tail: Seq<char>)
    ensures
        tail.is_suffix_of(pre + tail),
{
    let s = pre + tail;
    assert(tail =~= s.subrange(s.len() - tail.len(), s.len() as int));
}

/// A bug with an AI description that holds more than white space ends its
/// block with that text under the "AI Description" heading.
pub proof fn lemma_bug_block_ends_with_ai_description(bug: Bug)
    requires
        bug.ai_description matches Some(a) && !is_blank(a@),
    ensures
        ("\n**AI Description:**\n"@ + bug.ai_description->0@ + "\n\n"@).is_suffix_of(bug_block(bug)),
{
    let tail = "\n**AI Description:**\n"@ + bug.ai_description->0@ + "\n\n"@;
    let pre = bug_head(bug) + text_block("\n**Notes:**\n"@, bug.notes) + text_block("\n**Description:**\n"@, bug.description);
    reveal_strlit("\n\n");
    reveal_strlit("\n");
    assert(bug_block(bug) =~= pre + tail);
    lemma_ends_with(pre, tail);
}

/// A bug with a description and an AI description, both holding more than
/// white space, ends its block with the description under the
/// "Description" heading followed by the AI description under the
/// "AI Description" heading.
pub proof fn lemma_bug_block_descriptions(bug: Bug)
    requires
        bug.description matches Some(d) && !is_blank(d@),
        bug.ai_description matches Some(a) && !is_blank(a@),
    ensures
        ("\n**Description:**\n"@ + bug.description->0@ + "\n"@ + "\n**AI Description:**\n"@
            + bug.ai_description->0@ + "\n\n"@).is_suffix_of(bug_block(bug)),
{
    let tail = "\n**Description:**\n"@ + bug.description->0@ + "\n"@ + "\n**AI Description:**\n"@
        + bug.ai_description->0@ + "\n\n"@;
    let pre = bug_head(bug) + text_block("\n**Notes:**\n"@, bug.notes);
    reveal_strlit("\n\n");
    reveal_strlit("\n");
    assert(bug_block(bug) =~= pre + tail);
    lemma_ends_with(pre, tail);
}

/// A bug without an AI description (or with a blank one) whose description
/// holds more than white space ends its block with the description under
/// the "Description" heading.
pub proof fn lemma_bug_block_ends_with_description(bug: Bug)
    requires
        bug.description matches Some(d) && !is_blank(d@),
        bug.ai_description is None || is_blank(bug.ai_description->0@),
    ensures
        ("\n**Description:**\n"@ + bug.description->0@ + "\n\n"@).is_suffix_of(bug_block(bug)),
{
    let tail = "\n**Description:**\n"@ + bug.description->0@ + "\n\n"@;
    let pre = bug_head(bug) + text_block("\n**Notes:**\n"@, bug.notes);
    reveal_strlit("\n\n");
    reveal_strlit("\n");
    assert(text_block("\n**AI Description:**\n"@, bug.ai_description) =~= Seq::<char>::empty());
    assert(bug_block(bug) =~= pre + tail);
    lemma_ends_with(pre, tail);
}

/// A bug whose only text is its notes ends its block with the notes under
/// the "Notes" heading.
pub proof fn lemma_bug_block_ends_with_notes(bug: Bug)
    requires
        bug.notes matches Some(n) && !is_blank(n@),
        bug.description is None || is_blank(bug.description->0@),
        bug.ai_description is None || is_blank(bug.ai_description->0@),
    ensures
        ("\n**Notes:**\n"@ + bug.notes->0@ + "\n\n"@).is_suffix_of(bug_block(bug)),
{
    let tail = "\n**Notes:**\n"@ + bug.notes->0@ + "\n\n"@;
    let pre = bug_head(bug);
    reveal_strlit("\n\n");
    reveal_strlit("\n");
    assert(text_block("\n**Description:**\n"@, bug.description) =~= Seq::<char>::empty());
    assert(text_block("\n**AI Description:**\n"@, bug.ai_description) =~= Seq::<char>::empty());
    assert(bug_block(bug) =~= pre + tail);
    lemma_ends_with(pre, tail);
}

/// The blocks of all bugs, in order.
pub open spec fn bug_blocks(bugs: Seq<Bug>) -> Seq<char>
    decreases bugs.len(),
{
    if bugs.len() == 0 {
        Seq::empty()
    } else {
        bug_blocks(bugs.drop_last()) + bug_block(bugs.last())
    }
}

/// A summary of a session with bugs ends with the block of its last bug.
pub proof fn lemma_summary_ends_with_last_bug(session: Session, bugs: Seq<Bug>, overview: Option<Seq<char>>)
    requires
        bugs.len() > 0,
    ensures
        bug_block(bugs.last()).is_suffix_of(summary_text(session, bugs, overview)),
{
    let pre = session_info(session, bugs.len()) + overview_section(overview) + "## Bugs Captured\n\n"@
        + bug_blocks(bugs.drop_last());
    assert(summary_text(session, bugs, overview) =~= pre + bug_block(bugs.last()));
    lemma_ends_with(pre, bug_block(bugs.last()));
}

/// The overview section, present only when there is an overview.
pub open spec fn overview_section(overview: Option<Seq<char>>) -> Seq<char> {
    match overview {
        Some(o) => "## Overview\n\n"@ + o + "\n\n"@,
        None => Seq::empty(),
    }
}

/// The bugs section of a session without bugs.
pub const NO_BUGS_SECTION: &'static str = "## Bugs Captured\n\nNo bugs captured in this session.\n";

/// The bugs section: the note that there are none, or one block per bug.
pub open spec fn bugs_section(bugs: Seq<Bug>) -> Seq<char> {
    if bugs.len() == 0 {
        NO_BUGS_SECTION@
    } else {
        "## Bugs Captured\n\n"@ + bug_blocks(bugs)
    }
}

/// The summary of a session with its bugs and, if any, an AI overview.
pub open spec fn summary_text(session: Session, bugs: Seq<Bug>, overview: Option<Seq<char>>) -> Seq<
    char,
> {
    session_info(session, bugs.len()) + overview_section(overview) + bugs_section(bugs)
}

/// The title every summary opens with.
pub const SUMMARY_TITLE: &'static str = "# QA Session Summary\n\n";

/// Every summary opens with its title.
pub proof fn lemma_summary_opens_with_title(session: Session, bugs: Seq<Bug>, overview: Option<Seq<char>>)
    ensures
        SUMMARY_TITLE@.is_prefix_of(summary_text(session, bugs, overview)),
{
    let head = "# QA Session Summary\n\n## Session Information\n\n- **Session ID:** "@;
    reveal_strlit("# QA Session Summary\n\n## Session Information\n\n- **Session ID:** ");
    reveal_strlit("# QA Session Summary\n\n");
    let t = summary_text(session, bugs, overview);
    let rest = session.id@ + "\n"@ + "- **Started:** "@ + shown_date(session.started_at@) + "\n"@
        + info_end(session) + info_tail(session, bugs.len()) + overview_section(overview) + bugs_section(bugs);
    assert(t =~= head + rest);
    assert forall|i: int| 0 <= i < SUMMARY_TITLE@.len() implies SUMMARY_TITLE@[i] == t[i] by {
        assert(t[i] == head[i]);
    }
    assert(SUMMARY_TITLE@ =~= t.subrange(0, SUMMARY_TITLE@.len() as int));
}

/// The summary is the session information, then the overview section (only
/// when there is an overview), then the bugs section; the session
/// information carries the number of bugs, and a session that has not
/// ended is shown as in progress, with no duration.
pub proof fn lemma_summary_layout(session: Session, bugs: Seq<Bug>, overview: Option<Seq<char>>)
    ensures
        summary_text(session, bugs, overview) == session_info(session, bugs.len()) + overview_section(overview)
            + bugs_section(bugs),
        session_info(session, bugs.len()) == info_head(session) + info_end(session) + "- **Bug Count:** "@
            + decimal(bugs.len()) + "\n"@ + "- **Status:** "@ + session_status_text(session.status)
            + "\n"@ + text_block("\n### Session Notes\n\n"@, session.session_notes) + "\n"@,
        session.ended_at is None ==> info_end(session) == "- **Ended:** In Progress\n"@,
{
}

/// Right after the session information, the summary shows the overview
/// heading exactly when there is an overview.
pub proof fn lemma_overview_shown_iff_given(session: Session, bugs: Seq<Bug>, overview: Option<Seq<char>>)
    ensures
        ({
            let after = summary_text(session, bugs, overview).skip(session_info(session, bugs.len()).len() as int);
            after.len() >= 13 && (after.take(13) == "## Overview\n\n"@ <==> overview is Some)
        }),
{
    reveal_strlit("## Overview\n\n");
    reveal_strlit("## Bugs Captured\n\n");
    reveal_strlit("## Bugs Captured\n\nNo bugs captured in this session.\n");
    let info = session_info(session, bugs.len());
    let t = summary_text(session, bugs, overview);
    let after = t.skip(info.len() as int);
    assert(after =~= overview_section(overview) + bugs_section(bugs));
    match overview {
        Some(o) => {
            assert(after.take(13) =~= "## Overview\n\n"@);
        },
        None => {
            assert(after =~= bugs_section(bugs));
            if bugs.len() == 0 {
                assert(after[3] == 'B');
            } else {
                assert(after[3] == ("## Bugs Captured\n\n"@ + bug_blocks(bugs))[3]);
                assert(after[3] == 'B');
            }
            assert("## Overview\n\n"@[3] == 'O');
            assert(after.take(13)[3] != "## Overview\n\n"@[3]);
        },
    }
}

/// The blocks of bugs start with the heading of the first bug.
proof fn lemma_bug_blocks_start(bugs: Seq<Bug>)
    requires
        bugs.len() > 0,
    ensures
        bug_title_line(bugs[0]).is_prefix_of(bug_blocks(bugs)),
    decreases bugs.len(),
{
    if bugs.len() == 1 {
        assert(bugs.drop_last().len() == 0);
        assert(bug_blocks(bugs.drop_last()) == Seq::<char>::empty());
        assert(bug_blocks(bugs) =~= bug_block(bugs.last()));
        assert(bugs.last() == bugs[0]);
        assert(bug_title_line(bugs[0]) =~= bug_blocks(bugs).subrange(0, bug_title_line(bugs[0]).len() as int));
    } else {
        let d = bugs.drop_last();
        lemma_bug_blocks_start(d);
        assert(d[0] == bugs[0]);
        let p = bug_title_line(bugs[0]);
        assert(bug_blocks(bugs) == bug_blocks(d) + bug_block(bugs.last()));
        assert(p =~= bug_blocks(bugs).subrange(0, p.len() as int));
    }
}

/// The bugs section says there are no bugs exactly when there are none.
pub proof fn lemma_no_bugs_note_iff_empty(bugs: Seq<Bug>)
    ensures
        bugs_section(bugs) == NO_BUGS_SECTION@ <==> bugs.len() == 0,
{
    reveal_strlit("## Bugs Captured\n\n");
    reveal_strlit("## Bugs Captured\n\nNo bugs captured in this session.\n");
    if bugs.len() > 0 {
        lemma_bug_blocks_start(bugs);
        reveal_strlit("### ");
        let sec = bugs_section(bugs);
        assert(bug_title_line(bugs[0])[0] == '#');
        assert(sec[18] == bug_blocks(bugs)[0]);
        assert(bug_blocks(bugs)[0] == bug_title_line(bugs[0])[0]);
        assert(NO_BUGS_SECTION@[18] == 'N');
    }
}

/// Each bug's heading comes in the bugs' order: the blocks of the bugs
/// before it, then its heading, start the blocks of all bugs.
pub proof fn lemma_bug_headings_in_order(bugs: Seq<Bug>, i: int)
    requires
        0 <= i < bugs.len(),
    ensures
        (bug_blocks(bugs.take(i)) + bug_title_line(bugs[i])).is_prefix_of(bug_blocks(bugs)),
    decreases bugs.len(),
{
    let pre = bug_blocks(bugs.take(i)) + bug_title_line(bugs[i]);
    if i == bugs.len() - 1 {
        assert(bugs.drop_last() =~= bugs.take(i));
        assert(bug_blocks(bugs) == bug_blocks(bugs.take(i)) + bug_block(bugs[i]));
        assert(pre =~= bug_blocks(bugs).subrange(0, pre.len() as int));
    } else {
        let d = bugs.drop_last();
        lemma_bug_headings_in_order(d, i);
        assert(d.take(i) =~= bugs.take(i));
        assert(d[i] == bugs[i]);
        assert(bug_blocks(bugs) == bug_blocks(d) + bug_block(bugs.last()));
        assert(pre =~= bug_blocks(bugs).subrange(0, pre.len() as int));
    }
}

/// Appends `label` and the text when the text holds more than white space.
fn push_text_block(s: &mut String, label: &str, text: &Option<String>)
    ensures
        final(s)@ == old(s)@ + text_block(label@, *text),
{
    if let Some(t) = text {
        if !str_is_blank(t.as_str()) {
            s.append(label);
            s.append(t.as_str());
            s.append("\n");
        }
    }
    assert(final(s)@ =~= old(s)@ + text_block(label@, *text));
}

/// Appends a date as shown.
fn push_shown_date(s: &mut String, date: &str)
    ensures
        final(s)@ == old(s)@ + shown_date(date@),
{
    match format_rfc3339(date, SUMMARY_DATE_PATTERN) {
        Some(f) => s.append(f.as_str()),
        None => s.append(date),
    }
}

/// Appends the duration line for `secs` seconds.
fn push_duration_line(s: &mut String, secs: i64)
    ensures
        final(s)@ == old(s)@ + duration_line(secs as int),
{
    let wide = secs as i128;
    let hours: i128 = if wide >= 0 {
        wide / 3600
    } else {
        -((-wide) / 3600)
    };
    let total_minutes: i128 = if wide >= 0 {
        wide / 60
    } else {
        -((-wide) / 60)
    };
    let minutes: i128 = if total_minutes >= 0 {
        total_minutes - (total_minutes / 60) * 60
    } else {
        total_minutes + ((-total_minutes) / 60) * 60
    };
    assert(hours == trunc_div(secs as int, 3600));
    assert(total_minutes == trunc_div(secs as int, 60));
    assert(minutes == trunc_rem(total_minutes as int, 60));
    s.append("- **Duration:** ");
    push_signed_decimal(s, hours as i64);
    s.append("h ");
    push_signed_decimal(s, minutes as i64);
    s.append("m\n");
    assert(final(s)@ =~= old(s)@ + duration_line(secs as int));
}

fn push_info_head(s: &mut String, session: &Session)
    ensures
        final(s)@ == old(s)@ + info_head(*session),
{
    s.append("# QA Session Summary\n\n## Session Information\n\n- **Session ID:** ");
    s.append(session.id.as_str());
    s.append("\n");
    s.append("- **Started:** ");
    push_shown_date(s, session.started_at.as_str());
    s.append("\n");
    assert(final(s)@ =~= old(s)@ + info_head(*session));
}

fn push_info_end(s: &mut String, session: &Session)
    ensures
        final(s)@ == old(s)@ + info_end(*session),
{
    match &session.ended_at {
        Some(ended) => {
            s.append("- **Ended:** ");
            push_shown_date(s, ended.as_str());
            s.append("\n");
            let ghost mid = s@;
            match seconds_between(session.started_at.as_str(), ended.as_str()) {
                Some(secs) => push_duration_line(s, secs),
                None => {},
            }
        },
        None => s.append("- **Ended:** In Progress\n"),
    }
    assert(final(s)@ =~= old(s)@ + info_end(*session));
}

fn push_info_tail(s: &mut String, session: &Session, bug_count: usize)
    ensures
        final(s)@ == old(s)@ + info_tail(*session, bug_count as nat),
{
    s.append("- **Bug Count:** ");
    push_decimal(s, bug_count as u64);
    s.append("\n");
    s.append("- **Status:** ");
    s.append(session.status.as_str());
    s.append("\n");
    let ghost mid = s@;
    push_text_block(s, "\n### Session Notes\n\n", &session.session_notes);
    s.append("\n");
    assert(final(s)@ =~= old(s)@ + info_tail(*session, bug_count as nat));
}

/// Appends the session information block.
fn push_session_info(s: &mut String, session: &Session, bug_count: usize)
    ensures
        final(s)@ == old(s)@ + session_info(*session, bug_count as nat),
{
    push_info_head(s, session);
    push_info_end(s, session);
    push_info_tail(s, session, bug_count);
    assert(final(s)@ =~= old(s)@ + session_info(*session, bug_count as nat));
}

fn push_bug_title_line(s: &mut String, bug: &Bug)
    ensures
        final(s)@ == old(s)@ + bug_title_line(*bug),
{
    s.append("### ");
    s.append(bug.display_id.as_str());
    s.append(" - ");
    match &bug.title {
        Some(t) => s.append(t.as_str()),
        None => s.append("(No title)"),
    }
    s.append("\n\n");
    assert(final(s)@ =~= old(s)@ + bug_title_line(*bug));
}

fn push_bug_facts(s: &mut String, bug: &Bug)
    ensures
        final(s)@ == old(s)@ + bug_facts(*bug),
{
    s.append("- **Type:** ");
    s.append(bug.bug_type.as_str());
    s.append("\n");
    s.append("- **Status:** ");
    s.append(bug.status.as_str());
    s.append("\n");
    let ghost mid = s@;
    if let Some(v) = &bug.software_version {
        s.append("- **Software Version:** ");
        s.append(v.as_str());
        s.append("\n");
    }
    assert(final(s)@ =~= old(s)@ + bug_facts(*bug));
}

fn push_bug_head(s: &mut String, bug: &Bug)
    ensures
        final(s)@ == old(s)@ + bug_head(*bug),
{
    push_bug_title_line(s, bug);
    push_bug_facts(s, bug);
    assert(final(s)@ =~= old(s)@ + bug_head(*bug));
}

/// Appends the block of one bug.
fn push_bug_block(s: &mut String, bug: &Bug)
    ensures
        final(s)@ == old(s)@ + bug_block(*bug),
{
    push_bug_head(s, bug);
    let ghost mid = s@;
    push_text_block(s, "\n**Notes:**\n", &bug.notes);
    push_text_block(s, "\n**Description:**\n", &bug.description);
    push_text_block(s, "\n**AI Description:**\n", &bug.ai_description);
    assert(s@ =~= mid + bug_texts(*bug));
    s.append("\n");
    assert(final(s)@ =~= old(s)@ + bug_block(*bug));
}

/// The summary markdown of `session` with its `bugs` and, if given, an AI
/// overview.
pub fn summary_content(session: &Session, bugs: &[Bug], overview: Option<&str>) -> (r: String)
    ensures
        r@ == summary_text(
            *session,
            bugs@,
            match overview {
                Some(o) => Some(o@),
                None => None,
            },
        ),
{
    let mut content = String::new();
    push_session_info(&mut content, session, bugs.len());
    let ghost after_info = content@;
    if let Some(o) = overview {
        content.append("## Overview\n\n");
        content.append(o);
        content.append("\n\n");
    }
    let ghost after_overview = content@;
    if bugs.len() == 0 {
        content.append("## Bugs Captured\n\nNo bugs captured in this session.\n");
    } else {
        content.append("## Bugs Captured\n\n");
        let ghost start = content@;
        let mut i: usize = 0;
        while i < bugs.len()
            invariant
                i <= bugs@.len(),
                content@ == start + bug_blocks(bugs@.subrange(0, i as int)),
            decreases bugs@.len() - i,
        {
            push_bug_block(&mut content, &bugs[i]);
            assert(bugs@.subrange(0, i + 1).drop_last() =~= bugs@.subrange(0, i as int));
            i = i + 1;
        }
        assert(bugs@.subrange(0, bugs@.len() as int) =~= bugs@);
    }
    assert(content@ =~= summary_text(
        *session,
        bugs@,
        match overview {
            Some(o) => Some(o@),
            None => None,
        },
    ));
    content
}

/// Opening of the request for an AI overview of a session.
pub const OVERVIEW_INTRO: &'static str = "You are a QA analyst summarizing a testing session. Below are all the bugs captured in this session. Provide a concise high-level summary (2-3 paragraphs) of the overall quality findings, common themes, and severity of issues encountered.\n\n";

/// Closing of the request for an AI overview.
pub const OVERVIEW_CLOSING: &'static str = "\nProvide a high-level summary of this testing session's findings.\n";

/// Seconds allowed for an overview request.
pub const OVERVIEW_TIMEOUT_SECS: u64 = 120;

/// How one bug is presented to the AI: its id and title, then the best text
/// known of it (AI description, else description, else notes).
pub open spec fn overview_entry(bug: Bug) -> Seq<char> {
    "**"@ + bug.display_id@ + "**: "@ + match bug.title {
        Some(t) => t@,
        None => Seq::empty(),
    } + "\n"@ + match bug.ai_description {
        Some(a) => a@,
        None => match bug.description {
            Some(d) => d@,
            None => match bug.notes {
                Some(n) => n@,
                None => Seq::empty(),
            },
        },
    } + "\n\n"@
}

/// The presentations of all bugs, in order.
pub open spec fn overview_entries(bugs: Seq<Bug>) -> Seq<char>
    decreases bugs.len(),
{
    if bugs.len() == 0 {
        Seq::empty()
    } else {
        overview_entries(bugs.drop_last()) + overview_entry(bugs.last())
    }
}

/// The prompt asking for an overview of the bugs.
pub open spec fn overview_prompt(bugs: Seq<Bug>) -> Seq<char> {
    OVERVIEW_INTRO@ + overview_entries(bugs) + OVERVIEW_CLOSING@
}

fn push_overview_entry(s: &mut String, bug: &Bug)
    ensures
        final(s)@ == old(s)@ + overview_entry(*bug),
{
    s.append("**");
    s.append(bug.display_id.as_str());
    s.append("**: ");
    if let Some(t) = &bug.title {
        s.append(t.as_str());
    }
    s.append("\n");
    let ghost mid = s@;
    if let Some(a) = &bug.ai_description {
        s.append(a.as_str());
    } else if let Some(d) = &bug.description {
        s.append(d.as_str());
    } else if let Some(n) = &bug.notes {
        s.append(n.as_str());
    }
    s.append("\n\n");
    assert(final(s)@ =~= old(s)@ + overview_entry(*bug));
}

/// The request for an AI overview of `bugs`: a custom task with a long timeout.
pub fn overview_request(bugs: &[Bug]) -> (r: ClaudeRequest)
    ensures
        is_overview_request(bugs@, r),
{
    let mut prompt = String::from_str(OVERVIEW_INTRO);
    let ghost start = prompt@;
    let mut i: usize = 0;
    while i < bugs.len()
        invariant
            i <= bugs@.len(),
            prompt@ == start + overview_entries(bugs@.subrange(0, i as int)),
        decreases bugs@.len() - i,
    {
        push_overview_entry(&mut prompt, &bugs[i]);
        assert(bugs@.subrange(0, i + 1).drop_last() =~= bugs@.subrange(0, i as int));
        i = i + 1;
    }
    assert(bugs@.subrange(0, bugs@.len() as int) =~= bugs@);
    prompt.append(OVERVIEW_CLOSING);
    assert(prompt@ =~= overview_prompt(bugs@));
    ClaudeRequest::new_text(prompt, PromptTask::Custom).with_timeout(OVERVIEW_TIMEOUT_SECS)
}

/// What an overview request's outcome gives: the generated text, or an
/// error message quoting the service's error.
pub open spec fn overview_result(outcome: Result<ClaudeResponse, ClaudeError>, r: Result<String, String>) -> bool {
    match outcome {
        Ok(resp) => r == Ok::<String, String>(resp.content),
        Err(e) => r matches Err(m) && m@ == "Failed to generate AI summary: "@ + claude_error_text(e),
    }
}

/// The request that asks for an overview of `bugs`: a text-only custom
/// task with the overview prompt, about no particular bug.
pub open spec fn is_overview_request(bugs: Seq<Bug>, r: ClaudeRequest) -> bool {
    &&& r.prompt@ == overview_prompt(bugs)
    &&& r.image_paths@.len() == 0
    &&& r.task == PromptTask::Custom
    &&& r.bug_id is None
    &&& r.timeout_secs == OVERVIEW_TIMEOUT_SECS
}

/// The overview a request's outcome gives: the answer's text when the
/// service answered, none when it failed.
pub open spec fn answered_overview(outcome: Result<ClaudeResponse, ClaudeError>) -> Option<Seq<char>> {
    match outcome {
        Ok(resp) => Some(resp.content@),
        Err(_) => None,
    }
}

/// The overview text from the outcome of an overview request.
pub fn overview_outcome(outcome: Result<ClaudeResponse, ClaudeError>) -> (r: Result<String, String>)
    ensures
        overview_result(outcome, r),
{
    match outcome {
        Ok(resp) => Ok(resp.content),
        Err(e) => {
            let mut m = String::from_str("Failed to generate AI summary: ");
            m.append(e.to_string().as_str());
            Err(m)
        },
    }
}

/// Message for asking for an overview with no AI service configured.
pub const NOT_CONFIGURED: &'static str = "Assistant CLI not configured";

/// Writes session summaries; asks the AI service, when one is configured,
/// for an overview.
pub struct SessionSummaryGenerator<I: ClaudeInvoker> {
    db_path: PathBuf,
    claude_invoker: Option<Arc<I>>,
}

impl<I: ClaudeInvoker> SessionSummaryGenerator<I> {
    /// Where the session database lives.
    pub closed spec fn db_path_view(&self) -> PathBuf {
        self.db_path
    }

    /// The AI service, if one is configured.
    pub closed spec fn invoker_view(&self) -> Option<Arc<I>> {
        self.claude_invoker
    }

    /// A generator without an AI service.
    pub fn new(db_path: PathBuf) -> (r: Self)
        ensures
            r.db_path_view() == db_path,
            r.invoker_view() is None,
    {
        SessionSummaryGenerator { db_path, claude_invoker: None }
    }

    /// A generator using `claude_invoker` for overviews, if given.
    pub fn with_deps(db_path: PathBuf, claude_invoker: Option<Arc<I>>) -> (r: Self)
        ensures
            r.db_path_view() == db_path,
            r.invoker_view() == claude_invoker,
    {
        SessionSummaryGenerator { db_path, claude_invoker }
    }

    /// Where the session database lives.
    pub fn db_path(&self) -> (r: &PathBuf)
        ensures
            *r == self.db_path_view(),
    {
        &self.db_path
    }

    /// Asks the AI service for an overview of `bugs`, with the request that
    /// `overview_request` builds.
    pub fn generate_ai_overview(&self, bugs: &[Bug]) -> (r: Result<String, String>)
        ensures
            self.invoker_view() is None ==> (r matches Err(m) && m@ == NOT_CONFIGURED@),
            self.invoker_view() matches Some(inv) ==> exists|req: ClaudeRequest, outcome: Result<ClaudeResponse, ClaudeError>|
                is_overview_request(bugs@, req) && (*inv).answers(req, outcome) && overview_result(outcome, r),
    {
        match &self.claude_invoker {
            None => Err(String::from_str(NOT_CONFIGURED)),
            Some(invoker) => {
                let request = overview_request(bugs);
                let outcome = invoker.invoke(request);
                overview_outcome(outcome)
            },
        }
    }

    /// The summary of `session` and its `bugs`; an overview is asked for
    /// only when requested and there are bugs, and left out when it fails.
    pub fn build_summary_content(&self, session: &Session, bugs: &[Bug], include_ai_summary: bool) -> (r:
        Result<String, String>)
        ensures
            r matches Ok(c) && if include_ai_summary && bugs@.len() > 0 && self.invoker_view() is Some {
                exists|req: ClaudeRequest, outcome: Result<ClaudeResponse, ClaudeError>|
                    is_overview_request(bugs@, req) && (*self.invoker_view()->0).answers(req, outcome)
                        && c@ == summary_text(*session, bugs@, answered_overview(outcome))
            } else {
                c@ == summary_text(*session, bugs@, None)
            },
    {
        let overview = if include_ai_summary && bugs.len() > 0 {
            match self.generate_ai_overview(bugs) {
                Ok(text) => Some(text),
                Err(_) => None,
            }
        } else {
            None
        };
        let content = match &overview {
            Some(o) => summary_content(session, bugs, Some(o.as_str())),
            None => summary_content(session, bugs, None),
        };
        Ok(content)
    }
}

} // verus!

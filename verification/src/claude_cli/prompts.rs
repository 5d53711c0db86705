//! Prompt construction for the AI tasks: bug descriptions, console parsing,
//! refinement of a description and capture-to-bug assignment.
use vstd::prelude::*;

use crate::claude_cli::types::{BugContext, PromptTask};
use crate::text::{decimal, push_decimal, str_eq};

verus! {

/// Opening of the bug description prompt.
pub const DESCRIBE_INTRO: &'static str = "You are a QA analyst writing a structured bug report. Based on the provided screenshots and context, generate a clear, actionable bug description.\n\n";

/// The report layout the bug description prompt asks for.
pub const DESCRIBE_FORMAT: &'static str = "Please provide a bug report in the following format:\n\n## Summary\n[One-sentence description of the issue]\n\n## Steps to Reproduce\n1. [Step 1]\n2. [Step 2]\n...\n\n## Expected Behavior\n[What should happen]\n\n## Actual Behavior\n[What actually happens]\n\n## Additional Context\n[Any other relevant details from the screenshots or notes]\n\n";

/// The whole console parsing prompt.
pub const CONSOLE_PARSE_PROMPT: &'static str = "You are analyzing a console/terminal screenshot. Extract all errors, warnings, and important log messages from the image.\n\nPlease provide the output in the following JSON format:\n{\n  \"errors\": [\"error message 1\", \"error message 2\"],\n  \"warnings\": [\"warning message 1\", \"warning message 2\"],\n  \"logs\": [\"important log 1\", \"important log 2\"]\n}\n\nIf no errors/warnings are found, return empty arrays. Focus on technical details: error codes, stack traces, file paths, line numbers.\n";

/// Opening of the capture assignment prompt.
pub const ASSIGN_INTRO: &'static str = "You are a QA assistant. The FIRST image attached to this message is an unsorted screenshot captured during a testing session. Your task is to determine which existing bug this screenshot most likely belongs to, or whether it represents a new, previously unreported issue.\n\n";

/// What the capture assignment prompt says when the session has no bugs.
pub const ASSIGN_NO_BUGS: &'static str = "There are NO existing bugs in this session yet. This screenshot likely represents a new issue.\n\n";

/// Heading of the bug list in the capture assignment prompt.
pub const ASSIGN_BUGS_HEADING: &'static str = "Here are the existing bugs in this session:\n\n";

/// The answer format the capture assignment prompt asks for.
pub const ASSIGN_RESPONSE_FORMAT: &'static str = "Based on visual similarity, context, and any textual clues, respond with ONLY a JSON object (no markdown fences, no explanation outside the JSON):\n\n{\n  \"bug_display_id\": \"BUG-001\" or null,\n  \"confidence\": 0.0 to 1.0,\n  \"reasoning\": \"Brief explanation of why this screenshot matches (or doesn't match) an existing bug.\"\n}\n\nSet bug_display_id to null if the screenshot appears to be a new issue not covered by any existing bug.\nSet confidence to 0.0 if you cannot determine a match at all.\n";

/// Summary of a bug offered as a candidate in the capture assignment prompt.
pub struct BugSummary {
    pub display_id: String,
    pub title: Option<String>,
    pub notes: Option<String>,
    /// True if the bug's first screenshot is attached to the request.
    pub has_reference_image: bool,
    /// 1-based position of that screenshot among the attached images.
    pub reference_image_index: Option<usize>,
}

/// Builds the prompts of the AI tasks.
pub struct PromptBuilder;

/// Characters with the Unicode `White_Space` property.
pub open spec fn is_white_space(c: char) -> bool {
    let u = c as u32;
    (0x9 <= u && u <= 0xd) || u == 0x20 || u == 0x85 || u == 0xa0 || u == 0x1680 || (0x2000 <= u
        && u <= 0x200a) || u == 0x2028 || u == 0x2029 || u == 0x202f || u == 0x205f || u == 0x3000
}

/// True when `s` has nothing but white space (so that trimming leaves it empty).
pub open spec fn is_blank(s: Seq<char>) -> bool {
    forall|i: int| 0 <= i < s.len() ==> is_white_space(#[trigger] s[i])
}

/// Tells whether `c` has the Unicode `White_Space` property.
pub fn char_is_white_space(c: char) -> (r: bool)
    ensures
        r == is_white_space(c),
{
    let u = c as u32;
    (0x9 <= u && u <= 0xd) || u == 0x20 || u == 0x85 || u == 0xa0 || u == 0x1680 || (0x2000 <= u
        && u <= 0x200a) || u == 0x2028 || u == 0x2029 || u == 0x202f || u == 0x205f || u == 0x3000
}

/// Tells whether `s` is empty once surrounding white space is trimmed.
pub fn str_is_blank(s: &str) -> (r: bool)
    ensures
        r == is_blank(s@),
{
    let n = s.unicode_len();
    let mut i: usize = 0;
    while i < n
        invariant
            n == s@.len(),
            i <= n,
            forall|j: int| 0 <= j < i ==> is_white_space(#[trigger] s@[j]),
        decreases n - i,
    {
        if !char_is_white_space(s.get_char(i)) {
            return false;
        }
        i = i + 1;
    }
    true
}

/// `label`, the value and a line break, or nothing when there is no value.
pub open spec fn labelled_line(label: Seq<char>, value: Option<String>) -> Seq<char> {
    match value {
        Some(v) => label + v@ + "\n"@,
        None => Seq::empty(),
    }
}

/// The context lines of the bug description prompt.
pub open spec fn describe_metadata(ctx: BugContext) -> Seq<char> {
    labelled_line("Application: "@, ctx.app_name) + labelled_line("Version: "@, ctx.app_version)
        + labelled_line("Environment: "@, ctx.environment) + labelled_line(
        "Session/Meeting ID: "@,
        ctx.meeting_id,
    )
}

/// The notes section of the bug description prompt: present when the notes
/// hold more than white space.
pub open spec fn describe_notes(notes: Option<String>) -> Seq<char> {
    match notes {
        Some(n) => if is_blank(n@) {
            Seq::empty()
        } else {
            "Tester's Notes:\n"@ + n@ + "\n\n"@
        },
        None => Seq::empty(),
    }
}

/// The screenshot count line of the bug description prompt.
pub open spec fn describe_screenshots(count: nat) -> Seq<char> {
    if count > 0 {
        decimal(count) + " screenshot(s) are attached showing the issue.\n\n"@
    } else {
        Seq::empty()
    }
}

/// The closing note of the bug description prompt for items that are not bugs.
pub open spec fn describe_type_note(bug_type: Option<String>) -> Seq<char> {
    match bug_type {
        Some(t) => if t@ == "bug"@ {
            Seq::empty()
        } else {
            "Note: This is categorized as a '"@ + t@
                + "', not a bug. Adjust the format as appropriate.\n"@
        },
        None => Seq::empty(),
    }
}

/// The bug description prompt for a context.
pub open spec fn bug_description_prompt(ctx: BugContext) -> Seq<char> {
    DESCRIBE_INTRO@ + describe_metadata(ctx) + "\n"@ + describe_notes(ctx.notes)
        + describe_screenshots(ctx.screenshot_paths@.len()) + DESCRIBE_FORMAT@ + describe_type_note(
        ctx.bug_type,
    )
}

/// The refinement prompt for a description and the user's instructions.
pub open spec fn refinement_prompt(current: Seq<char>, instructions: Seq<char>) -> Seq<char> {
    "You are refining an existing bug report based on user feedback.\n\nCurrent Description:\n---\n"@
        + current + "\n---\n\nUser's Refinement Request:\n"@ + instructions
        + "\n\nPlease provide the updated bug report, incorporating the requested changes while preserving the overall structure and any accurate details.\n"@
}

/// The block that presents one candidate bug in the capture assignment prompt.
pub open spec fn bug_summary_section(b: BugSummary) -> Seq<char> {
    "### "@ + b.display_id@ + "\n"@ + labelled_line("Title: "@, b.title) + (match b.notes {
        Some(n) => if is_blank(n@) {
            Seq::empty()
        } else {
            "Notes: "@ + n@ + "\n"@
        },
        None => Seq::empty(),
    }) + (if b.has_reference_image && b.reference_image_index is Some {
        "(A reference screenshot for this bug is attached as image #"@ + decimal(
            b.reference_image_index->0 as nat,
        ) + ")\n"@
    } else {
        Seq::empty()
    }) + "\n"@
}

/// The blocks of all candidate bugs, in order.
pub open spec fn bug_summary_sections(bugs: Seq<BugSummary>) -> Seq<char>
    decreases bugs.len(),
{
    if bugs.len() == 0 {
        Seq::empty()
    } else {
        bug_summary_sections(bugs.drop_last()) + bug_summary_section(bugs.last())
    }
}

/// The capture assignment prompt for a list of candidate bugs.
pub open spec fn capture_assignment_prompt(bugs: Seq<BugSummary>) -> Seq<char> {
    ASSIGN_INTRO@ + (if bugs.len() == 0 {
        ASSIGN_NO_BUGS@
    } else {
        ASSIGN_BUGS_HEADING@ + bug_summary_sections(bugs)
    }) + ASSIGN_RESPONSE_FORMAT@
}

/// The prompt for a task, given the bug context and the user's text where
/// the task uses them.
pub open spec fn task_prompt(
    task: PromptTask,
    context: Option<BugContext>,
    custom_text: Option<Seq<char>>,
) -> Seq<char> {
    match task {
        PromptTask::DescribeBug => match context {
            Some(ctx) => bug_description_prompt(ctx),
            None => "Generate a bug description."@,
        },
        PromptTask::ParseConsole => CONSOLE_PARSE_PROMPT@,
        PromptTask::RefineDescription => match (context, custom_text) {
            (Some(ctx), Some(instructions)) => refinement_prompt(
                match ctx.notes {
                    Some(n) => n@,
                    None => Seq::empty(),
                },
                instructions,
            ),
            _ => "Refine the description."@,
        },
        PromptTask::Custom => match custom_text {
            Some(t) => t,
            None => Seq::empty(),
        },
    }
}

/// Appends `label`, the value and a line break when there is a value.
fn push_labelled_line(s: &mut String, label: &str, value: &Option<String>)
    ensures
        final(s)@ == old(s)@ + labelled_line(label@, *value),
{
    if let Some(v) = value {
        s.append(label);
        s.append(v.as_str());
        s.append("\n");
        assert(final(s)@ =~= old(s)@ + labelled_line(label@, *value));
    } else {
        assert(final(s)@ =~= old(s)@ + labelled_line(label@, *value));
    }
}

/// Appends the block that presents `bug` in the capture assignment prompt.
fn push_bug_summary_section(prompt: &mut String, bug: &BugSummary)
    ensures
        final(prompt)@ == old(prompt)@ + bug_summary_section(*bug),
{
    prompt.append("### ");
    prompt.append(bug.display_id.as_str());
    prompt.append("\n");
    push_labelled_line(prompt, "Title: ", &bug.title);
    if let Some(notes) = &bug.notes {
        if !str_is_blank(notes.as_str()) {
            prompt.append("Notes: ");
            prompt.append(notes.as_str());
            prompt.append("\n");
        }
    }
    if bug.has_reference_image {
        if let Some(idx) = bug.reference_image_index {
            prompt.append("(A reference screenshot for this bug is attached as image #");
            push_decimal(prompt, idx as u64);
            prompt.append(")\n");
        }
    }
    prompt.append("\n");
    assert(prompt@ =~= old(prompt)@ + bug_summary_section(*bug));
}

impl PromptBuilder {
    /// The prompt asking for a structured bug report from screenshots and notes.
    pub fn build_bug_description_prompt(context: &BugContext) -> (r: String)
        ensures
            r@ == bug_description_prompt(*context),
    {
        let mut prompt = String::from_str(DESCRIBE_INTRO);
        push_labelled_line(&mut prompt, "Application: ", &context.app_name);
        push_labelled_line(&mut prompt, "Version: ", &context.app_version);
        push_labelled_line(&mut prompt, "Environment: ", &context.environment);
        push_labelled_line(&mut prompt, "Session/Meeting ID: ", &context.meeting_id);
        assert(prompt@ =~= DESCRIBE_INTRO@ + describe_metadata(*context));
        prompt.append("\n");
        let ghost before_notes = prompt@;
        if let Some(notes) = &context.notes {
            if !str_is_blank(notes.as_str()) {
                prompt.append("Tester's Notes:\n");
                prompt.append(notes.as_str());
                prompt.append("\n\n");
            }
        }
        assert(prompt@ =~= before_notes + describe_notes(context.notes));
        let ghost before_count = prompt@;
        let count = context.screenshot_paths.len();
        if count > 0 {
            push_decimal(&mut prompt, count as u64);
            prompt.append(" screenshot(s) are attached showing the issue.\n\n");
        }
        assert(prompt@ =~= before_count + describe_screenshots(
            context.screenshot_paths@.len(),
        ));
        prompt.append(DESCRIBE_FORMAT);
        let ghost before_note = prompt@;
        if let Some(bug_type) = &context.bug_type {
            if !str_eq(bug_type.as_str(), "bug") {
                prompt.append("Note: This is categorized as a '");
                prompt.append(bug_type.as_str());
                prompt.append("', not a bug. Adjust the format as appropriate.\n");
            }
        }
        assert(prompt@ =~= before_note + describe_type_note(context.bug_type));
        assert(prompt@ =~= bug_description_prompt(*context));
        prompt
    }

    /// The prompt asking to extract errors and warnings from a console screenshot.
    pub fn build_console_parse_prompt() -> (r: String)
        ensures
            r@ == CONSOLE_PARSE_PROMPT@,
    {
        String::from_str(CONSOLE_PARSE_PROMPT)
    }

    /// The prompt asking to rework `current_description` following
    /// `refinement_instructions`.
    pub fn build_refinement_prompt(current_description: &str, refinement_instructions: &str) -> (r:
        String)
        ensures
            r@ == refinement_prompt(current_description@, refinement_instructions@),
    {
        let mut prompt = String::from_str(
            "You are refining an existing bug report based on user feedback.\n\nCurrent Description:\n---\n",
        );
        prompt.append(current_description);
        prompt.append("\n---\n\nUser's Refinement Request:\n");
        prompt.append(refinement_instructions);
        prompt.append(
            "\n\nPlease provide the updated bug report, incorporating the requested changes while preserving the overall structure and any accurate details.\n",
        );
        assert(prompt@ =~= refinement_prompt(current_description@, refinement_instructions@));
        prompt
    }

    /// The prompt asking which bug an unsorted screenshot belongs to. The
    /// screenshot is the first attached image; each bug's reference image,
    /// when attached, is named by its position.
    pub fn build_capture_assignment_prompt(bugs: &[BugSummary]) -> (r: String)
        ensures
            r@ == capture_assignment_prompt(bugs@),
    {
        let mut prompt = String::from_str(ASSIGN_INTRO);
        if bugs.len() == 0 {
            prompt.append(ASSIGN_NO_BUGS);
        } else {
            prompt.append(ASSIGN_BUGS_HEADING);
            let ghost start = prompt@;
            let mut i: usize = 0;
            while i < bugs.len()
                invariant
                    i <= bugs@.len(),
                    prompt@ == start + bug_summary_sections(bugs@.subrange(0, i as int)),
                decreases bugs@.len() - i,
            {
                let ghost before = prompt@;
                push_bug_summary_section(&mut prompt, &bugs[i]);
                assert(prompt@ =~= before + bug_summary_section(bugs@[i as int]));
                assert(bugs@.subrange(0, i + 1).drop_last() =~= bugs@.subrange(0, i as int));
                i = i + 1;
            }
            assert(bugs@.subrange(0, bugs@.len() as int) =~= bugs@);
        }
        prompt.append(ASSIGN_RESPONSE_FORMAT);
        assert(prompt@ =~= capture_assignment_prompt(bugs@));
        prompt
    }

    /// The user's own prompt, unchanged.
    pub fn build_custom_prompt(user_prompt: &str) -> (r: String)
        ensures
            r@ == user_prompt@,
    {
        String::from_str(user_prompt)
    }

    /// The prompt for `task`. A bug description uses the context; a
    /// refinement takes the current description from the context's notes and
    /// the instructions from `custom_text`; a custom task uses `custom_text`.
    pub fn build_prompt(task: &PromptTask, context: Option<&BugContext>, custom_text: Option<&str>) -> (r:
        String)
        ensures
            r@ == task_prompt(
                *task,
                match context {
                    Some(c) => Some(*c),
                    None => None,
                },
                match custom_text {
                    Some(t) => Some(t@),
                    None => None,
                },
            ),
    {
        match task {
            PromptTask::DescribeBug => {
                if let Some(ctx) = context {
                    Self::build_bug_description_prompt(ctx)
                } else {
                    String::from_str("Generate a bug description.")
                }
            },
            PromptTask::ParseConsole => Self::build_console_parse_prompt(),
            PromptTask::RefineDescription => {
                match (context, custom_text) {
                    (Some(ctx), Some(instructions)) => {
                        let current: &str = match &ctx.notes {
                            Some(n) => n.as_str(),
                            None => "",
                        };
                        proof {
                            reveal_strlit("");
                        }
                        Self::build_refinement_prompt(current, instructions)
                    },
                    _ => String::from_str("Refine the description."),
                }
            },
            PromptTask::Custom => {
                if let Some(text) = custom_text {
                    Self::build_custom_prompt(text)
                } else {
                    proof {
                        reveal_strlit("");
                    }
                    String::from_str("")
                }
            },
        }
    }
}

} // verus!

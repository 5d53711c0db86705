use std::path::PathBuf;
use unbroken_qa_capture::claude_cli::{BugContext, BugSummary, PromptBuilder, PromptTask};

fn bare_context(bug_id: &str) -> BugContext {
    BugContext {
        bug_id: bug_id.to_string(),
        notes: None,
        screenshot_paths: vec![],
        app_name: None,
        app_version: None,
        meeting_id: None,
        environment: None,
        bug_type: None,
    }
}

#[test]
fn test_build_bug_description_prompt_minimal() {
    let context = bare_context("BUG-001");
    let prompt = PromptBuilder::build_bug_description_prompt(&context);
    assert!(prompt.contains("QA analyst"));
    assert!(prompt.contains("## Summary"));
    assert!(prompt.contains("## Steps to Reproduce"));
    assert!(prompt.contains("## Expected Behavior"));
    assert!(prompt.contains("## Actual Behavior"));
}

#[test]
fn test_build_bug_description_prompt_full() {
    let context = BugContext {
        bug_id: "BUG-002".to_string(),
        notes: Some("Button doesn't respond to clicks".to_string()),
        screenshot_paths: vec![
            PathBuf::from("/path/to/screenshot1.png"),
            PathBuf::from("/path/to/screenshot2.png"),
        ],
        app_name: Some("TestApp".to_string()),
        app_version: Some("1.2.3".to_string()),
        meeting_id: Some("SESSION-001".to_string()),
        environment: Some("Windows 11".to_string()),
        bug_type: Some("bug".to_string()),
    };
    let prompt = PromptBuilder::build_bug_description_prompt(&context);
    assert!(prompt.contains("Application: TestApp"));
    assert!(prompt.contains("Version: 1.2.3"));
    assert!(prompt.contains("Environment: Windows 11"));
    assert!(prompt.contains("Session/Meeting ID: SESSION-001"));
    assert!(prompt.contains("Button doesn't respond to clicks"));
    assert!(prompt.contains("2 screenshot(s)"));
}

#[test]
fn test_build_console_parse_prompt() {
    let prompt = PromptBuilder::build_console_parse_prompt();
    assert!(prompt.contains("console/terminal screenshot"));
    assert!(prompt.contains("errors"));
    assert!(prompt.contains("warnings"));
    assert!(prompt.contains("JSON format"));
}

#[test]
fn test_build_refinement_prompt() {
    let current = "This is the current bug description.";
    let instructions = "Make it more detailed.";
    let prompt = PromptBuilder::build_refinement_prompt(current, instructions);
    assert!(prompt.contains("Current Description"));
    assert!(prompt.contains(current));
    assert!(prompt.contains("Refinement Request"));
    assert!(prompt.contains(instructions));
}

#[test]
fn test_build_custom_prompt() {
    let custom = "My custom prompt text";
    let prompt = PromptBuilder::build_custom_prompt(custom);
    assert_eq!(prompt, custom);
}

#[test]
fn test_build_prompt_describe_bug() {
    let mut context = bare_context("BUG-003");
    context.notes = Some("Test note".to_string());
    context.app_name = Some("App".to_string());
    let prompt = PromptBuilder::build_prompt(&PromptTask::DescribeBug, Some(&context), None);
    assert!(prompt.contains("QA analyst"));
    assert!(prompt.contains("Test note"));
}

#[test]
fn test_build_prompt_parse_console() {
    let prompt = PromptBuilder::build_prompt(&PromptTask::ParseConsole, None, None);
    assert!(prompt.contains("console/terminal"));
}

#[test]
fn test_build_prompt_custom() {
    let custom_text = "Custom prompt";
    let prompt = PromptBuilder::build_prompt(&PromptTask::Custom, None, Some(custom_text));
    assert_eq!(prompt, custom_text);
}

#[test]
fn test_build_capture_assignment_prompt_no_bugs() {
    let prompt = PromptBuilder::build_capture_assignment_prompt(&[]);
    assert!(prompt.contains("unsorted screenshot"));
    assert!(prompt.contains("NO existing bugs"));
    assert!(prompt.contains("bug_display_id"));
    assert!(prompt.contains("confidence"));
    assert!(prompt.contains("reasoning"));
}

#[test]
fn test_build_capture_assignment_prompt_with_bugs() {
    let bugs = vec![
        BugSummary {
            display_id: "BUG-001".to_string(),
            title: Some("Login button broken".to_string()),
            notes: Some("Can't click login".to_string()),
            has_reference_image: true,
            reference_image_index: Some(2),
        },
        BugSummary {
            display_id: "BUG-002".to_string(),
            title: None,
            notes: None,
            has_reference_image: false,
            reference_image_index: None,
        },
    ];
    let prompt = PromptBuilder::build_capture_assignment_prompt(&bugs);
    assert!(prompt.contains("BUG-001"));
    assert!(prompt.contains("Login button broken"));
    assert!(prompt.contains("Can't click login"));
    assert!(prompt.contains("image #2"));
    assert!(prompt.contains("BUG-002"));
    assert!(!prompt.contains("NO existing bugs"));
}

// ── exact texts ─────────────────────────────────────────────────────────

#[test]
fn bug_description_prompt_exact_layout() {
    let mut context = bare_context("BUG-9");
    context.app_name = Some("App".to_string());
    context.notes = Some("  \t\n".to_string());
    context.screenshot_paths = vec![PathBuf::from("a.png")];
    context.bug_type = Some("feature".to_string());
    let prompt = PromptBuilder::build_bug_description_prompt(&context);
    let expected = format!(
        "You are a QA analyst writing a structured bug report. Based on the provided screenshots and context, generate a clear, actionable bug description.\n\nApplication: App\n\n1 screenshot(s) are attached showing the issue.\n\n{}Note: This is categorized as a 'feature', not a bug. Adjust the format as appropriate.\n",
        "Please provide a bug report in the following format:\n\n## Summary\n[One-sentence description of the issue]\n\n## Steps to Reproduce\n1. [Step 1]\n2. [Step 2]\n...\n\n## Expected Behavior\n[What should happen]\n\n## Actual Behavior\n[What actually happens]\n\n## Additional Context\n[Any other relevant details from the screenshots or notes]\n\n"
    );
    assert_eq!(prompt, expected);
}

#[test]
fn blank_notes_are_left_out_of_prompts() {
    let mut context = bare_context("BUG-1");
    context.notes = Some("\u{3000}\u{2003} ".to_string());
    let prompt = PromptBuilder::build_bug_description_prompt(&context);
    assert!(!prompt.contains("Tester's Notes"));
    context.notes = Some(" x ".to_string());
    let prompt = PromptBuilder::build_bug_description_prompt(&context);
    assert!(prompt.contains("Tester's Notes:\n x \n\n"));
}

#[test]
fn refinement_prompt_exact_text() {
    let prompt = PromptBuilder::build_refinement_prompt("old", "new");
    assert_eq!(
        prompt,
        "You are refining an existing bug report based on user feedback.\n\nCurrent Description:\n---\nold\n---\n\nUser's Refinement Request:\nnew\n\nPlease provide the updated bug report, incorporating the requested changes while preserving the overall structure and any accurate details.\n"
    );
}

#[test]
fn build_prompt_fallbacks() {
    assert_eq!(
        PromptBuilder::build_prompt(&PromptTask::DescribeBug, None, None),
        "Generate a bug description."
    );
    assert_eq!(
        PromptBuilder::build_prompt(&PromptTask::RefineDescription, None, Some("x")),
        "Refine the description."
    );
    assert_eq!(PromptBuilder::build_prompt(&PromptTask::Custom, None, None), "");
    let context = bare_context("BUG-1");
    let prompt = PromptBuilder::build_prompt(&PromptTask::RefineDescription, Some(&context), Some("do"));
    assert_eq!(prompt, PromptBuilder::build_refinement_prompt("", "do"));
}

#[test]
fn capture_assignment_prompt_reference_image_needs_index() {
    let bugs = vec![BugSummary {
        display_id: "BUG-007".to_string(),
        title: None,
        notes: Some("   ".to_string()),
        has_reference_image: true,
        reference_image_index: None,
    }];
    let prompt = PromptBuilder::build_capture_assignment_prompt(&bugs);
    assert!(prompt.contains("### BUG-007\n\n"));
    assert!(!prompt.contains("image #"));
    assert!(!prompt.contains("Notes:"));
}

use std::collections::HashMap;
use unbroken_qa_capture::template::{
    greet, render_template, replace_conditional, BugData, BugMetadata, Environment,
};
use unbroken_qa_capture::text::replace_str;

fn create_test_bug() -> BugData {
    BugData {
        title: "Test Bug".to_string(),
        bug_type: "UI".to_string(),
        description_steps: "1. Click button\n2. Observe error".to_string(),
        description_expected: "Button should work".to_string(),
        description_actual: "Button crashes app".to_string(),
        metadata: BugMetadata {
            meeting_id: Some("MTG-123".to_string()),
            software_version: Some("1.0.0".to_string()),
            environment: Environment {
                os: "Windows 11".to_string(),
                display_resolution: "1920x1080".to_string(),
                dpi_scaling: "100%".to_string(),
                ram: "16GB".to_string(),
                cpu: "Intel i7".to_string(),
                foreground_app: "TestApp".to_string(),
            },
            console_captures: vec![],
            custom_fields: HashMap::new(),
        },
        folder_path: "/path/to/bug".to_string(),
        captures: vec!["screenshot1.png".to_string(), "screenshot2.png".to_string()],
        console_output: Some("Error: Something went wrong".to_string()),
    }
}

const TEMPLATE: &str = "# {bug.title}\r\nType: {bug.type}\n{bug.metadata:- **Meeting ID:** {value}}\n{bug.metadata.meetingId:- **Meeting ID:** {value}}\nOS: {bug.metadata.environment.os} ({bug.metadata.environment.displayResolution})\nVersion: {bug.metadata.softwareVersion}\n## Steps\n{bug.description.steps}\n## Captures ({bug.captures.count} file(s))\n{bug.captures.list}\n```\n{bug.consoleOutput}\n```";

#[test]
fn test_conditional_field_with_value() {
    let output = render_template(TEMPLATE, &create_test_bug());
    assert!(output.contains("- **Meeting ID:** MTG-123\n"));
    assert!(output.contains("# Test Bug\nType: UI\n"));
    assert!(output.contains("OS: Windows 11 (1920x1080)\nVersion: 1.0.0\n"));
}

#[test]
fn test_conditional_field_without_value() {
    let mut bug = create_test_bug();
    bug.metadata.meeting_id = None;
    bug.metadata.software_version = None;
    bug.console_output = None;
    let output = render_template(TEMPLATE, &bug);
    assert!(!output.contains("- **Meeting ID:** MTG"));
    assert!(output.contains("Version: Unknown\n"));
    assert!(output.contains("No console output captured"));
}

#[test]
fn test_captures_list() {
    let output = render_template(TEMPLATE, &create_test_bug());
    assert!(output.contains("screenshot1.png"));
    assert!(output.contains("screenshot2.png"));
    assert!(output.contains("2 file(s)"));
    assert!(output.contains("- screenshot1.png\n- screenshot2.png\n"));
    assert!(output.ends_with("```\nError: Something went wrong\n```\n"));
}

#[test]
fn conditional_lines_exact() {
    let t = "a\n  {f:x={value}} tail\nb\r\n{f:unclosed {value}\nc";
    assert_eq!(replace_conditional(t, "f", &Some("V".to_string())), "a\n  x=V\nb\n\nc\n");
    assert_eq!(replace_conditional(t, "f", &None), "a\nb\nc\n");
    assert_eq!(replace_conditional("", "f", &None), "");
    assert_eq!(replace_conditional("{f:{{x}}-{value}}!", "f", &Some("v".to_string())), "{{x}}-v\n");
}

#[test]
fn replace_matches_std() {
    for (s, p, r) in [("aaa", "aa", "b"), ("abcabc", "bc", ""), ("", "x", "y"), ("ééé", "é", "e"), ("xyz", "xyzw", "q")] {
        assert_eq!(replace_str(s, p, r), s.replace(p, r));
    }
}

#[test]
fn greeting() {
    assert_eq!(greet("QA"), "Hello, QA! You've been greeted from Rust!");
}

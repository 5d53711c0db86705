use unbroken_qa_capture::models::{BugStatus, BugType, CaptureType, SessionStatus};

#[test]
fn test_session_status_conversions() {
    assert_eq!(SessionStatus::Active.as_str(), "active");
    assert_eq!(SessionStatus::from_str("active").unwrap(), SessionStatus::Active);
    assert_eq!(SessionStatus::from_str("ended").unwrap(), SessionStatus::Ended);
    assert!(SessionStatus::from_str("invalid").is_err());
}

#[test]
fn test_bug_type_conversions() {
    assert_eq!(BugType::Bug.as_str(), "bug");
    assert_eq!(BugType::from_str("feature").unwrap(), BugType::Feature);
    assert!(BugType::from_str("invalid").is_err());
}

#[test]
fn test_bug_status_conversions() {
    assert_eq!(BugStatus::Capturing.as_str(), "capturing");
    assert_eq!(BugStatus::from_str("ready").unwrap(), BugStatus::Ready);
}

#[test]
fn test_capture_type_conversions() {
    assert_eq!(CaptureType::Screenshot.as_str(), "screenshot");
    assert_eq!(CaptureType::from_str("video").unwrap(), CaptureType::Video);
}

#[test]
fn status_round_trips_and_error_messages() {
    for s in [SessionStatus::Active, SessionStatus::Ended, SessionStatus::Reviewed, SessionStatus::Synced] {
        assert_eq!(SessionStatus::from_str(s.as_str()).unwrap(), s);
    }
    for t in [BugType::Bug, BugType::Feature, BugType::Feedback] {
        assert_eq!(BugType::from_str(t.as_str()).unwrap(), t);
    }
    for s in [BugStatus::Capturing, BugStatus::Captured, BugStatus::Reviewed, BugStatus::Ready] {
        assert_eq!(BugStatus::from_str(s.as_str()).unwrap(), s);
    }
    assert_eq!(SessionStatus::from_str("x").unwrap_err(), "Invalid session status: x");
    assert_eq!(BugType::from_str("Bug").unwrap_err(), "Invalid bug type: Bug");
    assert_eq!(BugStatus::from_str("").unwrap_err(), "Invalid bug status: ");
    assert_eq!(CaptureType::from_str("gif").unwrap_err(), "Invalid capture type: gif");
}

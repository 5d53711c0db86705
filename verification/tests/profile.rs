use unbroken_qa_capture::profile::seed::{build_contio_profile, CONTIO_PROFILE_ID};
use unbroken_qa_capture::profile::{
    AreaCategory, CustomFieldType, CustomMetadataField, InMemoryProfileRepository,
    ProfileRepository, QaProfile,
};

fn make_profile(id: &str, name: &str) -> QaProfile {
    QaProfile {
        id: id.to_string(),
        name: name.to_string(),
        linear_config: None,
        area_categories: vec![AreaCategory {
            code: "UI".to_string(),
            name: "User Interface".to_string(),
            description: None,
        }],
        custom_fields: vec![CustomMetadataField {
            key: "severity".to_string(),
            label: "Severity".to_string(),
            field_type: CustomFieldType::Select,
            default_value: Some("medium".to_string()),
            required: false,
            options: Some(vec!["low".to_string(), "medium".to_string(), "high".to_string()]),
        }],
        title_conventions: None,
        created_at: "2024-01-01T00:00:00Z".to_string(),
        updated_at: "2024-01-01T00:00:00Z".to_string(),
    }
}

#[test]
fn test_create_and_get() {
    let mut repo = InMemoryProfileRepository::new();
    let profile = make_profile("profile-1", "My Profile");
    repo.create(&profile).unwrap();
    let retrieved = repo.get("profile-1").unwrap();
    assert!(retrieved.is_some());
    let retrieved_profile = retrieved.unwrap();
    assert_eq!(retrieved_profile.id, "profile-1");
    assert_eq!(retrieved_profile.name, "My Profile");
}

#[test]
fn test_get_returns_none_for_missing_id() {
    let repo = InMemoryProfileRepository::new();
    let result = repo.get("nonexistent").unwrap();
    assert!(result.is_none());
}

#[test]
fn test_list_profiles() {
    let mut repo = InMemoryProfileRepository::new();
    repo.create(&make_profile("profile-1", "Alpha")).unwrap();
    repo.create(&make_profile("profile-2", "Beta")).unwrap();
    let profiles = repo.list().unwrap();
    assert_eq!(profiles.len(), 2);
    assert_eq!(profiles[0].id, "profile-1");
    assert_eq!(profiles[1].id, "profile-2");
}

#[test]
fn test_list_empty_repository() {
    let repo = InMemoryProfileRepository::new();
    let profiles = repo.list().unwrap();
    assert!(profiles.is_empty());
}

#[test]
fn test_update_profile() {
    let mut repo = InMemoryProfileRepository::new();
    let profile = make_profile("profile-1", "Original Name");
    repo.create(&profile).unwrap();
    let mut updated = profile.clone();
    updated.name = "Updated Name".to_string();
    repo.update(&updated).unwrap();
    let retrieved = repo.get("profile-1").unwrap().unwrap();
    assert_eq!(retrieved.name, "Updated Name");
}

#[test]
fn test_update_nonexistent_profile_fails() {
    let mut repo = InMemoryProfileRepository::new();
    let profile = make_profile("profile-99", "Ghost");
    let result = repo.update(&profile);
    assert!(result.is_err());
    assert!(result.unwrap_err().contains("not found"));
}

#[test]
fn test_delete_profile() {
    let mut repo = InMemoryProfileRepository::new();
    let profile = make_profile("profile-1", "To Delete");
    repo.create(&profile).unwrap();
    repo.delete("profile-1").unwrap();
    let retrieved = repo.get("profile-1").unwrap();
    assert!(retrieved.is_none());
    let profiles = repo.list().unwrap();
    assert!(profiles.is_empty());
}

#[test]
fn test_delete_nonexistent_profile_fails() {
    let mut repo = InMemoryProfileRepository::new();
    let result = repo.delete("nonexistent");
    assert!(result.is_err());
    assert!(result.unwrap_err().contains("not found"));
}

#[test]
fn test_create_duplicate_id_fails() {
    let mut repo = InMemoryProfileRepository::new();
    let profile = make_profile("profile-1", "First");
    repo.create(&profile).unwrap();
    let duplicate = make_profile("profile-1", "Second");
    let result = repo.create(&duplicate);
    assert!(result.is_err());
    assert!(result.unwrap_err().contains("already exists"));
    let retrieved = repo.get("profile-1").unwrap().unwrap();
    assert_eq!(retrieved.name, "First");
}

#[test]
fn test_custom_field_type_conversions() {
    assert_eq!(CustomFieldType::Text.as_str(), "text");
    assert_eq!(CustomFieldType::Number.as_str(), "number");
    assert_eq!(CustomFieldType::Select.as_str(), "select");
    assert_eq!(CustomFieldType::from_str("text").unwrap(), CustomFieldType::Text);
    assert_eq!(CustomFieldType::from_str("number").unwrap(), CustomFieldType::Number);
    assert_eq!(CustomFieldType::from_str("select").unwrap(), CustomFieldType::Select);
    assert!(CustomFieldType::from_str("invalid").is_err());
}

#[test]
fn test_contio_profile_has_all_area_categories() {
    let profile = build_contio_profile("2024-01-01T00:00:00Z".to_string());
    assert_eq!(profile.area_categories.len(), 15);
}

#[test]
fn test_contio_profile_linear_config() {
    let profile = build_contio_profile("2024-01-01T00:00:00Z".to_string());
    let cfg = profile.linear_config.unwrap();
    assert_eq!(cfg.team_id, "44c86ac8-cb80-4302-9d81-a0a350b2c352");
    assert_eq!(cfg.default_bug_label_ids.len(), 1);
    assert_eq!(cfg.default_feature_label_ids.len(), 2);
    assert_eq!(cfg.default_state_id, Some("aa635d13-f2bb-48f2-a395-2fd15e0b0441".to_string()));
}

#[test]
fn test_contio_profile_custom_fields() {
    let profile = build_contio_profile("2024-01-01T00:00:00Z".to_string());
    assert_eq!(profile.custom_fields.len(), 5);
    let meeting_id = profile.custom_fields.iter().find(|f| f.key == "meeting_id").unwrap();
    assert!(meeting_id.required);
    assert_eq!(meeting_id.field_type, CustomFieldType::Text);
    assert!(meeting_id.options.is_none());
    let version = profile.custom_fields.iter().find(|f| f.key == "software_version").unwrap();
    assert!(!version.required);
    assert_eq!(version.field_type, CustomFieldType::Text);
    assert!(version.options.is_none());
    let impact = profile.custom_fields.iter().find(|f| f.key == "impact").unwrap();
    assert!(impact.required);
    assert_eq!(impact.field_type, CustomFieldType::Select);
    let impact_opts = impact.options.as_ref().unwrap();
    assert_eq!(impact_opts, &["Critical", "High", "Medium", "Low"]);
    let workaround = profile.custom_fields.iter().find(|f| f.key == "workaround").unwrap();
    assert!(!workaround.required);
    assert_eq!(workaround.field_type, CustomFieldType::Select);
    let workaround_opts = workaround.options.as_ref().unwrap();
    assert_eq!(workaround_opts, &["Yes", "No", "Partial"]);
    let area_cat = profile.custom_fields.iter().find(|f| f.key == "area_category").unwrap();
    assert!(!area_cat.required);
    assert_eq!(area_cat.field_type, CustomFieldType::Select);
    let area_opts = area_cat.options.as_ref().unwrap();
    assert!(area_opts.is_empty(), "area_category options should be empty (populated at runtime)");
}

#[test]
fn test_contio_profile_title_conventions() {
    let profile = build_contio_profile("2024-01-01T00:00:00Z".to_string());
    let tc = profile.title_conventions.unwrap();
    assert_eq!(tc.bug_prefix, "QA Bug Found - ");
    assert_eq!(tc.feature_prefix, "[QA Feature Suggestion] ");
}

// ── further cases ───────────────────────────────────────────────────────

#[test]
fn repository_messages_and_laws() {
    let mut repo = InMemoryProfileRepository::new();
    repo.create(&make_profile("a", "A")).unwrap();
    assert_eq!(repo.create(&make_profile("a", "B")).unwrap_err(), "Profile with id 'a' already exists");
    assert_eq!(repo.delete("b").unwrap_err(), "Profile with id 'b' not found");
    assert_eq!(repo.update(&make_profile("c", "C")).unwrap_err(), "Profile with id 'c' not found");
    repo.create(&make_profile("b", "B")).unwrap();
    repo.delete("a").unwrap();
    let ids: Vec<String> = repo.list().unwrap().into_iter().map(|p| p.id).collect();
    assert_eq!(ids, vec!["b".to_string()]);
    assert_eq!(repo.get("b").unwrap().unwrap(), make_profile("b", "B"));
}

#[test]
fn contio_profile_identity() {
    let profile = build_contio_profile("now".to_string());
    assert_eq!(profile.id, CONTIO_PROFILE_ID);
    assert_eq!(profile.name, "Contio MeetingOS");
    assert_eq!(profile.created_at, "now");
    assert_eq!(profile.updated_at, "now");
    assert_eq!(profile.area_categories[0].code, "LGN");
    assert_eq!(profile.area_categories[14].name, "Contio AI");
    assert_eq!(profile.clone(), profile);
    assert_eq!(CustomFieldType::from_str("bool").unwrap_err(), "Invalid custom field type: bool");
}

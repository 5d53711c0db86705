//! The built-in Contio MeetingOS profile, seeded when no profile exists yet.
use vstd::prelude::*;

use crate::profile::types::{
    AreaCategory, CustomFieldType, CustomMetadataField, LinearProfileConfig, QaProfile,
    TitleConventions,
};

verus! {

/// Fixed id of the built-in profile, so that it is seeded at most once.
pub const CONTIO_PROFILE_ID: &'static str = "contio-meetingos-default-profile";

/// Linear team of the built-in profile.
pub const CONTIO_TEAM_ID: &'static str = "44c86ac8-cb80-4302-9d81-a0a350b2c352";

/// Default assignee of bugs filed with the built-in profile.
pub const CONTIO_ASSIGNEE_ID: &'static str = "976c10e6-d43b-49f0-9007-e59c88c4624b";

/// The `untriaged` label.
pub const UNTRIAGED_LABEL_ID: &'static str = "9ac15a53-d87b-4f6c-8360-1870482689f7";

/// The `Feature-request` label.
pub const FEATURE_REQUEST_LABEL_ID: &'static str = "90a8f314-886d-4952-ad6c-0fbedf136c43";

/// The `Backlog` state.
pub const BACKLOG_STATE_ID: &'static str = "aa635d13-f2bb-48f2-a395-2fd15e0b0441";

/// Codes of the built-in area categories, in order.
pub open spec fn contio_area_codes() -> Seq<Seq<char>> {
    seq![
        "LGN"@, "ASET"@, "USET"@, "TPP"@, "INSTALL"@, "VIEWS"@, "DRAFT"@, "AGENDA"@, "MEET"@,
        "SUMRY"@, "SHARE"@, "ACTION"@, "CAL"@, "META"@, "AI"@,
    ]
}

/// Names of the built-in area categories, in order.
pub open spec fn contio_area_names() -> Seq<Seq<char>> {
    seq![
        "Login"@, "Application Settings"@, "User Settings"@, "Transcript Processing"@,
        "Desktop Installation"@, "Meeting Views"@, "Backlog and Drafts"@, "Agenda Creation"@,
        "Meeting Capture"@, "Meeting Summary"@, "Sharing Summaries"@, "Action Items"@,
        "Calendar Integration"@, "Meeting Metadata"@, "Contio AI"@,
    ]
}

/// An area category with the given code and name and some description.
fn area(code: &str, name: &str, description: &str) -> (r: AreaCategory)
    ensures
        r.code@ == code@,
        r.name@ == name@,
        r.description matches Some(d) && d@ == description@,
{
    AreaCategory {
        code: String::from_str(code),
        name: String::from_str(name),
        description: Some(String::from_str(description)),
    }
}

/// A custom field with no default value.
fn field(
    key: &str,
    label: &str,
    field_type: CustomFieldType,
    required: bool,
    options: Option<Vec<String>>,
) -> (r: CustomMetadataField)
    ensures
        r.key@ == key@,
        r.label@ == label@,
        r.field_type == field_type,
        r.default_value is None,
        r.required == required,
        r.options == options,
{
    CustomMetadataField {
        key: String::from_str(key),
        label: String::from_str(label),
        field_type,
        default_value: None,
        required,
        options,
    }
}

/// A list of strings with the given values.
fn strings(values: &[&str]) -> (r: Vec<String>)
    ensures
        r@.len() == values@.len(),
        forall|i: int| 0 <= i < values@.len() ==> (#[trigger] r@[i])@ == values@[i]@,
{
    let mut r: Vec<String> = Vec::new();
    let mut i: usize = 0;
    while i < values.len()
        invariant
            i <= values@.len(),
            r@.len() == i,
            forall|j: int| 0 <= j < i ==> (#[trigger] r@[j])@ == values@[j]@,
        decreases values@.len() - i,
    {
        r.push(String::from_str(values[i]));
        i = i + 1;
    }
    r
}

/// The built-in Contio MeetingOS profile, created and updated at `now`.
pub fn build_contio_profile(now: String) -> (r: QaProfile)
    ensures
        r.id@ == CONTIO_PROFILE_ID@,
        r.name@ == "Contio MeetingOS"@,
        r.linear_config matches Some(c) && {
            &&& c.team_id@ == CONTIO_TEAM_ID@
            &&& c.api_key@.len() == 0
            &&& c.default_assignee_id matches Some(a) && a@ == CONTIO_ASSIGNEE_ID@
            &&& c.default_bug_label_ids@.len() == 1
            &&& c.default_bug_label_ids@[0]@ == UNTRIAGED_LABEL_ID@
            &&& c.default_feature_label_ids@.len() == 2
            &&& c.default_feature_label_ids@[0]@ == FEATURE_REQUEST_LABEL_ID@
            &&& c.default_feature_label_ids@[1]@ == UNTRIAGED_LABEL_ID@
            &&& c.default_state_id matches Some(s) && s@ == BACKLOG_STATE_ID@
            &&& c.bug_template_id is None
            &&& c.feature_template_id is None
        },
        r.area_categories@.len() == 15,
        forall|i: int|
            0 <= i < 15 ==> (#[trigger] r.area_categories@[i]).code@ == contio_area_codes()[i]
                && r.area_categories@[i].name@ == contio_area_names()[i]
                && r.area_categories@[i].description is Some,
        r.custom_fields@.len() == 5,
        r.custom_fields@[0].key@ == "meeting_id"@ && r.custom_fields@[0].field_type
            == CustomFieldType::Text && r.custom_fields@[0].required && r.custom_fields@[0].options is None,
        r.custom_fields@[1].key@ == "software_version"@ && r.custom_fields@[1].field_type
            == CustomFieldType::Text && !r.custom_fields@[1].required
            && r.custom_fields@[1].options is None,
        r.custom_fields@[2].key@ == "impact"@ && r.custom_fields@[2].field_type
            == CustomFieldType::Select && r.custom_fields@[2].required && (r.custom_fields@[2].options matches Some(o)
            && o@.map_values(|s: String| s@) == seq!["Critical"@, "High"@, "Medium"@, "Low"@]),
        r.custom_fields@[3].key@ == "workaround"@ && r.custom_fields@[3].field_type
            == CustomFieldType::Select && !r.custom_fields@[3].required
            && (r.custom_fields@[3].options matches Some(o) && o@.map_values(|s: String| s@) == seq![
            "Yes"@,
            "No"@,
            "Partial"@,
        ]),
        r.custom_fields@[4].key@ == "area_category"@ && r.custom_fields@[4].field_type
            == CustomFieldType::Select && !r.custom_fields@[4].required
            && (r.custom_fields@[4].options matches Some(o) && o@.len() == 0),
        r.custom_fields@.map_values(|f: CustomMetadataField| f.default_value is None) == seq![
            true,
            true,
            true,
            true,
            true,
        ],
        r.title_conventions matches Some(t) && t.bug_prefix@ == "QA Bug Found - "@
            && t.feature_prefix@ == "[QA Feature Suggestion] "@,
        r.created_at == now,
        r.updated_at == now,
{
    let bug_labels = strings(&[UNTRIAGED_LABEL_ID]);
    let feature_labels = strings(&[FEATURE_REQUEST_LABEL_ID, UNTRIAGED_LABEL_ID]);
    let linear = LinearProfileConfig {
        team_id: String::from_str(CONTIO_TEAM_ID),
        api_key: String::new(),
        default_assignee_id: Some(String::from_str(CONTIO_ASSIGNEE_ID)),
        default_bug_label_ids: bug_labels,
        default_feature_label_ids: feature_labels,
        default_state_id: Some(String::from_str(BACKLOG_STATE_ID)),
        bug_template_id: None,
        feature_template_id: None,
    };
    let mut areas: Vec<AreaCategory> = Vec::new();
    areas.push(area("LGN", "Login", "Email and Social Logins"));
    areas.push(
        area(
            "ASET",
            "Application Settings",
            "Settings that change how MeetingOS works and are controlled by an administrator or owner",
        ),
    );
    areas.push(
        area(
            "USET",
            "User Settings",
            "Settings set by an individual user for their own MeetingOS account",
        ),
    );
    areas.push(
        area(
            "TPP",
            "Transcript Processing",
            "Processing meeting transcripts either uploaded or post meeting",
        ),
    );
    areas.push(
        area(
            "INSTALL",
            "Desktop Installation",
            "Covers tests during the installation process of the desktop software including download, installation and uninstall",
        ),
    );
    areas.push(
        area(
            "VIEWS",
            "Meeting Views",
            "Ways to view past and future meetings (Home, In My Workspace, Drafts, Recaps on Hold, Backlog, Search)",
        ),
    );
    areas.push(
        area(
            "DRAFT",
            "Backlog and Drafts",
            "Meeting state before a meeting is officially created which includes Backlog items and Meeting Drafts",
        ),
    );
    areas.push(
        area(
            "AGENDA",
            "Agenda Creation",
            "Creating, editing, and updating the agenda either manually or using contio.ai",
        ),
    );
    areas.push(area("MEET", "Meeting Capture", "Meeting capture"));
    areas.push(area("SUMRY", "Meeting Summary", "Meeting Summary creation and editing"));
    areas.push(
        area(
            "SHARE",
            "Sharing Summaries",
            "Sharing the meeting summary via copy and paste, email, URL",
        ),
    );
    areas.push(
        area(
            "ACTION",
            "Action Items",
            "Action item creation and viewing - anything related to action items specifically",
        ),
    );
    areas.push(
        area("CAL", "Calendar Integration", "Calendar integrations and calendar event connections"),
    );
    areas.push(
        area(
            "META",
            "Meeting Metadata",
            "Meeting time, date, title, and other metadata entered during setup is shows and saves accurately for the user",
        ),
    );
    areas.push(area("AI", "Contio AI", "Contio AI features and related functionality"));

    let impact_options = strings(&["Critical", "High", "Medium", "Low"]);
    let workaround_options = strings(&["Yes", "No", "Partial"]);
    let mut fields: Vec<CustomMetadataField> = Vec::new();
    fields.push(field("meeting_id", "Meeting ID", CustomFieldType::Text, true, None));
    fields.push(
        field("software_version", "Contio MeetingOS Version", CustomFieldType::Text, false, None),
    );
    fields.push(
        field("impact", "Impact Level", CustomFieldType::Select, true, Some(impact_options)),
    );
    fields.push(
        field(
            "workaround",
            "Workaround Available",
            CustomFieldType::Select,
            false,
            Some(workaround_options),
        ),
    );
    fields.push(
        field("area_category", "Area / Category", CustomFieldType::Select, false, Some(Vec::new())),
    );
    let created_at = now.clone();
    let r = QaProfile {
        id: String::from_str(CONTIO_PROFILE_ID),
        name: String::from_str("Contio MeetingOS"),
        linear_config: Some(linear),
        area_categories: areas,
        custom_fields: fields,
        title_conventions: Some(
            TitleConventions {
                bug_prefix: String::from_str("QA Bug Found - "),
                feature_prefix: String::from_str("[QA Feature Suggestion] "),
            },
        ),
        created_at,
        updated_at: now,
    };
    assert(r.custom_fields@.map_values(|f: CustomMetadataField| f.default_value is None) =~= seq![
        true,
        true,
        true,
        true,
        true,
    ]);
    assert(r.custom_fields@[2].options->0@.map_values(|s: String| s@) =~= seq![
        "Critical"@,
        "High"@,
        "Medium"@,
        "Low"@,
    ]);
    assert(r.custom_fields@[3].options->0@.map_values(|s: String| s@) =~= seq![
        "Yes"@,
        "No"@,
        "Partial"@,
    ]);
    r
}

} // verus!

//! QA profiles: everything a testing engagement is configured with.
use vstd::prelude::*;

use crate::text::str_eq;

verus! {

/// A string copied from an optional string, keeping it equal.
pub fn clone_opt_string(s: &Option<String>) -> (r: Option<String>)
    ensures
        r == *s,
{
    match s {
        Some(v) => Some(v.clone()),
        None => None,
    }
}

/// A copy of a list of strings, with the same strings.
pub fn clone_strings(v: &Vec<String>) -> (r: Vec<String>)
    ensures
        r@ == v@,
{
    let r = v.clone();
    assert(r@ =~= v@);
    r
}

/// A QA testing profile.
#[derive(Debug, PartialEq)]
pub struct QaProfile {
    pub id: String,
    pub name: String,
    pub linear_config: Option<LinearProfileConfig>,
    pub area_categories: Vec<AreaCategory>,
    pub custom_fields: Vec<CustomMetadataField>,
    pub title_conventions: Option<TitleConventions>,
    pub created_at: String,
    pub updated_at: String,
}

/// How a profile files issues in Linear.
#[derive(Debug, PartialEq)]
pub struct LinearProfileConfig {
    pub team_id: String,
    pub api_key: String,
    pub default_assignee_id: Option<String>,
    pub default_bug_label_ids: Vec<String>,
    pub default_feature_label_ids: Vec<String>,
    pub default_state_id: Option<String>,
    /// Template for bug-type issues.
    pub bug_template_id: Option<String>,
    /// Template for feature-type issues.
    pub feature_template_id: Option<String>,
}

/// A functional area that bugs are classified by.
#[derive(Debug, PartialEq)]
pub struct AreaCategory {
    pub code: String,
    pub name: String,
    pub description: Option<String>,
}

/// A custom metadata field of a profile.
#[derive(Debug, PartialEq)]
pub struct CustomMetadataField {
    pub key: String,
    pub label: String,
    pub field_type: CustomFieldType,
    pub default_value: Option<String>,
    pub required: bool,
    /// Allowed values of a `Select` field; empty or absent when they are
    /// filled in at run time.
    pub options: Option<Vec<String>>,
}

/// Types of custom metadata fields.
#[derive(Debug, Clone, Copy, PartialEq, Eq, Structural)]
pub enum CustomFieldType {
    Text,
    Number,
    Select,
}

/// Prefixes of generated issue titles.
#[derive(Debug, PartialEq)]
pub struct TitleConventions {
    pub bug_prefix: String,
    pub feature_prefix: String,
}

/// The same strings, in the same order.
pub open spec fn same_strings(a: Vec<String>, b: Vec<String>) -> bool {
    a@ == b@
}

/// Two Linear settings that hold the same values.
pub open spec fn same_linear_config(a: LinearProfileConfig, b: LinearProfileConfig) -> bool {
    &&& a.team_id == b.team_id
    &&& a.api_key == b.api_key
    &&& a.default_assignee_id == b.default_assignee_id
    &&& same_strings(a.default_bug_label_ids, b.default_bug_label_ids)
    &&& same_strings(a.default_feature_label_ids, b.default_feature_label_ids)
    &&& a.default_state_id == b.default_state_id
    &&& a.bug_template_id == b.bug_template_id
    &&& a.feature_template_id == b.feature_template_id
}

/// Two field definitions that hold the same values.
pub open spec fn same_field(a: CustomMetadataField, b: CustomMetadataField) -> bool {
    &&& a.key == b.key
    &&& a.label == b.label
    &&& a.field_type == b.field_type
    &&& a.default_value == b.default_value
    &&& a.required == b.required
    &&& match (a.options, b.options) {
        (Some(x), Some(y)) => same_strings(x, y),
        (None, None) => true,
        _ => false,
    }
}

/// Two profiles that hold the same values.
pub open spec fn same_profile(a: QaProfile, b: QaProfile) -> bool {
    &&& a.id == b.id
    &&& a.name == b.name
    &&& match (a.linear_config, b.linear_config) {
        (Some(x), Some(y)) => same_linear_config(x, y),
        (None, None) => true,
        _ => false,
    }
    &&& a.area_categories@ == b.area_categories@
    &&& a.custom_fields@.len() == b.custom_fields@.len()
    &&& forall|i: int|
        0 <= i < a.custom_fields@.len() ==> same_field(
            #[trigger] a.custom_fields@[i],
            b.custom_fields@[i],
        )
    &&& a.title_conventions == b.title_conventions
    &&& a.created_at == b.created_at
    &&& a.updated_at == b.updated_at
}

impl Clone for LinearProfileConfig {
    fn clone(&self) -> (r: Self)
        ensures
            same_linear_config(r, *self),
    {
        LinearProfileConfig {
            team_id: self.team_id.clone(),
            api_key: self.api_key.clone(),
            default_assignee_id: clone_opt_string(&self.default_assignee_id),
            default_bug_label_ids: clone_strings(&self.default_bug_label_ids),
            default_feature_label_ids: clone_strings(&self.default_feature_label_ids),
            default_state_id: clone_opt_string(&self.default_state_id),
            bug_template_id: clone_opt_string(&self.bug_template_id),
            feature_template_id: clone_opt_string(&self.feature_template_id),
        }
    }
}

impl Clone for AreaCategory {
    fn clone(&self) -> (r: Self)
        ensures
            r == *self,
    {
        AreaCategory {
            code: self.code.clone(),
            name: self.name.clone(),
            description: clone_opt_string(&self.description),
        }
    }
}

impl Clone for CustomMetadataField {
    fn clone(&self) -> (r: Self)
        ensures
            same_field(r, *self),
    {
        CustomMetadataField {
            key: self.key.clone(),
            label: self.label.clone(),
            field_type: self.field_type,
            default_value: clone_opt_string(&self.default_value),
            required: self.required,
            options: match &self.options {
                Some(o) => Some(clone_strings(o)),
                None => None,
            },
        }
    }
}

impl Clone for TitleConventions {
    fn clone(&self) -> (r: Self)
        ensures
            r == *self,
    {
        TitleConventions {
            bug_prefix: self.bug_prefix.clone(),
            feature_prefix: self.feature_prefix.clone(),
        }
    }
}

impl Clone for QaProfile {
    fn clone(&self) -> (r: Self)
        ensures
            same_profile(r, *self),
    {
        let areas = self.area_categories.clone();
        assert(areas@ =~= self.area_categories@);
        let fields = self.custom_fields.clone();
        assert forall|i: int| 0 <= i < fields@.len() implies same_field(
            #[trigger] fields@[i],
            self.custom_fields@[i],
        ) by {
            assert(cloned(self.custom_fields@[i], fields@[i]));
        }
        QaProfile {
            id: self.id.clone(),
            name: self.name.clone(),
            linear_config: match &self.linear_config {
                Some(c) => Some(c.clone()),
                None => None,
            },
            area_categories: areas,
            custom_fields: fields,
            title_conventions: match &self.title_conventions {
                Some(t) => Some(t.clone()),
                None => None,
            },
            created_at: self.created_at.clone(),
            updated_at: self.updated_at.clone(),
        }
    }
}

/// The stored text form of a field type.
pub open spec fn custom_field_type_text(t: CustomFieldType) -> Seq<char> {
    match t {
        CustomFieldType::Text => "text"@,
        CustomFieldType::Number => "number"@,
        CustomFieldType::Select => "select"@,
    }
}

/// Distinct field types have distinct text forms.
pub proof fn lemma_custom_field_type_text_injective(a: CustomFieldType, b: CustomFieldType)
    ensures
        custom_field_type_text(a) == custom_field_type_text(b) ==> a == b,
{
    reveal_strlit("text");
    reveal_strlit("number");
    reveal_strlit("select");
    if custom_field_type_text(a) == custom_field_type_text(b) {
        assert(custom_field_type_text(a).len() == custom_field_type_text(b).len());
        assert(custom_field_type_text(a)[0] == custom_field_type_text(b)[0]);
    }
}

impl CustomFieldType {
    /// The stored text form of this field type.
    pub fn as_str(&self) -> (r: &str)
        ensures
            r@ == custom_field_type_text(*self),
    {
        match self {
            CustomFieldType::Text => "text",
            CustomFieldType::Number => "number",
            CustomFieldType::Select => "select",
        }
    }

    /// Parses the stored text form of a field type.
    pub fn from_str(s: &str) -> (r: Result<Self, String>)
        ensures
            match r {
                Ok(v) => custom_field_type_text(v) == s@,
                Err(e) => (forall|v: CustomFieldType| custom_field_type_text(v) != s@) && e@
                    == "Invalid custom field type: "@ + s@,
            },
    {
        if str_eq(s, "text") {
            Ok(CustomFieldType::Text)
        } else if str_eq(s, "number") {
            Ok(CustomFieldType::Number)
        } else if str_eq(s, "select") {
            Ok(CustomFieldType::Select)
        } else {
            assert forall|v: CustomFieldType| custom_field_type_text(v) != s@ by {
                match v {
                    CustomFieldType::Text => {},
                    CustomFieldType::Number => {},
                    CustomFieldType::Select => {},
                }
            }
            let mut e = String::from_str("Invalid custom field type: ");
            e.append(s);
            Err(e)
        }
    }
}

} // verus!

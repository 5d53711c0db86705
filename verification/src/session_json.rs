//! The record of a bug in `.session.json`: its identity, type, title,
//! description, capture files and metadata, where the metadata gathers the
//! bug's meeting, software version, parsed console capture and the entries
//! of its stored metadata object.
use vstd::prelude::*;

use crate::json::{escape_pointer_token, json_object_keys, json_object_keys_at, json_value_text, json_value_text_at, pointer_token};
use crate::models::{bug_type_text, Bug};

verus! {

/// A metadata value: a plain string, or the compact text of a JSON value.
#[derive(Debug, Clone, PartialEq)]
pub enum MetadataValue {
    Text(String),
    Json(String),
}

/// A bug as `.session.json` lists it. The metadata entries are written into
/// the record's metadata object in this order, a later entry replacing an
/// earlier one with the same key.
#[derive(Debug, Clone, PartialEq)]
pub struct BugJson {
    pub id: String,
    pub display_id: String,
    pub bug_type: String,
    pub title: Option<String>,
    pub description: Option<String>,
    pub captures: Vec<String>,
    pub metadata: Vec<(String, MetadataValue)>,
}

/// A metadata entry as its key, whether its value is JSON text, and that text.
pub open spec fn entry_view(e: (String, MetadataValue)) -> (Seq<char>, bool, Seq<char>) {
    match e.1 {
        MetadataValue::Text(s) => (e.0@, false, s@),
        MetadataValue::Json(s) => (e.0@, true, s@),
    }
}

/// The entry `key` with the plain string `v`, when there is one.
pub open spec fn text_entry(key: Seq<char>, v: Option<String>) -> Seq<(Seq<char>, bool, Seq<char>)> {
    match v {
        Some(s) => seq![(key, false, s@)],
        None => Seq::empty(),
    }
}

/// The `consoleParse` entry: the parsed console capture, when it is JSON.
pub open spec fn console_entry(v: Option<String>) -> Seq<(Seq<char>, bool, Seq<char>)> {
    match v {
        Some(t) => match json_value_text_at(t@, ""@) {
            Some(j) => seq![("consoleParse"@, true, j)],
            None => Seq::empty(),
        },
        None => Seq::empty(),
    }
}

/// The entries of the JSON object `text` for its keys `keys`, in order.
pub open spec fn object_entries(text: Seq<char>, keys: Seq<Seq<char>>) -> Seq<(Seq<char>, bool, Seq<char>)>
    decreases keys.len(),
{
    if keys.len() == 0 {
        Seq::empty()
    } else {
        let rest = object_entries(text, keys.drop_last());
        match json_value_text_at(text, "/"@ + pointer_token(keys.last())) {
            Some(j) => rest.push((keys.last(), true, j)),
            None => rest,
        }
    }
}

/// The entries of the stored metadata, when it is a JSON object.
pub open spec fn extra_entries(v: Option<String>) -> Seq<(Seq<char>, bool, Seq<char>)> {
    match v {
        Some(t) => match json_object_keys_at(t@, ""@) {
            Some(keys) => object_entries(t@, keys),
            None => Seq::empty(),
        },
        None => Seq::empty(),
    }
}

/// The metadata entries of `bug`, in the order they are written.
pub open spec fn bug_metadata(bug: Bug) -> Seq<(Seq<char>, bool, Seq<char>)> {
    text_entry("meetingId"@, bug.meeting_id) + text_entry("softwareVersion"@, bug.software_version)
        + console_entry(bug.console_parse_json) + extra_entries(bug.metadata_json)
}

/// The entries of the JSON object `text`, when it is one.
fn object_metadata(text: &str) -> (r: Vec<(String, MetadataValue)>)
    ensures
        r@.map_values(|e: (String, MetadataValue)| entry_view(e)) == match json_object_keys_at(text@, ""@) {
            Some(keys) => object_entries(text@, keys),
            None => Seq::empty(),
        },
{
    let keys = match json_object_keys(text, "") {
        Some(k) => k,
        None => Vec::new(),
    };
    let ghost kv = keys@.map_values(|s: String| s@);
    let mut out: Vec<(String, MetadataValue)> = Vec::new();
    let mut i: usize = 0;
    while i < keys.len()
        invariant
            i <= keys@.len(),
            kv == keys@.map_values(|s: String| s@),
            out@.map_values(|e: (String, MetadataValue)| entry_view(e)) == object_entries(text@, kv.take(i as int)),
        decreases keys@.len() - i,
    {
        let mut p = String::from_str("/");
        p.append(escape_pointer_token(keys[i].as_str()).as_str());
        let ghost before = out@;
        assert(kv.take(i + 1).drop_last() =~= kv.take(i as int));
        assert(kv.take(i + 1).last() == keys@[i as int]@);
        match json_value_text(text, p.as_str()) {
            Some(j) => {
                let item = (keys[i].clone(), MetadataValue::Json(j));
                let ghost gi = item;
                out.push(item);
                assert(out@.map_values(|e: (String, MetadataValue)| entry_view(e)) =~= before.map_values(
                    |e: (String, MetadataValue)| entry_view(e),
                ).push(entry_view(gi)));
            },
            None => {},
        }
        i = i + 1;
    }
    assert(kv.take(keys@.len() as int) =~= kv);
    proof {
        if json_object_keys_at(text@, ""@) is None {
            assert(kv =~= Seq::<Seq<char>>::empty());
        }
    }
    out
}

/// The record of `bug` whose folder holds the capture files `captures`:
/// the description is the bug's own, else its AI description; the metadata
/// is `bug_metadata(bug)`.
pub fn bug_json(bug: &Bug, captures: Vec<String>) -> (r: BugJson)
    ensures
        r.id@ == bug.id@,
        r.display_id@ == bug.display_id@,
        r.bug_type@ == bug_type_text(bug.bug_type),
        r.title == bug.title,
        r.description == (if bug.description is Some { bug.description } else { bug.ai_description }),
        r.captures@ == captures@,
        r.metadata@.map_values(|e: (String, MetadataValue)| entry_view(e)) == bug_metadata(*bug),
{
    let mut metadata: Vec<(String, MetadataValue)> = Vec::new();
    if let Some(v) = &bug.meeting_id {
        metadata.push((String::from_str("meetingId"), MetadataValue::Text(v.clone())));
    }
    assert(metadata@.map_values(|e: (String, MetadataValue)| entry_view(e)) =~= text_entry("meetingId"@, bug.meeting_id));
    let ghost m1 = metadata@;
    if let Some(v) = &bug.software_version {
        metadata.push((String::from_str("softwareVersion"), MetadataValue::Text(v.clone())));
    }
    assert(metadata@.map_values(|e: (String, MetadataValue)| entry_view(e)) =~= text_entry("meetingId"@, bug.meeting_id)
        + text_entry("softwareVersion"@, bug.software_version));
    let ghost m2 = metadata@;
    if let Some(t) = &bug.console_parse_json {
        if let Some(j) = json_value_text(t.as_str(), "") {
            metadata.push((String::from_str("consoleParse"), MetadataValue::Json(j)));
        }
    }
    assert(metadata@.map_values(|e: (String, MetadataValue)| entry_view(e)) =~= text_entry("meetingId"@, bug.meeting_id)
        + text_entry("softwareVersion"@, bug.software_version) + console_entry(bug.console_parse_json));
    if let Some(t) = &bug.metadata_json {
        let mut extra = object_metadata(t.as_str());
        let ghost m3 = metadata@;
        let ghost e3 = extra@;
        metadata.append(&mut extra);
        assert(metadata@ == m3 + e3);
        assert((m3 + e3).map_values(|e: (String, MetadataValue)| entry_view(e)) =~= m3.map_values(
            |e: (String, MetadataValue)| entry_view(e),
        ) + e3.map_values(|e: (String, MetadataValue)| entry_view(e)));
    } else {
        assert(extra_entries(bug.metadata_json) =~= Seq::<(Seq<char>, bool, Seq<char>)>::empty());
    }
    let description = match &bug.description {
        Some(d) => Some(d.clone()),
        None => bug.ai_description.clone(),
    };
    BugJson {
        id: bug.id.clone(),
        display_id: bug.display_id.clone(),
        bug_type: String::from_str(bug.bug_type.as_str()),
        title: bug.title.clone(),
        description,
        captures,
        metadata,
    }
}

} // verus!

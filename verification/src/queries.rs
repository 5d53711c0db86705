//! Statements sent to the session database whose shape depends on the
//! data: the partial update of a bug, which sets only the fields given.
use vstd::prelude::*;

use crate::models::{bug_status_text, bug_type_text, BugUpdate};

verus! {

/// The columns a partial update may set, in order, with the value given for
/// each (none when the field is left as it is).
pub open spec fn update_columns(u: BugUpdate) -> Seq<(Seq<char>, Option<Seq<char>>)> {
    seq![
        ("type"@, match u.bug_type { Some(t) => Some(bug_type_text(t)), None => None }),
        ("title"@, match u.title { Some(v) => Some(v@), None => None }),
        ("notes"@, match u.notes { Some(v) => Some(v@), None => None }),
        ("description"@, match u.description { Some(v) => Some(v@), None => None }),
        ("ai_description"@, match u.ai_description { Some(v) => Some(v@), None => None }),
        ("status"@, match u.status { Some(s) => Some(bug_status_text(s)), None => None }),
        ("meeting_id"@, match u.meeting_id { Some(v) => Some(v@), None => None }),
        ("software_version"@, match u.software_version { Some(v) => Some(v@), None => None }),
        ("custom_metadata"@, match u.custom_metadata { Some(v) => Some(v@), None => None }),
    ]
}

/// The assignments for the columns that have a value.
pub open spec fn set_list(cols: Seq<(Seq<char>, Option<Seq<char>>)>) -> Seq<char>
    decreases cols.len(),
{
    if cols.len() == 0 {
        Seq::empty()
    } else {
        set_list(cols.drop_last()) + match cols.last().1 {
            Some(_) => ", "@ + cols.last().0 + " = ?"@,
            None => Seq::empty(),
        }
    }
}

/// The values of the columns that have one, in order.
pub open spec fn set_values(cols: Seq<(Seq<char>, Option<Seq<char>>)>) -> Seq<Seq<char>>
    decreases cols.len(),
{
    if cols.len() == 0 {
        Seq::empty()
    } else {
        match cols.last().1 {
            Some(v) => set_values(cols.drop_last()).push(v),
            None => set_values(cols.drop_last()),
        }
    }
}

/// The partial update of bug `id`: its modification time is always reset,
/// and each given field is set; the parameters are the given values in the
/// same order, then the id.
pub open spec fn partial_update(id: Seq<char>, u: BugUpdate) -> (Seq<char>, Seq<Seq<char>>) {
    (
        "UPDATE bugs SET updated_at = datetime('now')"@ + set_list(update_columns(u))
            + " WHERE id = ?"@,
        set_values(update_columns(u)).push(id),
    )
}

/// The statement text and parameters of the partial update of bug `id`.
pub fn bug_partial_update(id: &str, update: &BugUpdate) -> (r: (String, Vec<String>))
    ensures
        (r.0@, r.1@.map_values(|p: String| p@)) == partial_update(id@, *update),
{
    let mut cols: Vec<(&str, Option<String>)> = Vec::new();
    cols.push(("type", match &update.bug_type {
        Some(t) => Some(String::from_str(t.as_str())),
        None => None,
    }));
    cols.push(("title", match &update.title { Some(v) => Some(v.clone()), None => None }));
    cols.push(("notes", match &update.notes { Some(v) => Some(v.clone()), None => None }));
    cols.push(("description", match &update.description { Some(v) => Some(v.clone()), None => None }));
    cols.push(("ai_description", match &update.ai_description {
        Some(v) => Some(v.clone()),
        None => None,
    }));
    cols.push(("status", match &update.status {
        Some(s) => Some(String::from_str(s.as_str())),
        None => None,
    }));
    cols.push(("meeting_id", match &update.meeting_id { Some(v) => Some(v.clone()), None => None }));
    cols.push(("software_version", match &update.software_version {
        Some(v) => Some(v.clone()),
        None => None,
    }));
    cols.push(("custom_metadata", match &update.custom_metadata {
        Some(v) => Some(v.clone()),
        None => None,
    }));
    let ghost spec_cols = update_columns(*update);
    assert(cols@.len() == spec_cols.len());
    assert forall|k: int| 0 <= k < cols@.len() implies #[trigger] cols@[k].0@ == spec_cols[k].0
        && match cols@[k].1 {
        Some(v) => spec_cols[k].1 == Some(v@),
        None => spec_cols[k].1 is None,
    } by {}
    let mut query = String::from_str("UPDATE bugs SET updated_at = datetime('now')");
    let ghost start = query@;
    let mut params: Vec<String> = Vec::new();
    let mut i: usize = 0;
    while i < cols.len()
        invariant
            i <= cols@.len(),
            cols@.len() == spec_cols.len(),
            forall|k: int|
                0 <= k < cols@.len() ==> #[trigger] cols@[k].0@ == spec_cols[k].0 && match cols@[k].1 {
                    Some(v) => spec_cols[k].1 == Some(v@),
                    None => spec_cols[k].1 is None,
                },
            query@ == start + set_list(spec_cols.subrange(0, i as int)),
            params@.map_values(|p: String| p@) == set_values(spec_cols.subrange(0, i as int)),
        decreases cols@.len() - i,
    {
        let ghost prev = spec_cols.subrange(0, i as int);
        assert(spec_cols.subrange(0, i + 1).drop_last() =~= prev);
        let (column, value) = &cols[i];
        assert(spec_cols.subrange(0, i + 1).last() == spec_cols[i as int]);
        assert(column@ == spec_cols[i as int].0);
        match value {
            Some(v) => {
                assert(spec_cols[i as int].1 == Some(v@));
                query.append(", ");
                query.append(column);
                query.append(" = ?");
                params.push(v.clone());
                assert(params@.map_values(|p: String| p@) =~= set_values(prev).push(v@));
            },
            None => {
                assert(spec_cols[i as int].1 is None);
            },
        }
        assert(query@ =~= start + set_list(spec_cols.subrange(0, i + 1)));
        i = i + 1;
    }
    assert(spec_cols.subrange(0, spec_cols.len() as int) =~= spec_cols);
    query.append(" WHERE id = ?");
    params.push(String::from_str(id));
    assert(params@.map_values(|p: String| p@) =~= set_values(spec_cols).push(id@));
    (query, params)
}

} // verus!

//! The tickets-ready export of a session: which folders hold bugs, the
//! order they are exported in, and the text of the export file.
use vstd::multiset::Multiset;
use vstd::prelude::*;

use crate::text::{has_prefix, pad3_signed, parse_i32, parsed_i32, push_pad3_signed, str_starts_with};

verus! {

broadcast use vstd::seq_lib::group_to_multiset_ensures;

/// The number of the bug kept in a folder named `name`: the folder name is
/// `bug_` followed by an integer.
pub open spec fn bug_folder_number_of(name: Seq<char>) -> Option<int> {
    if has_prefix(name, "bug_"@) {
        parsed_i32(name.subrange(4, name.len() as int))
    } else {
        None
    }
}

/// The bug number of a folder named `name`, if it is a bug folder.
pub fn bug_folder_number(name: &str) -> (r: Option<i32>)
    ensures
        match r {
            Some(v) => bug_folder_number_of(name@) == Some(v as int),
            None => bug_folder_number_of(name@) is None,
        },
{
    proof {
        reveal_strlit("bug_");
    }
    if str_starts_with(name, "bug_") {
        let rest = name.substring_char(4, name.unicode_len());
        parse_i32(rest)
    } else {
        None
    }
}

/// True when the folders are in increasing order of bug number.
pub open spec fn sorted_by_number(s: Seq<(i32, String)>) -> bool {
    forall|i: int, j: int| 0 <= i < j < s.len() ==> (#[trigger] s[i]).0 <= (#[trigger] s[j]).0
}

/// The bug folders in increasing order of bug number.
pub fn sort_bug_folders(folders: Vec<(i32, String)>) -> (r: Vec<(i32, String)>)
    ensures
        sorted_by_number(r@),
        r@.to_multiset() == folders@.to_multiset(),
{
    let mut remaining = folders;
    let mut sorted: Vec<(i32, String)> = Vec::new();
    while remaining.len() > 0
        invariant
            sorted_by_number(sorted@),
            sorted@.to_multiset().add(remaining@.to_multiset()) == folders@.to_multiset(),
            forall|i: int, j: int|
                0 <= i < sorted@.len() && 0 <= j < remaining@.len() ==> (#[trigger] sorted@[i]).0
                    <= (#[trigger] remaining@[j]).0,
        decreases remaining@.len(),
    {
        let mut k: usize = 0;
        let mut j: usize = 1;
        while j < remaining.len()
            invariant
                0 < remaining@.len(),
                k < remaining@.len(),
                1 <= j <= remaining@.len(),
                forall|m: int| 0 <= m < j ==> remaining@[k as int].0 <= (#[trigger] remaining@[m]).0,
            decreases remaining@.len() - j,
        {
            if remaining[j].0 < remaining[k].0 {
                k = j;
            }
            j = j + 1;
        }
        let ghost before = remaining@;
        let x = remaining.remove(k);
        assert(before.remove(k as int).to_multiset() == before.to_multiset().remove(x));
        sorted.push(x);
        assert(sorted@.to_multiset().add(remaining@.to_multiset()) =~= folders@.to_multiset());
        assert forall|i: int, m: int|
            0 <= i < sorted@.len() && 0 <= m < remaining@.len() implies (#[trigger] sorted@[i]).0
            <= (#[trigger] remaining@[m]).0 by {
            let bm = if m < k { m } else { m + 1 };
            assert(remaining@[m] == before[bm]);
        }
    }
    assert(remaining@.to_multiset() =~= Multiset::empty());
    assert(sorted@.to_multiset() =~= folders@.to_multiset());
    sorted
}

/// The text used for a bug without a readable description.
pub const NO_DESCRIPTION: &'static str = "No description available.";

/// The export entry of one bug: a heading with its number, then its description.
pub open spec fn export_entry(number: i32, description: Option<String>) -> Seq<char> {
    "# Bug "@ + pad3_signed(number as int) + "\n\n"@ + match description {
        Some(d) => d@,
        None => NO_DESCRIPTION@,
    }
}

/// The export of all bugs, in the given order, separated by horizontal rules.
pub open spec fn tickets_ready_text(entries: Seq<(i32, Option<String>)>) -> Seq<char>
    decreases entries.len(),
{
    if entries.len() == 0 {
        Seq::empty()
    } else if entries.len() == 1 {
        export_entry(entries[0].0, entries[0].1)
    } else {
        tickets_ready_text(entries.drop_last()) + "\n\n---\n\n"@ + export_entry(
            entries.last().0,
            entries.last().1,
        )
    }
}

/// The text of `tickets-ready.md` for the bugs, each given by its number
/// and its description (none when it could not be read).
pub fn tickets_ready_content(entries: &[(i32, Option<String>)]) -> (r: String)
    ensures
        r@ == tickets_ready_text(entries@),
{
    let mut out = String::new();
    let mut i: usize = 0;
    while i < entries.len()
        invariant
            i <= entries@.len(),
            out@ == tickets_ready_text(entries@.subrange(0, i as int)),
        decreases entries@.len() - i,
    {
        let ghost prev = entries@.subrange(0, i as int);
        assert(entries@.subrange(0, i + 1).drop_last() =~= prev);
        if i > 0 {
            out.append("\n\n---\n\n");
        }
        let (number, description) = &entries[i];
        out.append("# Bug ");
        push_pad3_signed(&mut out, *number);
        out.append("\n\n");
        match description {
            Some(d) => out.append(d.as_str()),
            None => out.append(NO_DESCRIPTION),
        }
        assert(out@ =~= tickets_ready_text(entries@.subrange(0, i + 1)));
        i = i + 1;
    }
    assert(entries@.subrange(0, entries@.len() as int) =~= entries@);
    out
}

/// The message for exporting a session whose folder does not exist.
pub fn missing_session_folder_message(path: &str) -> (r: String)
    ensures
        r@ == "Session folder does not exist: "@ + path@,
{
    let mut m = String::from_str("Session folder does not exist: ");
    m.append(path);
    m
}

} // verus!

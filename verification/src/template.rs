//! Bug report templates: the data a report is rendered from, the
//! placeholders a template may hold, and conditional lines that appear only
//! when their field has a value.
use std::collections::HashMap;
use vstd::prelude::*;

use crate::text::{chars_of, decimal, has_prefix, is_ascii_digit, lemma_decimal_reads_back, matches_at, replace_chars, replace_str, replaced, string_of, push_decimal};

verus! {

/// Metadata of a bug as templates see it.
#[derive(Debug, Clone)]
pub struct BugMetadata {
    pub meeting_id: Option<String>,
    pub software_version: Option<String>,
    pub environment: Environment,
    pub console_captures: Vec<String>,
    pub custom_fields: HashMap<String, String>,
}

/// The machine a bug was found on.
#[derive(Debug, Clone)]
pub struct Environment {
    pub os: String,
    pub display_resolution: String,
    pub dpi_scaling: String,
    pub ram: String,
    pub cpu: String,
    pub foreground_app: String,
}

/// Everything a report is rendered from.
#[derive(Debug, Clone)]
pub struct BugData {
    pub title: String,
    pub bug_type: String,
    pub description_steps: String,
    pub description_expected: String,
    pub description_actual: String,
    pub metadata: BugMetadata,
    pub folder_path: String,
    pub captures: Vec<String>,
    pub console_output: Option<String>,
}

/// The index of the first line feed in `s` at or after `from`.
pub open spec fn newline_index(s: Seq<char>, from: int) -> Option<int>
    decreases s.len() - from,
{
    if from < 0 || from >= s.len() {
        None
    } else if s[from] == '\n' {
        Some(from)
    } else {
        newline_index(s, from + 1)
    }
}

/// The first line feed at or after `from` is the one found, and there is
/// none before it.
pub proof fn lemma_newline_index(s: Seq<char>, from: int)
    requires
        0 <= from,
    ensures
        match newline_index(s, from) {
            Some(k) => from <= k < s.len() && s[k] == '\n' && forall|m: int|
                from <= m < k ==> s[m] != '\n',
            None => forall|m: int| from <= m < s.len() ==> s[m] != '\n',
        },
    decreases s.len() - from,
{
    if from < s.len() && s[from] != '\n' {
        lemma_newline_index(s, from + 1);
    }
}

/// A line without the carriage return that ended it.
pub open spec fn strip_cr(line: Seq<char>) -> Seq<char> {
    if line.len() > 0 && line.last() == '\r' {
        line.drop_last()
    } else {
        line
    }
}

/// The lines of a text as `str::lines` gives them: split at line feeds, a
/// carriage return before a line feed dropped, the last line ending optional.
pub open spec fn lines_of(s: Seq<char>) -> Seq<Seq<char>>
    decreases s.len(),
{
    if s.len() == 0 {
        Seq::empty()
    } else {
        match newline_index(s, 0) {
            Some(k) => {
                proof {
                    lemma_newline_index(s, 0);
                }
                seq![strip_cr(s.subrange(0, k))] + lines_of(s.subrange(k + 1, s.len() as int))
            },
            None => seq![s],
        }
    }
}

/// The first position at or after `from` where `pat` occurs in `s`.
pub open spec fn find_from(s: Seq<char>, pat: Seq<char>, from: int) -> Option<int>
    decreases s.len() - from,
{
    if from < 0 || from > s.len() {
        None
    } else if has_prefix(s.subrange(from, s.len() as int), pat) {
        Some(from)
    } else if from == s.len() {
        None
    } else {
        find_from(s, pat, from + 1)
    }
}

/// The position of the brace that closes a conditional, nested braces
/// skipped; 0 when there is none.
pub open spec fn closing_brace(rest: Seq<char>, i: int, depth: nat) -> int
    decreases rest.len() - i,
{
    if i < 0 || i >= rest.len() {
        0
    } else if rest[i] == '{' {
        closing_brace(rest, i + 1, depth + 1)
    } else if rest[i] == '}' {
        if depth == 0 {
            i
        } else {
            closing_brace(rest, i + 1, (depth - 1) as nat)
        }
    } else {
        closing_brace(rest, i + 1, depth)
    }
}

/// What a line becomes: a line holding the conditional `pattern` is dropped
/// when there is no value, and otherwise replaced by what precedes the
/// conditional followed by its inner text with `{value}` filled in; other
/// lines stay. Every kept line ends with a line feed.
pub open spec fn conditional_line(line: Seq<char>, pattern: Seq<char>, value: Option<Seq<char>>) -> Seq<char> {
    match find_from(line, pattern, 0) {
        None => line + "\n"@,
        Some(start) => match value {
            None => Seq::empty(),
            Some(v) => {
                let rest = line.subrange(start + pattern.len(), line.len() as int);
                let end = closing_brace(rest, 0, 0);
                line.subrange(0, start) + replaced(rest.subrange(0, end), "{value}"@, v) + "\n"@
            },
        },
    }
}

/// The conditional lines of all lines, in order.
pub open spec fn conditional_lines(lines: Seq<Seq<char>>, pattern: Seq<char>, value: Option<Seq<char>>) -> Seq<char>
    decreases lines.len(),
{
    if lines.len() == 0 {
        Seq::empty()
    } else {
        conditional_lines(lines.drop_last(), pattern, value) + conditional_line(lines.last(), pattern, value)
    }
}

/// A template with the conditional field `field` resolved against `value`.
pub open spec fn conditional_text(template: Seq<char>, field: Seq<char>, value: Option<Seq<char>>) -> Seq<char> {
    conditional_lines(lines_of(template), "{"@ + field + ":"@, value)
}

/// The lines of `s`.
fn split_lines(s: &Vec<char>) -> (r: Vec<Vec<char>>)
    ensures
        r@.map_values(|l: Vec<char>| l@) == lines_of(s@),
{
    let n = s.len();
    let mut lines: Vec<Vec<char>> = Vec::new();
    let mut pos: usize = 0;
    assert(s@.subrange(0, n as int) =~= s@);
    while pos < n
        invariant
            n == s@.len(),
            pos <= n,
            lines@.map_values(|l: Vec<char>| l@) + lines_of(s@.subrange(pos as int, n as int)) == lines_of(s@),
        decreases n - pos,
    {
        let ghost rest = s@.subrange(pos as int, n as int);
        let mut k: usize = pos;
        while k < n && s[k] != '\n'
            invariant
                n == s@.len(),
                pos <= k <= n,
                forall|m: int| pos <= m < k ==> s@[m] != '\n',
            decreases n - k,
        {
            k = k + 1;
        }
        proof {
            lemma_newline_index(rest, 0);
        }
        let mut line: Vec<char> = Vec::new();
        let mut j: usize = pos;
        while j < k
            invariant
                pos <= j <= k <= n,
                n == s@.len(),
                line@ == s@.subrange(pos as int, j as int),
            decreases k - j,
        {
            line.push(s[j]);
            assert(line@ =~= s@.subrange(pos as int, j + 1));
            j = j + 1;
        }
        let ghost before = lines@.map_values(|l: Vec<char>| l@);
        if k < n {
            assert(newline_index(rest, 0) == Some((k - pos) as int)) by {
                if newline_index(rest, 0) != Some((k - pos) as int) {
                    match newline_index(rest, 0) {
                        Some(k2) => {
                            assert(rest[k2] == s@[pos + k2]);
                        },
                        None => {
                            assert(rest[k - pos] == s@[k as int]);
                        },
                    }
                }
            }
            assert(rest.subrange(0, (k - pos) as int) =~= line@);
            assert(rest.subrange((k - pos) + 1, rest.len() as int) =~= s@.subrange(k + 1, n as int));
            if line.len() > 0 && line[line.len() - 1] == '\r' {
                line.pop();
            }
            lines.push(line);
            assert(lines@.map_values(|l: Vec<char>| l@) =~= before.push(strip_cr(rest.subrange(0, (k - pos) as int))));
            assert(lines@.map_values(|l: Vec<char>| l@) + lines_of(s@.subrange(k + 1, n as int)) =~= before
                + lines_of(rest));
            pos = k + 1;
        } else {
            assert(newline_index(rest, 0) is None) by {
                if newline_index(rest, 0) is Some {
                    let k2 = newline_index(rest, 0)->0;
                    assert(rest[k2] == s@[pos + k2]);
                }
            }
            assert(line@ =~= rest);
            lines.push(line);
            assert(s@.subrange(n as int, n as int) =~= Seq::<char>::empty());
            assert(lines@.map_values(|l: Vec<char>| l@) + lines_of(s@.subrange(n as int, n as int)) =~= before
                + lines_of(rest));
            pos = n;
        }
    }
    assert(s@.subrange(n as int, n as int) =~= Seq::<char>::empty());
    assert(lines@.map_values(|l: Vec<char>| l@) =~= lines_of(s@));
    lines
}

/// The first occurrence of `pat` at or after `from` is the one found.
pub proof fn lemma_find_from(s: Seq<char>, pat: Seq<char>, from: int)
    requires
        0 <= from <= s.len(),
    ensures
        match find_from(s, pat, from) {
            Some(k) => from <= k <= s.len() && has_prefix(s.subrange(k, s.len() as int), pat)
                && forall|m: int| from <= m < k ==> !has_prefix(#[trigger] s.subrange(m, s.len() as int), pat),
            None => forall|m: int| from <= m <= s.len() ==> !has_prefix(#[trigger] s.subrange(m, s.len() as int), pat),
        },
    decreases s.len() - from,
{
    if !has_prefix(s.subrange(from, s.len() as int), pat) && from < s.len() {
        lemma_find_from(s, pat, from + 1);
    }
}

proof fn lemma_first_match_from(s: Seq<char>, pat: Seq<char>, from: int, i: int)
    requires
        0 <= from <= i <= s.len(),
        has_prefix(s.subrange(i, s.len() as int), pat),
        forall|m: int| from <= m < i ==> !has_prefix(#[trigger] s.subrange(m, s.len() as int), pat),
    ensures
        find_from(s, pat, from) == Some(i),
    decreases i - from,
{
    if from < i {
        assert(!has_prefix(s.subrange(from, s.len() as int), pat));
        lemma_first_match_from(s, pat, from + 1, i);
    }
}

proof fn lemma_no_match_from(s: Seq<char>, pat: Seq<char>, from: int)
    requires
        0 <= from <= s.len(),
        forall|m: int| from <= m <= s.len() ==> !has_prefix(#[trigger] s.subrange(m, s.len() as int), pat),
    ensures
        find_from(s, pat, from) is None,
    decreases s.len() - from,
{
    assert(!has_prefix(s.subrange(from, s.len() as int), pat));
    if from < s.len() {
        lemma_no_match_from(s, pat, from + 1);
    }
}

/// The first position where `pat` occurs in `s`.
fn find_chars(s: &Vec<char>, pat: &Vec<char>) -> (r: Option<usize>)
    ensures
        match r {
            Some(k) => find_from(s@, pat@, 0) == Some(k as int) && k + pat@.len() <= s@.len(),
            None => find_from(s@, pat@, 0) is None,
        },
{
    let n = s.len();
    let mut i: usize = 0;
    loop
        invariant
            n == s@.len(),
            i <= n,
            forall|m: int| 0 <= m < i ==> !has_prefix(#[trigger] s@.subrange(m, s@.len() as int), pat@),
        decreases n - i,
    {
        if matches_at(s, i, pat) {
            proof {
                lemma_first_match_from(s@, pat@, 0, i as int);
            }
            return Some(i);
        }
        if i == n {
            proof {
                lemma_no_match_from(s@, pat@, 0);
            }
            return None;
        }
        i = i + 1;
    }
}

/// The position of the brace that closes a conditional in `rest`.
fn find_closing_brace(rest: &Vec<char>) -> (r: usize)
    ensures
        r == closing_brace(rest@, 0, 0),
        r <= rest@.len(),
{
    let mut depth: u64 = 0;
    let mut i: usize = 0;
    while i < rest.len()
        invariant
            i <= rest@.len(),
            depth <= i,
            closing_brace(rest@, 0, 0) == closing_brace(rest@, i as int, depth as nat),
        decreases rest@.len() - i,
    {
        let c = rest[i];
        if c == '{' {
            depth = depth + 1;
        } else if c == '}' {
            if depth == 0 {
                return i;
            }
            depth = depth - 1;
        }
        i = i + 1;
    }
    0
}

/// The elements of `v` from `from` to `to`.
fn slice_chars(v: &Vec<char>, from: usize, to: usize) -> (r: Vec<char>)
    requires
        from <= to <= v@.len(),
    ensures
        r@ == v@.subrange(from as int, to as int),
{
    let mut r: Vec<char> = Vec::new();
    let mut i = from;
    while i < to
        invariant
            from <= i <= to <= v@.len(),
            r@ == v@.subrange(from as int, i as int),
        decreases to - i,
    {
        r.push(v[i]);
        assert(r@ =~= v@.subrange(from as int, i + 1));
        i = i + 1;
    }
    r
}

/// Appends the elements of `tail` to `v`.
fn extend_chars(v: &mut Vec<char>, tail: &Vec<char>)
    ensures
        final(v)@ == old(v)@ + tail@,
{
    let mut i: usize = 0;
    while i < tail.len()
        invariant
            i <= tail@.len(),
            v@ == old(v)@ + tail@.subrange(0, i as int),
        decreases tail@.len() - i,
    {
        v.push(tail[i]);
        assert(v@ =~= old(v)@ + tail@.subrange(0, i + 1));
        i = i + 1;
    }
    assert(tail@.subrange(0, tail@.len() as int) =~= tail@);
}

/// What one line becomes once the conditional `pattern` is resolved.
fn conditional_line_chars(line: &Vec<char>, pattern: &Vec<char>, value: &Option<Vec<char>>, value_marker: &Vec<char>) -> (r: Vec<char>)
    requires
        value_marker@ == "{value}"@,
    ensures
        r@ == conditional_line(line@, pattern@, match value {
            Some(v) => Some(v@),
            None => None,
        }),
{
    proof {
        reveal_strlit("{value}");
    }
    let found = find_chars(line, pattern);
    match found {
        None => {
            let mut out = slice_chars(line, 0, line.len());
            out.push('\n');
            assert(out@ =~= line@ + "\n"@) by {
                reveal_strlit("\n");
            }
            out
        },
        Some(start) => {
            proof {
                lemma_find_from(line@, pattern@, 0);
            }
            match value {
                None => Vec::new(),
                Some(v) => {
                    let len = line.len();
                    assert(start + pattern@.len() <= len);
                    let rest = slice_chars(line, start + pattern.len(), len);
                    let end = find_closing_brace(&rest);
                    let inner = slice_chars(&rest, 0, end);
                    let filled = replace_chars(&inner, value_marker, v);
                    let mut out = slice_chars(line, 0, start);
                    extend_chars(&mut out, &filled);
                    out.push('\n');
                    assert(out@ =~= conditional_line(line@, pattern@, Some(v@))) by {
                        reveal_strlit("\n");
                    }
                    out
                },
            }
        },
    }
}

/// `template` with the conditional field `field` resolved: each line holding
/// `{field:...}` keeps its text before the conditional and the conditional's
/// inner text with `{value}` filled in, or is dropped when there is no value.
pub fn replace_conditional(template: &str, field: &str, value: &Option<String>) -> (r: String)
    ensures
        r@ == conditional_text(template@, field@, match value {
            Some(v) => Some(v@),
            None => None,
        }),
{
    let mut pattern_text = String::from_str("{");
    pattern_text.append(field);
    pattern_text.append(":");
    let pattern = chars_of(pattern_text.as_str());
    let marker = chars_of("{value}");
    let value_chars: Option<Vec<char>> = match value {
        Some(v) => Some(chars_of(v.as_str())),
        None => None,
    };
    let ghost spec_value = match value {
        Some(v) => Some(v@),
        None => None::<Seq<char>>,
    };
    assert(spec_value == match value_chars {
        Some(v) => Some(v@),
        None => None::<Seq<char>>,
    });
    let text = chars_of(template);
    let lines = split_lines(&text);
    let ghost spec_lines = lines_of(template@);
    let mut out: Vec<char> = Vec::new();
    let mut i: usize = 0;
    while i < lines.len()
        invariant
            i <= lines@.len(),
            lines@.map_values(|l: Vec<char>| l@) == spec_lines,
            pattern@ == "{"@ + field@ + ":"@,
            marker@ == "{value}"@,
            spec_value == match value_chars {
                Some(v) => Some(v@),
                None => None::<Seq<char>>,
            },
            out@ == conditional_lines(spec_lines.subrange(0, i as int), pattern@, spec_value),
        decreases lines@.len() - i,
    {
        let piece = conditional_line_chars(&lines[i], &pattern, &value_chars, &marker);
        extend_chars(&mut out, &piece);
        assert(spec_lines.subrange(0, i + 1).drop_last() =~= spec_lines.subrange(0, i as int));
        assert(spec_lines[i as int] == lines@[i as int]@);
        i = i + 1;
    }
    assert(spec_lines.subrange(0, spec_lines.len() as int) =~= spec_lines);
    string_of(out.as_slice())
}

/// The captures as a bullet list, one per line.
pub open spec fn bullet_list(items: Seq<String>) -> Seq<char>
    decreases items.len(),
{
    if items.len() == 0 {
        Seq::empty()
    } else if items.len() == 1 {
        "- "@ + items[0]@
    } else {
        bullet_list(items.drop_last()) + "\n- "@ + items.last()@
    }
}

/// The value of an optional field, or `default` when it is missing.
pub open spec fn or_default(v: Option<String>, default: Seq<char>) -> Seq<char> {
    match v {
        Some(s) => s@,
        None => default,
    }
}

/// The placeholders of the bug's own fields filled in.
pub open spec fn with_bug_fields(t: Seq<char>, bug: BugData) -> Seq<char> {
    replaced(
        replaced(
            replaced(
                replaced(
                    replaced(replaced(t, "{bug.title}"@, bug.title@), "{bug.type}"@, bug.bug_type@),
                    "{bug.description.steps}"@,
                    bug.description_steps@,
                ),
                "{bug.description.expected}"@,
                bug.description_expected@,
            ),
            "{bug.description.actual}"@,
            bug.description_actual@,
        ),
        "{bug.folderPath}"@,
        bug.folder_path@,
    )
}

/// The placeholders of the bug's metadata filled in.
pub open spec fn with_metadata(t: Seq<char>, m: BugMetadata) -> Seq<char> {
    replaced(
        replaced(
            replaced(
                replaced(
                    replaced(t, "{bug.metadata.environment.os}"@, m.environment.os@),
                    "{bug.metadata.environment.displayResolution}"@,
                    m.environment.display_resolution@,
                ),
                "{bug.metadata.environment.dpiScaling}"@,
                m.environment.dpi_scaling@,
            ),
            "{bug.metadata.environment.foregroundApp}"@,
            m.environment.foreground_app@,
        ),
        "{bug.metadata.softwareVersion}"@,
        or_default(m.software_version, "Unknown"@),
    )
}

/// The capture and console placeholders filled in.
pub open spec fn with_captures(t: Seq<char>, bug: BugData) -> Seq<char> {
    replaced(
        replaced(
            replaced(t, "{bug.captures.count}"@, decimal(bug.captures@.len())),
            "{bug.captures.list}"@,
            bullet_list(bug.captures@),
        ),
        "{bug.consoleOutput}"@,
        or_default(bug.console_output, "No console output captured"@),
    )
}

/// A bug report rendered from `template`: the field placeholders filled in,
/// then the meeting id conditional resolved, then the captures and console
/// output filled in.
pub open spec fn rendered(template: Seq<char>, bug: BugData) -> Seq<char> {
    with_captures(
        conditional_text(
            with_metadata(with_bug_fields(template, bug), bug.metadata),
            "bug.metadata.meetingId"@,
            match bug.metadata.meeting_id {
                Some(v) => Some(v@),
                None => None,
            },
        ),
        bug,
    )
}

/// True when `s` has no opening brace at or after position `i`.
pub open spec fn braceless_from(s: Seq<char>, i: int) -> bool
    decreases s.len() - i,
{
    if i < 0 || i >= s.len() {
        true
    } else {
        s[i] != '{' && braceless_from(s, i + 1)
    }
}

/// True when `s` holds neither a brace nor a line feed: a value that no
/// placeholder or conditional can be found in, on one line.
pub open spec fn plain_value(s: Seq<char>) -> bool {
    forall|i: int| 0 <= i < s.len() ==> s[i] != '{' && s[i] != '\n'
}

/// A value alone on its line as the report shows it: the value and a line
/// feed, or nothing for an empty value.
pub open spec fn value_line(v: Seq<char>) -> Seq<char> {
    if v.len() == 0 {
        Seq::empty()
    } else {
        v + "\n"@
    }
}

proof fn lemma_braceless_from_forall(s: Seq<char>, i: int)
    requires
        0 <= i,
        forall|j: int| i <= j < s.len() ==> s[j] != '{',
    ensures
        braceless_from(s, i),
    decreases s.len() - i,
{
    if i < s.len() {
        lemma_braceless_from_forall(s, i + 1);
    }
}

proof fn lemma_braceless_from_at(s: Seq<char>, i: int, j: int)
    requires
        0 <= i <= j < s.len(),
        braceless_from(s, i),
    ensures
        s[j] != '{',
    decreases j - i,
{
    if i < j {
        lemma_braceless_from_at(s, i + 1, j);
    }
}

/// Replacing a pattern that starts with a brace leaves the part of `s`
/// from `i` on unchanged when it has no brace.
proof fn lemma_replaced_braceless(s: Seq<char>, i: int, pat: Seq<char>, rep: Seq<char>)
    requires
        0 <= i <= s.len(),
        pat.len() > 0,
        pat[0] == '{',
        braceless_from(s, i),
    ensures
        replaced(s.subrange(i, s.len() as int), pat, rep) == s.subrange(i, s.len() as int),
    decreases s.len() - i,
{
    let t = s.subrange(i, s.len() as int);
    if i < s.len() {
        assert(t[0] == s[i]);
        assert(!has_prefix(t, pat)) by {
            if has_prefix(t, pat) {
                assert(t.subrange(0, pat.len() as int)[0] == t[0]);
            }
        }
        lemma_replaced_braceless(s, i + 1, pat, rep);
        assert(t.subrange(1, t.len() as int) =~= s.subrange(i + 1, s.len() as int));
        assert(seq![t[0]] + s.subrange(i + 1, s.len() as int) =~= t);
    } else {
        assert(t.len() == 0);
    }
}

/// A text without braces is left as it is by any replacement of a
/// pattern that starts with a brace.
proof fn lemma_replaced_plain(s: Seq<char>, pat: Seq<char>, rep: Seq<char>)
    requires
        pat.len() > 0,
        pat[0] == '{',
        braceless_from(s, 0),
    ensures
        replaced(s, pat, rep) == s,
{
    lemma_replaced_braceless(s, 0, pat, rep);
    assert(s.subrange(0, s.len() as int) =~= s);
}

/// A placeholder is replaced whole by the value.
proof fn lemma_replaced_whole(pat: Seq<char>, rep: Seq<char>)
    requires
        pat.len() > 0,
    ensures
        replaced(pat, pat, rep) == rep,
{
    assert(pat.subrange(0, pat.len() as int) =~= pat);
    let e = pat.subrange(pat.len() as int, pat.len() as int);
    assert(e =~= Seq::<char>::empty());
    assert(has_prefix(pat, pat));
    assert(replaced(e, pat, rep) == Seq::<char>::empty());
    assert(replaced(pat, pat, rep) == rep + replaced(e, pat, rep));
    assert(rep + Seq::<char>::empty() =~= rep);
}

/// A placeholder is left alone by the replacement of another placeholder
/// it differs from at position `k`.
proof fn lemma_replaced_other(s: Seq<char>, pat: Seq<char>, rep: Seq<char>, k: int)
    requires
        s.len() > 0,
        s[0] == '{',
        braceless_from(s, 1),
        pat.len() > 0,
        pat[0] == '{',
        0 <= k < pat.len(),
        k < s.len(),
        s[k] != pat[k],
    ensures
        replaced(s, pat, rep) == s,
{
    assert(!has_prefix(s, pat)) by {
        if has_prefix(s, pat) {
            assert(s.subrange(0, pat.len() as int)[k] == s[k]);
        }
    }
    lemma_replaced_braceless(s, 1, pat, rep);
    assert(seq![s[0]] + s.subrange(1, s.len() as int) =~= s);
}

/// A pattern that starts with a brace is never found in a text without
/// braces.
proof fn lemma_find_from_plain(s: Seq<char>, pat: Seq<char>, from: int)
    requires
        0 <= from,
        pat.len() > 0,
        pat[0] == '{',
        braceless_from(s, 0),
    ensures
        find_from(s, pat, from) is None,
    decreases s.len() - from,
{
    if from <= s.len() {
        let t = s.subrange(from, s.len() as int);
        assert(!has_prefix(t, pat)) by {
            if has_prefix(t, pat) {
                assert(t.subrange(0, pat.len() as int)[0] == t[0]);
                lemma_braceless_from_at(s, 0, from);
            }
        }
        if from < s.len() {
            lemma_find_from_plain(s, pat, from + 1);
        }
    }
}

/// A text that the bug's own and metadata placeholders turned into the
/// plain value `v` renders as `v` on its own line: no conditional, capture
/// or console placeholder is found in it.
proof fn lemma_rendered_metadata_plain(template: Seq<char>, bug: BugData, v: Seq<char>)
    requires
        with_metadata(with_bug_fields(template, bug), bug.metadata) == v,
        plain_value(v),
    ensures
        rendered(template, bug) == value_line(v),
{
    lemma_braceless_from_forall(v, 0);
    reveal_strlit("{bug.captures.count}");
    reveal_strlit("{bug.captures.list}");
    reveal_strlit("{bug.consoleOutput}");
    reveal_strlit("{");
    reveal_strlit("\n");
    let m = bug.metadata;
    let pattern = "{"@ + "bug.metadata.meetingId"@ + ":"@;
    assert(pattern[0] == '{');
    let value = match m.meeting_id {
        Some(x) => Some(x@),
        None => None,
    };
    let c = conditional_text(v, "bug.metadata.meetingId"@, value);
    if v.len() == 0 {
        assert(lines_of(v) =~= Seq::<Seq<char>>::empty());
        assert(c =~= Seq::<char>::empty());
        lemma_braceless_from_forall(c, 0);
    } else {
        lemma_newline_index(v, 0);
        assert(newline_index(v, 0) is None);
        assert(lines_of(v) =~= seq![v]);
        assert(seq![v].drop_last() =~= Seq::<Seq<char>>::empty());
        lemma_find_from_plain(v, pattern, 0);
        assert(conditional_line(v, pattern, value) == v + "\n"@);
        assert(conditional_lines(Seq::<Seq<char>>::empty(), pattern, value) == Seq::<char>::empty());
        assert(seq![v].last() == v);
        assert(conditional_lines(seq![v], pattern, value) == conditional_lines(seq![v].drop_last(), pattern, value)
            + conditional_line(v, pattern, value));
        assert(c == conditional_lines(seq![v], pattern, value));
        assert(c =~= v + "\n"@);
        assert forall|j: int| 0 <= j < c.len() implies c[j] != '{' by {
            if j < v.len() {
                assert(c[j] == v[j]);
            }
        }
        lemma_braceless_from_forall(c, 0);
    }
    lemma_replaced_plain(c, "{bug.captures.count}"@, decimal(bug.captures@.len()));
    lemma_replaced_plain(c, "{bug.captures.list}"@, bullet_list(bug.captures@));
    lemma_replaced_plain(c, "{bug.consoleOutput}"@, or_default(bug.console_output, "No console output captured"@));
}

/// A text that a bug's own placeholders turned into the plain value `v`
/// renders as `v` on its own line.
proof fn lemma_rendered_plain(template: Seq<char>, bug: BugData, v: Seq<char>)
    requires
        with_bug_fields(template, bug) == v,
        plain_value(v),
    ensures
        rendered(template, bug) == value_line(v),
{
    lemma_braceless_from_forall(v, 0);
    reveal_strlit("{bug.metadata.environment.os}");
    reveal_strlit("{bug.metadata.environment.displayResolution}");
    reveal_strlit("{bug.metadata.environment.dpiScaling}");
    reveal_strlit("{bug.metadata.environment.foregroundApp}");
    reveal_strlit("{bug.metadata.softwareVersion}");
    let m = bug.metadata;
    lemma_replaced_plain(v, "{bug.metadata.environment.os}"@, m.environment.os@);
    lemma_replaced_plain(v, "{bug.metadata.environment.displayResolution}"@, m.environment.display_resolution@);
    lemma_replaced_plain(v, "{bug.metadata.environment.dpiScaling}"@, m.environment.dpi_scaling@);
    lemma_replaced_plain(v, "{bug.metadata.environment.foregroundApp}"@, m.environment.foreground_app@);
    lemma_replaced_plain(v, "{bug.metadata.softwareVersion}"@, or_default(m.software_version, "Unknown"@));
    lemma_rendered_metadata_plain(template, bug, v);
}

/// Replacing a placeholder at the start of a text whose rest has no brace
/// gives the value followed by that rest.
proof fn lemma_replaced_prefix(pat: Seq<char>, rest: Seq<char>, rep: Seq<char>)
    requires
        pat.len() > 0,
        pat[0] == '{',
        braceless_from(rest, 0),
    ensures
        replaced(pat + rest, pat, rep) == rep + rest,
{
    let s = pat + rest;
    assert(s.subrange(0, pat.len() as int) =~= pat);
    assert(s.subrange(pat.len() as int, s.len() as int) =~= rest);
    lemma_replaced_plain(rest, pat, rep);
}

/// A placeholder is not found by the search for a pattern it differs
/// from at position `k`, when it has no other brace.
proof fn lemma_find_from_placeholder(s: Seq<char>, pat: Seq<char>, k: int, from: int)
    requires
        0 <= from,
        s.len() > 0,
        braceless_from(s, 1),
        pat.len() > 0,
        pat[0] == '{',
        0 <= k < pat.len(),
        k < s.len(),
        s[k] != pat[k],
    ensures
        find_from(s, pat, from) is None,
    decreases s.len() - from,
{
    if from <= s.len() {
        let t = s.subrange(from, s.len() as int);
        assert(!has_prefix(t, pat)) by {
            if has_prefix(t, pat) {
                if from == 0 {
                    assert(t.subrange(0, pat.len() as int)[k] == s[k]);
                } else {
                    assert(t.subrange(0, pat.len() as int)[0] == t[0]);
                    lemma_braceless_from_at(s, 1, from);
                }
            }
        }
        if from < s.len() {
            lemma_find_from_placeholder(s, pat, k, from + 1);
        }
    }
}

/// A capture placeholder left by the field and metadata placeholders
/// stands alone on its line after the conditional is resolved.
proof fn lemma_capture_placeholder_line(p: Seq<char>, bug: BugData, k: int)
    requires
        with_metadata(with_bug_fields(p, bug), bug.metadata) == p,
        p.len() > 0,
        p[0] == '{',
        braceless_from(p, 1),
        forall|i: int| 0 <= i < p.len() ==> p[i] != '\n',
        0 <= k < p.len(),
        k < ("{"@ + "bug.metadata.meetingId"@ + ":"@).len(),
        p[k] != ("{"@ + "bug.metadata.meetingId"@ + ":"@)[k],
    ensures
        conditional_text(with_metadata(with_bug_fields(p, bug), bug.metadata), "bug.metadata.meetingId"@, match bug.metadata.meeting_id {
            Some(x) => Some(x@),
            None => None,
        }) == p + "\n"@,
{
    reveal_strlit("{");
    reveal_strlit("\n");
    let pattern = "{"@ + "bug.metadata.meetingId"@ + ":"@;
    assert(pattern[0] == '{');
    let value = match bug.metadata.meeting_id {
        Some(x) => Some(x@),
        None => None,
    };
    lemma_newline_index(p, 0);
    assert(newline_index(p, 0) is None);
    assert(lines_of(p) =~= seq![p]);
    assert(seq![p].drop_last() =~= Seq::<Seq<char>>::empty());
    lemma_find_from_placeholder(p, pattern, k, 0);
    assert(conditional_line(p, pattern, value) == p + "\n"@);
    assert(conditional_lines(Seq::<Seq<char>>::empty(), pattern, value) == Seq::<char>::empty());
    assert(seq![p].last() == p);
    assert(conditional_lines(seq![p], pattern, value) == conditional_lines(seq![p].drop_last(), pattern, value)
        + conditional_line(p, pattern, value));
    assert(conditional_lines(seq![p], pattern, value) =~= p + "\n"@);
}

/// A template holding only the `{bug.title}` placeholder renders as the bug's
/// title field, when that field is one plain line (no brace, no line feed).
pub proof fn lemma_renders_title(bug: BugData)
    requires
        plain_value(bug.title@),
    ensures
        rendered("{bug.title}"@, bug) == value_line(bug.title@),
{
    lemma_braceless_from_forall(bug.title@, 0);
    reveal_strlit("{bug.title}");
    reveal_strlit("{bug.type}");
    reveal_strlit("{bug.description.steps}");
    reveal_strlit("{bug.description.expected}");
    reveal_strlit("{bug.description.actual}");
    reveal_strlit("{bug.folderPath}");
    let p = "{bug.title}"@;
    reveal_with_fuel(braceless_from, 13);
    assert(braceless_from(p, 1));
    lemma_replaced_whole(p, bug.title@);
    lemma_replaced_plain(bug.title@, "{bug.type}"@, bug.bug_type@);
    lemma_replaced_plain(bug.title@, "{bug.description.steps}"@, bug.description_steps@);
    lemma_replaced_plain(bug.title@, "{bug.description.expected}"@, bug.description_expected@);
    lemma_replaced_plain(bug.title@, "{bug.description.actual}"@, bug.description_actual@);
    lemma_replaced_plain(bug.title@, "{bug.folderPath}"@, bug.folder_path@);
    lemma_rendered_plain(p, bug, bug.title@);
}

/// A template holding only the `{bug.type}` placeholder renders as the bug's
/// bug_type field, when that field is one plain line (no brace, no line feed).
pub proof fn lemma_renders_type(bug: BugData)
    requires
        plain_value(bug.bug_type@),
    ensures
        rendered("{bug.type}"@, bug) == value_line(bug.bug_type@),
{
    lemma_braceless_from_forall(bug.bug_type@, 0);
    reveal_strlit("{bug.title}");
    reveal_strlit("{bug.type}");
    reveal_strlit("{bug.description.steps}");
    reveal_strlit("{bug.description.expected}");
    reveal_strlit("{bug.description.actual}");
    reveal_strlit("{bug.folderPath}");
    let p = "{bug.type}"@;
    reveal_with_fuel(braceless_from, 12);
    assert(braceless_from(p, 1));
    assert(p[6] != "{bug.title}"@[6]);
    lemma_replaced_other(p, "{bug.title}"@, bug.title@, 6);
    lemma_replaced_whole(p, bug.bug_type@);
    lemma_replaced_plain(bug.bug_type@, "{bug.description.steps}"@, bug.description_steps@);
    lemma_replaced_plain(bug.bug_type@, "{bug.description.expected}"@, bug.description_expected@);
    lemma_replaced_plain(bug.bug_type@, "{bug.description.actual}"@, bug.description_actual@);
    lemma_replaced_plain(bug.bug_type@, "{bug.folderPath}"@, bug.folder_path@);
    lemma_rendered_plain(p, bug, bug.bug_type@);
}

/// A template holding only the `{bug.description.steps}` placeholder renders as the bug's
/// description_steps field, when that field is one plain line (no brace, no line feed).
pub proof fn lemma_renders_steps(bug: BugData)
    requires
        plain_value(bug.description_steps@),
    ensures
        rendered("{bug.description.steps}"@, bug) == value_line(bug.description_steps@),
{
    lemma_braceless_from_forall(bug.description_steps@, 0);
    reveal_strlit("{bug.title}");
    reveal_strlit("{bug.type}");
    reveal_strlit("{bug.description.steps}");
    reveal_strlit("{bug.description.expected}");
    reveal_strlit("{bug.description.actual}");
    reveal_strlit("{bug.folderPath}");
    let p = "{bug.description.steps}"@;
    reveal_with_fuel(braceless_from, 25);
    assert(braceless_from(p, 1));
    assert(p[5] != "{bug.title}"@[5]);
    lemma_replaced_other(p, "{bug.title}"@, bug.title@, 5);
    assert(p[5] != "{bug.type}"@[5]);
    lemma_replaced_other(p, "{bug.type}"@, bug.bug_type@, 5);
    lemma_replaced_whole(p, bug.description_steps@);
    lemma_replaced_plain(bug.description_steps@, "{bug.description.expected}"@, bug.description_expected@);
    lemma_replaced_plain(bug.description_steps@, "{bug.description.actual}"@, bug.description_actual@);
    lemma_replaced_plain(bug.description_steps@, "{bug.folderPath}"@, bug.folder_path@);
    lemma_rendered_plain(p, bug, bug.description_steps@);
}

/// A template holding only the `{bug.description.expected}` placeholder renders as the bug's
/// description_expected field, when that field is one plain line (no brace, no line feed).
pub proof fn lemma_renders_expected(bug: BugData)
    requires
        plain_value(bug.description_expected@),
    ensures
        rendered("{bug.description.expected}"@, bug) == value_line(bug.description_expected@),
{
    lemma_braceless_from_forall(bug.description_expected@, 0);
    reveal_strlit("{bug.title}");
    reveal_strlit("{bug.type}");
    reveal_strlit("{bug.description.steps}");
    reveal_strlit("{bug.description.expected}");
    reveal_strlit("{bug.description.actual}");
    reveal_strlit("{bug.folderPath}");
    let p = "{bug.description.expected}"@;
    reveal_with_fuel(braceless_from, 28);
    assert(braceless_from(p, 1));
    assert(p[5] != "{bug.title}"@[5]);
    lemma_replaced_other(p, "{bug.title}"@, bug.title@, 5);
    assert(p[5] != "{bug.type}"@[5]);
    lemma_replaced_other(p, "{bug.type}"@, bug.bug_type@, 5);
    assert(p[17] != "{bug.description.steps}"@[17]);
    lemma_replaced_other(p, "{bug.description.steps}"@, bug.description_steps@, 17);
    lemma_replaced_whole(p, bug.description_expected@);
    lemma_replaced_plain(bug.description_expected@, "{bug.description.actual}"@, bug.description_actual@);
    lemma_replaced_plain(bug.description_expected@, "{bug.folderPath}"@, bug.folder_path@);
    lemma_rendered_plain(p, bug, bug.description_expected@);
}

/// A template holding only the `{bug.description.actual}` placeholder renders as the bug's
/// description_actual field, when that field is one plain line (no brace, no line feed).
pub proof fn lemma_renders_actual(bug: BugData)
    requires
        plain_value(bug.description_actual@),
    ensures
        rendered("{bug.description.actual}"@, bug) == value_line(bug.description_actual@),
{
    lemma_braceless_from_forall(bug.description_actual@, 0);
    reveal_strlit("{bug.title}");
    reveal_strlit("{bug.type}");
    reveal_strlit("{bug.description.steps}");
    reveal_strlit("{bug.description.expected}");
    reveal_strlit("{bug.description.actual}");
    reveal_strlit("{bug.folderPath}");
    let p = "{bug.description.actual}"@;
    reveal_with_fuel(braceless_from, 26);
    assert(braceless_from(p, 1));
    assert(p[5] != "{bug.title}"@[5]);
    lemma_replaced_other(p, "{bug.title}"@, bug.title@, 5);
    assert(p[5] != "{bug.type}"@[5]);
    lemma_replaced_other(p, "{bug.type}"@, bug.bug_type@, 5);
    assert(p[17] != "{bug.description.steps}"@[17]);
    lemma_replaced_other(p, "{bug.description.steps}"@, bug.description_steps@, 17);
    assert(p[17] != "{bug.description.expected}"@[17]);
    lemma_replaced_other(p, "{bug.description.expected}"@, bug.description_expected@, 17);
    lemma_replaced_whole(p, bug.description_actual@);
    lemma_replaced_plain(bug.description_actual@, "{bug.folderPath}"@, bug.folder_path@);
    lemma_rendered_plain(p, bug, bug.description_actual@);
}

/// A template holding only the `{bug.folderPath}` placeholder renders as the bug's
/// folder_path field, when that field is one plain line (no brace, no line feed).
pub proof fn lemma_renders_folder_path(bug: BugData)
    requires
        plain_value(bug.folder_path@),
    ensures
        rendered("{bug.folderPath}"@, bug) == value_line(bug.folder_path@),
{
    lemma_braceless_from_forall(bug.folder_path@, 0);
    reveal_strlit("{bug.title}");
    reveal_strlit("{bug.type}");
    reveal_strlit("{bug.description.steps}");
    reveal_strlit("{bug.description.expected}");
    reveal_strlit("{bug.description.actual}");
    reveal_strlit("{bug.folderPath}");
    let p = "{bug.folderPath}"@;
    reveal_with_fuel(braceless_from, 18);
    assert(braceless_from(p, 1));
    assert(p[5] != "{bug.title}"@[5]);
    lemma_replaced_other(p, "{bug.title}"@, bug.title@, 5);
    assert(p[5] != "{bug.type}"@[5]);
    lemma_replaced_other(p, "{bug.type}"@, bug.bug_type@, 5);
    assert(p[5] != "{bug.description.steps}"@[5]);
    lemma_replaced_other(p, "{bug.description.steps}"@, bug.description_steps@, 5);
    assert(p[5] != "{bug.description.expected}"@[5]);
    lemma_replaced_other(p, "{bug.description.expected}"@, bug.description_expected@, 5);
    assert(p[5] != "{bug.description.actual}"@[5]);
    lemma_replaced_other(p, "{bug.description.actual}"@, bug.description_actual@, 5);
    lemma_replaced_whole(p, bug.folder_path@);
    lemma_rendered_plain(p, bug, bug.folder_path@);
}

/// A template holding only the `{bug.metadata.environment.os}` placeholder renders as the operating system of the environment, when
/// that value is one plain line (no brace, no line feed).
pub proof fn lemma_renders_environment_os(bug: BugData)
    requires
        plain_value(bug.metadata.environment.os@),
    ensures
        rendered("{bug.metadata.environment.os}"@, bug) == value_line(bug.metadata.environment.os@),
{
    reveal_strlit("{bug.title}");
    reveal_strlit("{bug.type}");
    reveal_strlit("{bug.description.steps}");
    reveal_strlit("{bug.description.expected}");
    reveal_strlit("{bug.description.actual}");
    reveal_strlit("{bug.folderPath}");
    reveal_strlit("{bug.metadata.environment.os}");
    reveal_strlit("{bug.metadata.environment.displayResolution}");
    reveal_strlit("{bug.metadata.environment.dpiScaling}");
    reveal_strlit("{bug.metadata.environment.foregroundApp}");
    reveal_strlit("{bug.metadata.softwareVersion}");
    reveal_strlit("{bug.captures.count}");
    reveal_strlit("{bug.captures.list}");
    reveal_strlit("{bug.consoleOutput}");
    let p = "{bug.metadata.environment.os}"@;
    reveal_with_fuel(braceless_from, 31);
    assert(braceless_from(p, 1));
    assert(p[5] != "{bug.title}"@[5]);
    lemma_replaced_other(p, "{bug.title}"@, bug.title@, 5);
    assert(p[5] != "{bug.type}"@[5]);
    lemma_replaced_other(p, "{bug.type}"@, bug.bug_type@, 5);
    assert(p[5] != "{bug.description.steps}"@[5]);
    lemma_replaced_other(p, "{bug.description.steps}"@, bug.description_steps@, 5);
    assert(p[5] != "{bug.description.expected}"@[5]);
    lemma_replaced_other(p, "{bug.description.expected}"@, bug.description_expected@, 5);
    assert(p[5] != "{bug.description.actual}"@[5]);
    lemma_replaced_other(p, "{bug.description.actual}"@, bug.description_actual@, 5);
    assert(p[5] != "{bug.folderPath}"@[5]);
    lemma_replaced_other(p, "{bug.folderPath}"@, bug.folder_path@, 5);
    assert(with_bug_fields(p, bug) == p);
    let v = bug.metadata.environment.os@;
    lemma_braceless_from_forall(v, 0);
    lemma_replaced_whole(p, v);
    lemma_replaced_plain(v, "{bug.metadata.environment.displayResolution}"@, bug.metadata.environment.display_resolution@);
    lemma_replaced_plain(v, "{bug.metadata.environment.dpiScaling}"@, bug.metadata.environment.dpi_scaling@);
    lemma_replaced_plain(v, "{bug.metadata.environment.foregroundApp}"@, bug.metadata.environment.foreground_app@);
    lemma_replaced_plain(v, "{bug.metadata.softwareVersion}"@, or_default(bug.metadata.software_version, "Unknown"@));
    lemma_rendered_metadata_plain(p, bug, v);
}

/// A template holding only the `{bug.metadata.environment.displayResolution}` placeholder renders as the display resolution, when
/// that value is one plain line (no brace, no line feed).
pub proof fn lemma_renders_display_resolution(bug: BugData)
    requires
        plain_value(bug.metadata.environment.display_resolution@),
    ensures
        rendered("{bug.metadata.environment.displayResolution}"@, bug) == value_line(bug.metadata.environment.display_resolution@),
{
    reveal_strlit("{bug.title}");
    reveal_strlit("{bug.type}");
    reveal_strlit("{bug.description.steps}");
    reveal_strlit("{bug.description.expected}");
    reveal_strlit("{bug.description.actual}");
    reveal_strlit("{bug.folderPath}");
    reveal_strlit("{bug.metadata.environment.os}");
    reveal_strlit("{bug.metadata.environment.displayResolution}");
    reveal_strlit("{bug.metadata.environment.dpiScaling}");
    reveal_strlit("{bug.metadata.environment.foregroundApp}");
    reveal_strlit("{bug.metadata.softwareVersion}");
    reveal_strlit("{bug.captures.count}");
    reveal_strlit("{bug.captures.list}");
    reveal_strlit("{bug.consoleOutput}");
    let p = "{bug.metadata.environment.displayResolution}"@;
    reveal_with_fuel(braceless_from, 46);
    assert(braceless_from(p, 1));
    assert(p[5] != "{bug.title}"@[5]);
    lemma_replaced_other(p, "{bug.title}"@, bug.title@, 5);
    assert(p[5] != "{bug.type}"@[5]);
    lemma_replaced_other(p, "{bug.type}"@, bug.bug_type@, 5);
    assert(p[5] != "{bug.description.steps}"@[5]);
    lemma_replaced_other(p, "{bug.description.steps}"@, bug.description_steps@, 5);
    assert(p[5] != "{bug.description.expected}"@[5]);
    lemma_replaced_other(p, "{bug.description.expected}"@, bug.description_expected@, 5);
    assert(p[5] != "{bug.description.actual}"@[5]);
    lemma_replaced_other(p, "{bug.description.actual}"@, bug.description_actual@, 5);
    assert(p[5] != "{bug.folderPath}"@[5]);
    lemma_replaced_other(p, "{bug.folderPath}"@, bug.folder_path@, 5);
    assert(with_bug_fields(p, bug) == p);
    let v = bug.metadata.environment.display_resolution@;
    lemma_braceless_from_forall(v, 0);
    assert(p[26] != "{bug.metadata.environment.os}"@[26]);
    lemma_replaced_other(p, "{bug.metadata.environment.os}"@, bug.metadata.environment.os@, 26);
    lemma_replaced_whole(p, v);
    lemma_replaced_plain(v, "{bug.metadata.environment.dpiScaling}"@, bug.metadata.environment.dpi_scaling@);
    lemma_replaced_plain(v, "{bug.metadata.environment.foregroundApp}"@, bug.metadata.environment.foreground_app@);
    lemma_replaced_plain(v, "{bug.metadata.softwareVersion}"@, or_default(bug.metadata.software_version, "Unknown"@));
    lemma_rendered_metadata_plain(p, bug, v);
}

/// A template holding only the `{bug.metadata.environment.dpiScaling}` placeholder renders as the DPI scaling, when
/// that value is one plain line (no brace, no line feed).
pub proof fn lemma_renders_dpi_scaling(bug: BugData)
    requires
        plain_value(bug.metadata.environment.dpi_scaling@),
    ensures
        rendered("{bug.metadata.environment.dpiScaling}"@, bug) == value_line(bug.metadata.environment.dpi_scaling@),
{
    reveal_strlit("{bug.title}");
    reveal_strlit("{bug.type}");
    reveal_strlit("{bug.description.steps}");
    reveal_strlit("{bug.description.expected}");
    reveal_strlit("{bug.description.actual}");
    reveal_strlit("{bug.folderPath}");
    reveal_strlit("{bug.metadata.environment.os}");
    reveal_strlit("{bug.metadata.environment.displayResolution}");
    reveal_strlit("{bug.metadata.environment.dpiScaling}");
    reveal_strlit("{bug.metadata.environment.foregroundApp}");
    reveal_strlit("{bug.metadata.softwareVersion}");
    reveal_strlit("{bug.captures.count}");
    reveal_strlit("{bug.captures.list}");
    reveal_strlit("{bug.consoleOutput}");
    let p = "{bug.metadata.environment.dpiScaling}"@;
    reveal_with_fuel(braceless_from, 39);
    assert(braceless_from(p, 1));
    assert(p[5] != "{bug.title}"@[5]);
    lemma_replaced_other(p, "{bug.title}"@, bug.title@, 5);
    assert(p[5] != "{bug.type}"@[5]);
    lemma_replaced_other(p, "{bug.type}"@, bug.bug_type@, 5);
    assert(p[5] != "{bug.description.steps}"@[5]);
    lemma_replaced_other(p, "{bug.description.steps}"@, bug.description_steps@, 5);
    assert(p[5] != "{bug.description.expected}"@[5]);
    lemma_replaced_other(p, "{bug.description.expected}"@, bug.description_expected@, 5);
    assert(p[5] != "{bug.description.actual}"@[5]);
    lemma_replaced_other(p, "{bug.description.actual}"@, bug.description_actual@, 5);
    assert(p[5] != "{bug.folderPath}"@[5]);
    lemma_replaced_other(p, "{bug.folderPath}"@, bug.folder_path@, 5);
    assert(with_bug_fields(p, bug) == p);
    let v = bug.metadata.environment.dpi_scaling@;
    lemma_braceless_from_forall(v, 0);
    assert(p[26] != "{bug.metadata.environment.os}"@[26]);
    lemma_replaced_other(p, "{bug.metadata.environment.os}"@, bug.metadata.environment.os@, 26);
    assert(p[27] != "{bug.metadata.environment.displayResolution}"@[27]);
    lemma_replaced_other(p, "{bug.metadata.environment.displayResolution}"@, bug.metadata.environment.display_resolution@, 27);
    lemma_replaced_whole(p, v);
    lemma_replaced_plain(v, "{bug.metadata.environment.foregroundApp}"@, bug.metadata.environment.foreground_app@);
    lemma_replaced_plain(v, "{bug.metadata.softwareVersion}"@, or_default(bug.metadata.software_version, "Unknown"@));
    lemma_rendered_metadata_plain(p, bug, v);
}

/// A template holding only the `{bug.metadata.environment.foregroundApp}` placeholder renders as the foreground application, when
/// that value is one plain line (no brace, no line feed).
pub proof fn lemma_renders_foreground_app(bug: BugData)
    requires
        plain_value(bug.metadata.environment.foreground_app@),
    ensures
        rendered("{bug.metadata.environment.foregroundApp}"@, bug) == value_line(bug.metadata.environment.foreground_app@),
{
    reveal_strlit("{bug.title}");
    reveal_strlit("{bug.type}");
    reveal_strlit("{bug.description.steps}");
    reveal_strlit("{bug.description.expected}");
    reveal_strlit("{bug.description.actual}");
    reveal_strlit("{bug.folderPath}");
    reveal_strlit("{bug.metadata.environment.os}");
    reveal_strlit("{bug.metadata.environment.displayResolution}");
    reveal_strlit("{bug.metadata.environment.dpiScaling}");
    reveal_strlit("{bug.metadata.environment.foregroundApp}");
    reveal_strlit("{bug.metadata.softwareVersion}");
    reveal_strlit("{bug.captures.count}");
    reveal_strlit("{bug.captures.list}");
    reveal_strlit("{bug.consoleOutput}");
    let p = "{bug.metadata.environment.foregroundApp}"@;
    reveal_with_fuel(braceless_from, 42);
    assert(braceless_from(p, 1));
    assert(p[5] != "{bug.title}"@[5]);
    lemma_replaced_other(p, "{bug.title}"@, bug.title@, 5);
    assert(p[5] != "{bug.type}"@[5]);
    lemma_replaced_other(p, "{bug.type}"@, bug.bug_type@, 5);
    assert(p[5] != "{bug.description.steps}"@[5]);
    lemma_replaced_other(p, "{bug.description.steps}"@, bug.description_steps@, 5);
    assert(p[5] != "{bug.description.expected}"@[5]);
    lemma_replaced_other(p, "{bug.description.expected}"@, bug.description_expected@, 5);
    assert(p[5] != "{bug.description.actual}"@[5]);
    lemma_replaced_other(p, "{bug.description.actual}"@, bug.description_actual@, 5);
    assert(p[5] != "{bug.folderPath}"@[5]);
    lemma_replaced_other(p, "{bug.folderPath}"@, bug.folder_path@, 5);
    assert(with_bug_fields(p, bug) == p);
    let v = bug.metadata.environment.foreground_app@;
    lemma_braceless_from_forall(v, 0);
    assert(p[26] != "{bug.metadata.environment.os}"@[26]);
    lemma_replaced_other(p, "{bug.metadata.environment.os}"@, bug.metadata.environment.os@, 26);
    assert(p[26] != "{bug.metadata.environment.displayResolution}"@[26]);
    lemma_replaced_other(p, "{bug.metadata.environment.displayResolution}"@, bug.metadata.environment.display_resolution@, 26);
    assert(p[26] != "{bug.metadata.environment.dpiScaling}"@[26]);
    lemma_replaced_other(p, "{bug.metadata.environment.dpiScaling}"@, bug.metadata.environment.dpi_scaling@, 26);
    lemma_replaced_whole(p, v);
    lemma_replaced_plain(v, "{bug.metadata.softwareVersion}"@, or_default(bug.metadata.software_version, "Unknown"@));
    lemma_rendered_metadata_plain(p, bug, v);
}

/// A template holding only the `{bug.metadata.softwareVersion}` placeholder renders as the software version, `Unknown` when it is missing, when
/// that value is one plain line (no brace, no line feed).
pub proof fn lemma_renders_software_version(bug: BugData)
    requires
        plain_value(or_default(bug.metadata.software_version, "Unknown"@)),
    ensures
        rendered("{bug.metadata.softwareVersion}"@, bug) == value_line(or_default(bug.metadata.software_version, "Unknown"@)),
{
    reveal_strlit("{bug.title}");
    reveal_strlit("{bug.type}");
    reveal_strlit("{bug.description.steps}");
    reveal_strlit("{bug.description.expected}");
    reveal_strlit("{bug.description.actual}");
    reveal_strlit("{bug.folderPath}");
    reveal_strlit("{bug.metadata.environment.os}");
    reveal_strlit("{bug.metadata.environment.displayResolution}");
    reveal_strlit("{bug.metadata.environment.dpiScaling}");
    reveal_strlit("{bug.metadata.environment.foregroundApp}");
    reveal_strlit("{bug.metadata.softwareVersion}");
    reveal_strlit("{bug.captures.count}");
    reveal_strlit("{bug.captures.list}");
    reveal_strlit("{bug.consoleOutput}");
    let p = "{bug.metadata.softwareVersion}"@;
    reveal_with_fuel(braceless_from, 32);
    assert(braceless_from(p, 1));
    assert(p[5] != "{bug.title}"@[5]);
    lemma_replaced_other(p, "{bug.title}"@, bug.title@, 5);
    assert(p[5] != "{bug.type}"@[5]);
    lemma_replaced_other(p, "{bug.type}"@, bug.bug_type@, 5);
    assert(p[5] != "{bug.description.steps}"@[5]);
    lemma_replaced_other(p, "{bug.description.steps}"@, bug.description_steps@, 5);
    assert(p[5] != "{bug.description.expected}"@[5]);
    lemma_replaced_other(p, "{bug.description.expected}"@, bug.description_expected@, 5);
    assert(p[5] != "{bug.description.actual}"@[5]);
    lemma_replaced_other(p, "{bug.description.actual}"@, bug.description_actual@, 5);
    assert(p[5] != "{bug.folderPath}"@[5]);
    lemma_replaced_other(p, "{bug.folderPath}"@, bug.folder_path@, 5);
    assert(with_bug_fields(p, bug) == p);
    let v = or_default(bug.metadata.software_version, "Unknown"@);
    lemma_braceless_from_forall(v, 0);
    assert(p[14] != "{bug.metadata.environment.os}"@[14]);
    lemma_replaced_other(p, "{bug.metadata.environment.os}"@, bug.metadata.environment.os@, 14);
    assert(p[14] != "{bug.metadata.environment.displayResolution}"@[14]);
    lemma_replaced_other(p, "{bug.metadata.environment.displayResolution}"@, bug.metadata.environment.display_resolution@, 14);
    assert(p[14] != "{bug.metadata.environment.dpiScaling}"@[14]);
    lemma_replaced_other(p, "{bug.metadata.environment.dpiScaling}"@, bug.metadata.environment.dpi_scaling@, 14);
    assert(p[14] != "{bug.metadata.environment.foregroundApp}"@[14]);
    lemma_replaced_other(p, "{bug.metadata.environment.foregroundApp}"@, bug.metadata.environment.foreground_app@, 14);
    lemma_replaced_whole(p, v);
    lemma_rendered_metadata_plain(p, bug, v);
}

/// A template holding only the `{bug.consoleOutput}` placeholder renders as
/// the bug's console output, or `No console output captured` when it has
/// none, followed by a line feed.
pub proof fn lemma_renders_console_output(bug: BugData)
    ensures
        rendered("{bug.consoleOutput}"@, bug) == or_default(bug.console_output, "No console output captured"@)
            + "\n"@,
{
    reveal_strlit("{bug.title}");
    reveal_strlit("{bug.type}");
    reveal_strlit("{bug.description.steps}");
    reveal_strlit("{bug.description.expected}");
    reveal_strlit("{bug.description.actual}");
    reveal_strlit("{bug.folderPath}");
    reveal_strlit("{bug.metadata.environment.os}");
    reveal_strlit("{bug.metadata.environment.displayResolution}");
    reveal_strlit("{bug.metadata.environment.dpiScaling}");
    reveal_strlit("{bug.metadata.environment.foregroundApp}");
    reveal_strlit("{bug.metadata.softwareVersion}");
    reveal_strlit("{bug.captures.count}");
    reveal_strlit("{bug.captures.list}");
    reveal_strlit("{bug.consoleOutput}");
    reveal_strlit("{");
    reveal_strlit("\n");
    let p = "{bug.consoleOutput}"@;
    reveal_with_fuel(braceless_from, 21);
    assert(braceless_from(p, 1));
    assert(p[5] != "{bug.title}"@[5]);
    lemma_replaced_other(p, "{bug.title}"@, bug.title@, 5);
    assert(p[5] != "{bug.type}"@[5]);
    lemma_replaced_other(p, "{bug.type}"@, bug.bug_type@, 5);
    assert(p[5] != "{bug.description.steps}"@[5]);
    lemma_replaced_other(p, "{bug.description.steps}"@, bug.description_steps@, 5);
    assert(p[5] != "{bug.description.expected}"@[5]);
    lemma_replaced_other(p, "{bug.description.expected}"@, bug.description_expected@, 5);
    assert(p[5] != "{bug.description.actual}"@[5]);
    lemma_replaced_other(p, "{bug.description.actual}"@, bug.description_actual@, 5);
    assert(p[5] != "{bug.folderPath}"@[5]);
    lemma_replaced_other(p, "{bug.folderPath}"@, bug.folder_path@, 5);
    assert(p[5] != "{bug.metadata.environment.os}"@[5]);
    lemma_replaced_other(p, "{bug.metadata.environment.os}"@, bug.metadata.environment.os@, 5);
    assert(p[5] != "{bug.metadata.environment.displayResolution}"@[5]);
    lemma_replaced_other(p, "{bug.metadata.environment.displayResolution}"@, bug.metadata.environment.display_resolution@, 5);
    assert(p[5] != "{bug.metadata.environment.dpiScaling}"@[5]);
    lemma_replaced_other(p, "{bug.metadata.environment.dpiScaling}"@, bug.metadata.environment.dpi_scaling@, 5);
    assert(p[5] != "{bug.metadata.environment.foregroundApp}"@[5]);
    lemma_replaced_other(p, "{bug.metadata.environment.foregroundApp}"@, bug.metadata.environment.foreground_app@, 5);
    assert(p[5] != "{bug.metadata.softwareVersion}"@[5]);
    lemma_replaced_other(p, "{bug.metadata.softwareVersion}"@, or_default(bug.metadata.software_version, "Unknown"@), 5);
    assert(with_bug_fields(p, bug) == p);
    assert(with_metadata(p, bug.metadata) == p);
    reveal_strlit("bug.metadata.meetingId");
    reveal_strlit(":");
    let pattern = "{"@ + "bug.metadata.meetingId"@ + ":"@;
    assert(pattern.len() == 24);
    assert(pattern[5] == 'm');
    assert(p[5] != pattern[5]);
    lemma_capture_placeholder_line(p, bug, 5);
    let c = p + "\n"@;
    assert(braceless_from(c, 1)) by {
        assert forall|j: int| 1 <= j < c.len() implies c[j] != '{' by {
            if j < p.len() {
                lemma_braceless_from_at(p, 1, j);
            }
        }
        lemma_braceless_from_forall(c, 1);
    }
    assert(braceless_from("\n"@, 0)) by {
        lemma_braceless_from_forall("\n"@, 0);
    }
    assert(c[6] != "{bug.captures.count}"@[6]);
    lemma_replaced_other(c, "{bug.captures.count}"@, decimal(bug.captures@.len()), 6);
    assert(c[6] != "{bug.captures.list}"@[6]);
    lemma_replaced_other(c, "{bug.captures.list}"@, bullet_list(bug.captures@), 6);
    lemma_replaced_prefix(p, "\n"@, or_default(bug.console_output, "No console output captured"@));
}

/// A template holding only the `{bug.captures.count}` placeholder renders
/// as the number of captures in decimal, followed by a line feed.
pub proof fn lemma_renders_captures_count(bug: BugData)
    ensures
        rendered("{bug.captures.count}"@, bug) == decimal(bug.captures@.len()) + "\n"@,
{
    reveal_strlit("{bug.title}");
    reveal_strlit("{bug.type}");
    reveal_strlit("{bug.description.steps}");
    reveal_strlit("{bug.description.expected}");
    reveal_strlit("{bug.description.actual}");
    reveal_strlit("{bug.folderPath}");
    reveal_strlit("{bug.metadata.environment.os}");
    reveal_strlit("{bug.metadata.environment.displayResolution}");
    reveal_strlit("{bug.metadata.environment.dpiScaling}");
    reveal_strlit("{bug.metadata.environment.foregroundApp}");
    reveal_strlit("{bug.metadata.softwareVersion}");
    reveal_strlit("{bug.captures.count}");
    reveal_strlit("{bug.captures.list}");
    reveal_strlit("{bug.consoleOutput}");
    reveal_strlit("{");
    reveal_strlit("\n");
    let p = "{bug.captures.count}"@;
    reveal_with_fuel(braceless_from, 22);
    assert(braceless_from(p, 1));
    assert(p[5] != "{bug.title}"@[5]);
    lemma_replaced_other(p, "{bug.title}"@, bug.title@, 5);
    assert(p[5] != "{bug.type}"@[5]);
    lemma_replaced_other(p, "{bug.type}"@, bug.bug_type@, 5);
    assert(p[5] != "{bug.description.steps}"@[5]);
    lemma_replaced_other(p, "{bug.description.steps}"@, bug.description_steps@, 5);
    assert(p[5] != "{bug.description.expected}"@[5]);
    lemma_replaced_other(p, "{bug.description.expected}"@, bug.description_expected@, 5);
    assert(p[5] != "{bug.description.actual}"@[5]);
    lemma_replaced_other(p, "{bug.description.actual}"@, bug.description_actual@, 5);
    assert(p[5] != "{bug.folderPath}"@[5]);
    lemma_replaced_other(p, "{bug.folderPath}"@, bug.folder_path@, 5);
    assert(p[5] != "{bug.metadata.environment.os}"@[5]);
    lemma_replaced_other(p, "{bug.metadata.environment.os}"@, bug.metadata.environment.os@, 5);
    assert(p[5] != "{bug.metadata.environment.displayResolution}"@[5]);
    lemma_replaced_other(p, "{bug.metadata.environment.displayResolution}"@, bug.metadata.environment.display_resolution@, 5);
    assert(p[5] != "{bug.metadata.environment.dpiScaling}"@[5]);
    lemma_replaced_other(p, "{bug.metadata.environment.dpiScaling}"@, bug.metadata.environment.dpi_scaling@, 5);
    assert(p[5] != "{bug.metadata.environment.foregroundApp}"@[5]);
    lemma_replaced_other(p, "{bug.metadata.environment.foregroundApp}"@, bug.metadata.environment.foreground_app@, 5);
    assert(p[5] != "{bug.metadata.softwareVersion}"@[5]);
    lemma_replaced_other(p, "{bug.metadata.softwareVersion}"@, or_default(bug.metadata.software_version, "Unknown"@), 5);
    assert(with_bug_fields(p, bug) == p);
    assert(with_metadata(p, bug.metadata) == p);
    reveal_strlit("bug.metadata.meetingId");
    reveal_strlit(":");
    let pattern = "{"@ + "bug.metadata.meetingId"@ + ":"@;
    assert(pattern.len() == 24);
    assert(pattern[5] == 'm');
    assert(p[5] != pattern[5]);
    lemma_capture_placeholder_line(p, bug, 5);
    let c = p + "\n"@;
    assert(braceless_from(c, 1)) by {
        assert forall|j: int| 1 <= j < c.len() implies c[j] != '{' by {
            if j < p.len() {
                lemma_braceless_from_at(p, 1, j);
            }
        }
        lemma_braceless_from_forall(c, 1);
    }
    assert(braceless_from("\n"@, 0)) by {
        lemma_braceless_from_forall("\n"@, 0);
    }
    let d = decimal(bug.captures@.len());
    lemma_replaced_prefix(p, "\n"@, d);
    lemma_decimal_reads_back(bug.captures@.len());
    let w = d + "\n"@;
    assert forall|j: int| 0 <= j < w.len() implies w[j] != '{' by {
        if j < d.len() {
            assert(is_ascii_digit(d[j]));
        }
    }
    lemma_braceless_from_forall(w, 0);
    lemma_replaced_plain(w, "{bug.captures.list}"@, bullet_list(bug.captures@));
    lemma_replaced_plain(w, "{bug.consoleOutput}"@, or_default(bug.console_output, "No console output captured"@));
}

/// The captures as a bullet list.
fn captures_list(items: &Vec<String>) -> (r: String)
    ensures
        r@ == bullet_list(items@),
{
    let mut out = String::new();
    let mut i: usize = 0;
    while i < items.len()
        invariant
            i <= items@.len(),
            out@ == bullet_list(items@.subrange(0, i as int)),
        decreases items@.len() - i,
    {
        if i > 0 {
            out.append("\n");
        }
        out.append("- ");
        out.append(items[i].as_str());
        proof {
            reveal_strlit("\n");
            reveal_strlit("- ");
            reveal_strlit("\n- ");
        }
        assert(items@.subrange(0, i + 1).drop_last() =~= items@.subrange(0, i as int));
        assert(items@.subrange(0, i + 1).last() == items@[i as int]);
        assert(out@ =~= bullet_list(items@.subrange(0, i + 1)));
        i = i + 1;
    }
    assert(items@.subrange(0, items@.len() as int) =~= items@);
    out
}

fn fill_bug_fields(template: &str, bug: &BugData) -> (r: String)
    ensures
        r@ == with_bug_fields(template@, *bug),
{
    proof {
        reveal_strlit("{bug.title}");
        reveal_strlit("{bug.type}");
        reveal_strlit("{bug.description.steps}");
        reveal_strlit("{bug.description.expected}");
        reveal_strlit("{bug.description.actual}");
        reveal_strlit("{bug.folderPath}");
    }
    let out = replace_str(template, "{bug.title}", bug.title.as_str());
    let out = replace_str(out.as_str(), "{bug.type}", bug.bug_type.as_str());
    let out = replace_str(out.as_str(), "{bug.description.steps}", bug.description_steps.as_str());
    let out = replace_str(out.as_str(), "{bug.description.expected}", bug.description_expected.as_str());
    let out = replace_str(out.as_str(), "{bug.description.actual}", bug.description_actual.as_str());
    replace_str(out.as_str(), "{bug.folderPath}", bug.folder_path.as_str())
}

fn fill_metadata(template: &str, m: &BugMetadata) -> (r: String)
    ensures
        r@ == with_metadata(template@, *m),
{
    proof {
        reveal_strlit("{bug.metadata.environment.os}");
        reveal_strlit("{bug.metadata.environment.displayResolution}");
        reveal_strlit("{bug.metadata.environment.dpiScaling}");
        reveal_strlit("{bug.metadata.environment.foregroundApp}");
        reveal_strlit("{bug.metadata.softwareVersion}");
    }
    let out = replace_str(template, "{bug.metadata.environment.os}", m.environment.os.as_str());
    let out = replace_str(
        out.as_str(),
        "{bug.metadata.environment.displayResolution}",
        m.environment.display_resolution.as_str(),
    );
    let out = replace_str(out.as_str(), "{bug.metadata.environment.dpiScaling}", m.environment.dpi_scaling.as_str());
    let out = replace_str(
        out.as_str(),
        "{bug.metadata.environment.foregroundApp}",
        m.environment.foreground_app.as_str(),
    );
    let version: &str = match &m.software_version {
        Some(v) => v.as_str(),
        None => "Unknown",
    };
    replace_str(out.as_str(), "{bug.metadata.softwareVersion}", version)
}

fn fill_captures(template: &str, bug: &BugData) -> (r: String)
    ensures
        r@ == with_captures(template@, *bug),
{
    proof {
        reveal_strlit("{bug.captures.count}");
        reveal_strlit("{bug.captures.list}");
        reveal_strlit("{bug.consoleOutput}");
    }
    let mut count = String::new();
    push_decimal(&mut count, bug.captures.len() as u64);
    let out = replace_str(template, "{bug.captures.count}", count.as_str());
    let list = captures_list(&bug.captures);
    let out = replace_str(out.as_str(), "{bug.captures.list}", list.as_str());
    let console: &str = match &bug.console_output {
        Some(c) => c.as_str(),
        None => "No console output captured",
    };
    replace_str(out.as_str(), "{bug.consoleOutput}", console)
}

/// The bug report for `bug` rendered from `template`.
pub fn render_template(template: &str, bug: &BugData) -> (r: String)
    ensures
        r@ == rendered(template@, *bug),
{
    let out = fill_bug_fields(template, bug);
    let out = fill_metadata(out.as_str(), &bug.metadata);
    let out = replace_conditional(out.as_str(), "bug.metadata.meetingId", &bug.metadata.meeting_id);
    fill_captures(out.as_str(), bug)
}

} // verus!

verus! {

/// The greeting of the sample command.
pub fn greet(name: &str) -> (r: String)
    ensures
        r@ == "Hello, "@ + name@ + "! You've been greeted from Rust!"@,
{
    let mut s = String::from_str("Hello, ");
    s.append(name);
    s.append("! You've been greeted from Rust!");
    s
}

} // verus!

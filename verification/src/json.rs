//! Reading JSON replies and files with serde_json: whether a text parses,
//! and the string, array length, object keys or compact text of the value
//! a JSON pointer (RFC 6901) picks out. Each query parses the text and
//! looks the pointer up in one step, since the parsed `Value` is opaque here.
use vstd::prelude::*;

use crate::text::{replace_str, replaced};

verus! {

/// The message of serde_json's error for a text that is not JSON; none
/// when it parses.
pub uninterp spec fn json_syntax_error(text: Seq<char>) -> Option<Seq<char>>;

/// The string at `pointer` in the JSON `text`; none when the text does not
/// parse or the value there is missing or not a string.
pub uninterp spec fn json_string_at(text: Seq<char>, pointer: Seq<char>) -> Option<Seq<char>>;

/// The length of the array at `pointer`; none when it is not an array.
pub uninterp spec fn json_array_len_at(text: Seq<char>, pointer: Seq<char>) -> Option<nat>;

/// The keys of the object at `pointer`, in serde_json's order (sorted);
/// none when it is not an object.
pub uninterp spec fn json_object_keys_at(text: Seq<char>, pointer: Seq<char>) -> Option<Seq<Seq<char>>>;

/// The compact JSON text of the value at `pointer`; none when it is missing.
pub uninterp spec fn json_value_text_at(text: Seq<char>, pointer: Seq<char>) -> Option<Seq<char>>;

/// `serde_json::from_str::<Value>`: the error's message when `text` does not
/// parse. The contract only names it.
#[verifier::external_body]
pub(crate) fn json_error(text: &str) -> (r: Option<String>)
    ensures
        match r {
            Some(e) => json_syntax_error(text@) == Some(e@),
            None => json_syntax_error(text@) is None,
        },
{
    serde_json::from_str::<serde_json::Value>(text).err().map(|e| e.to_string())
}

/// `Value::pointer` then `as_str` on the parsed `text`. The contract only
/// names the result.
#[verifier::external_body]
pub(crate) fn json_str(text: &str, pointer: &str) -> (r: Option<String>)
    ensures
        match r {
            Some(s) => json_string_at(text@, pointer@) == Some(s@),
            None => json_string_at(text@, pointer@) is None,
        },
{
    serde_json::from_str::<serde_json::Value>(text).ok()?.pointer(pointer)?.as_str().map(|s| s.to_string())
}

/// `Value::pointer` then `as_array` and its length on the parsed `text`.
/// The contract only names the result.
#[verifier::external_body]
pub(crate) fn json_array_len(text: &str, pointer: &str) -> (r: Option<usize>)
    ensures
        match r {
            Some(n) => json_array_len_at(text@, pointer@) == Some(n as nat),
            None => json_array_len_at(text@, pointer@) is None,
        },
{
    serde_json::from_str::<serde_json::Value>(text).ok()?.pointer(pointer)?.as_array().map(|a| a.len())
}

/// `Value::pointer` then `as_object` and its keys, in the map's order, on
/// the parsed `text`. The contract only names the result.
#[verifier::external_body]
pub(crate) fn json_object_keys(text: &str, pointer: &str) -> (r: Option<Vec<String>>)
    ensures
        match r {
            Some(k) => json_object_keys_at(text@, pointer@) == Some(k@.map_values(|s: String| s@)),
            None => json_object_keys_at(text@, pointer@) is None,
        },
{
    serde_json::from_str::<serde_json::Value>(text).ok()?.pointer(pointer)?.as_object().map(|o| o.keys().cloned().collect())
}

/// `Value::pointer` on the parsed `text`, written back as compact JSON
/// (`Value::to_string`). The contract only names the result.
#[verifier::external_body]
pub(crate) fn json_value_text(text: &str, pointer: &str) -> (r: Option<String>)
    ensures
        match r {
            Some(s) => json_value_text_at(text@, pointer@) == Some(s@),
            None => json_value_text_at(text@, pointer@) is None,
        },
{
    serde_json::from_str::<serde_json::Value>(text).ok()?.pointer(pointer).map(|v| v.to_string())
}

/// A key written as a JSON pointer token: `~` as `~0`, then `/` as `~1`.
pub open spec fn pointer_token(key: Seq<char>) -> Seq<char> {
    replaced(replaced(key, "~"@, "~0"@), "/"@, "~1"@)
}

/// The pointer token of `key`.
pub fn escape_pointer_token(key: &str) -> (r: String)
    ensures
        r@ == pointer_token(key@),
{
    proof {
        reveal_strlit("~");
        reveal_strlit("/");
    }
    let a = replace_str(key, "~", "~0");
    replace_str(a.as_str(), "/", "~1")
}

} // verus!

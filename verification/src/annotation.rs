//! Annotating a screenshot: the window the editor opens in, the address it
//! loads, decoding the edited image, and where the result is saved.
use vstd::prelude::*;
use vstd::utf8::encode_utf8;

use crate::capture::{extension_of, path_extension};
use crate::text::{replace_str, replaced, str_eq};

verus! {

/// Bytes that URL encoding leaves as they are: ASCII letters and digits and
/// `-`, `_`, `.`, `~`.
pub open spec fn is_unreserved(b: u8) -> bool {
    (48 <= b <= 57) || (65 <= b <= 90) || (97 <= b <= 122) || b == 45 || b == 46 || b == 95 || b
        == 126
}

/// The uppercase hexadecimal digit for `d` (`0 <= d < 16`).
pub open spec fn hex_digit(d: int) -> char {
    if d < 10 {
        (48 + d) as char
    } else {
        (55 + d) as char
    }
}

/// Percent-encoding of bytes: unreserved bytes stay, every other byte
/// becomes `%` and two uppercase hexadecimal digits.
pub open spec fn percent_encoded(bytes: Seq<u8>) -> Seq<char>
    decreases bytes.len(),
{
    if bytes.len() == 0 {
        Seq::empty()
    } else {
        let b = bytes.last();
        percent_encoded(bytes.drop_last()) + if is_unreserved(b) {
            seq![b as char]
        } else {
            seq!['%', hex_digit(b as int / 16), hex_digit(b as int % 16)]
        }
    }
}

/// `urlencoding::encode`: the UTF-8 bytes of `s`, percent-encoded except
/// ASCII letters, digits and `-`, `_`, `.`, `~`.
#[verifier::external_body]
fn url_encode(s: &str) -> (r: String)
    ensures
        r@ == percent_encoded(encode_utf8(s@)),
{
    urlencoding::encode(s).into_owned()
}

/// What `base64::engine::general_purpose::STANDARD.decode` gives for `s`:
/// the decoded bytes, or the text of the decoding error.
pub uninterp spec fn base64_decoding(s: Seq<char>) -> Result<Seq<u8>, Seq<char>>;

/// Decodes standard base64 with the `base64` crate; on failure gives the
/// error's message. The contract only names the outcome.
#[verifier::external_body]
fn base64_decode(s: &str) -> (r: Result<Vec<u8>, String>)
    ensures
        match r {
            Ok(v) => base64_decoding(s@) == Ok::<Seq<u8>, Seq<char>>(v@),
            Err(m) => base64_decoding(s@) == Err::<Seq<u8>, Seq<char>>(m@),
        },
{
    base64::Engine::decode(&base64::engine::general_purpose::STANDARD, s).map_err(|e| e.to_string())
}

/// What `Path::file_name` gives for the path written `path`, as text.
pub uninterp spec fn path_file_name(path: Seq<char>) -> Option<Seq<char>>;

/// What `Path::file_stem` gives for the path written `path`, as text.
pub uninterp spec fn path_file_stem(path: Seq<char>) -> Option<Seq<char>>;

/// What `Path::parent` gives for the path written `path`, as text.
pub uninterp spec fn path_parent(path: Seq<char>) -> Option<Seq<char>>;

/// What `Path::join` gives for `base` and `name`, as text.
pub uninterp spec fn path_joined(base: Seq<char>, name: Seq<char>) -> Seq<char>;

/// `Path::file_name` of `path` (none also when it is not valid Unicode).
/// The contract only names the result.
#[verifier::external_body]
fn file_name_of(path: &str) -> (r: Option<String>)
    ensures
        r matches Some(n) ==> path_file_name(path@) == Some(n@),
        r is None ==> path_file_name(path@) is None,
{
    std::path::Path::new(path).file_name().and_then(|n| n.to_str()).map(|n| n.to_string())
}

/// `Path::file_stem` of `path`. The contract only names the result.
#[verifier::external_body]
fn file_stem_of(path: &str) -> (r: Option<String>)
    ensures
        r matches Some(n) ==> path_file_stem(path@) == Some(n@),
        r is None ==> path_file_stem(path@) is None,
{
    std::path::Path::new(path).file_stem().and_then(|n| n.to_str()).map(|n| n.to_string())
}

/// `Path::parent` of `path`. The contract only names the result.
#[verifier::external_body]
fn parent_of(path: &str) -> (r: Option<String>)
    ensures
        r matches Some(n) ==> path_parent(path@) == Some(n@),
        r is None ==> path_parent(path@) is None,
{
    std::path::Path::new(path).parent().and_then(|n| n.to_str()).map(|n| n.to_string())
}

/// `Path::join` of `base` and `name`, as text. The contract only names the result.
#[verifier::external_body]
pub(crate) fn join_path(base: &str, name: &str) -> (r: String)
    ensures
        r@ == path_joined(base@, name@),
{
    std::path::Path::new(base).join(name).to_string_lossy().into_owned()
}

/// The label of the annotation window of an image: `annotation-` and the
/// image's file name with dots turned into dashes (`window` when it has none).
pub open spec fn window_label(image_path: Seq<char>) -> Seq<char> {
    "annotation-"@ + replaced(
        match path_file_name(image_path) {
            Some(n) => n,
            None => "window"@,
        },
        "."@,
        "-"@,
    )
}

/// The label of the window that annotates the image at `image_path`.
pub fn annotation_window_label(image_path: &str) -> (r: String)
    ensures
        r@ == window_label(image_path@),
{
    proof {
        reveal_strlit(".");
    }
    let name = match file_name_of(image_path) {
        Some(n) => n,
        None => String::from_str("window"),
    };
    let mut label = String::from_str("annotation-");
    label.append(replace_str(name.as_str(), ".", "-").as_str());
    label
}

/// The address the annotation editor loads: the image's path, and the
/// capture's id when there is one, both URL-encoded.
pub open spec fn annotation_address(image_path: Seq<char>, capture_id: Option<Seq<char>>) -> Seq<char> {
    "/annotate?image="@ + percent_encoded(encode_utf8(image_path)) + match capture_id {
        Some(c) => "&captureId="@ + percent_encoded(encode_utf8(c)),
        None => Seq::empty(),
    }
}

/// The address of the editor for the image at `image_path`.
pub fn annotation_url(image_path: &str, capture_id: Option<&str>) -> (r: String)
    ensures
        r@ == annotation_address(
            image_path@,
            match capture_id {
                Some(c) => Some(c@),
                None => None,
            },
        ),
{
    let mut url = String::from_str("/annotate?image=");
    url.append(url_encode(image_path).as_str());
    if let Some(c) = capture_id {
        url.append("&captureId=");
        url.append(url_encode(c).as_str());
    }
    url
}

/// The index of the first comma of `s`, if any.
pub open spec fn first_comma(s: Seq<char>) -> Option<int> {
    if exists|i: int| 0 <= i < s.len() && s[i] == ',' {
        Some(choose|i: int| 0 <= i < s.len() && s[i] == ',' && forall|j: int| 0 <= j < i ==> s[j] != ',')
    } else {
        None
    }
}

/// The message for a data URL without a comma.
pub const MISSING_COMMA: &'static str = "Invalid data URL: missing comma separator";

/// What an edited image's data URL decodes to: the base64 text after its
/// first comma, decoded.
pub open spec fn decoded_image(data_url: Seq<char>, r: Result<Vec<u8>, String>) -> bool {
    match first_comma(data_url) {
        None => r matches Err(m) && m@ == MISSING_COMMA@,
        Some(k) => match base64_decoding(data_url.subrange(k + 1, data_url.len() as int)) {
            Ok(bytes) => r matches Ok(v) && v@ == bytes,
            Err(e) => r matches Err(m) && m@ == "Failed to decode base64 image data: "@ + e,
        },
    }
}

/// The image bytes in a data URL such as `data:image/png;base64,<data>`.
pub fn decode_data_url(data_url: &str) -> (r: Result<Vec<u8>, String>)
    ensures
        decoded_image(data_url@, r),
{
    let n = data_url.unicode_len();
    let mut i: usize = 0;
    while i < n
        invariant
            n == data_url@.len(),
            i <= n,
            forall|j: int| 0 <= j < i ==> data_url@[j] != ',',
        decreases n - i,
    {
        if data_url.get_char(i) == ',' {
            let ghost k = choose|k: int|
                0 <= k < data_url@.len() && data_url@[k] == ',' && forall|j: int| 0 <= j < k ==> data_url@[j] != ',';
            assert(k == i) by {
                if k < i {
                } else if k > i {
                    assert(data_url@[i as int] == ',');
                }
            }
            let payload = data_url.substring_char(i + 1, n);
            return match base64_decode(payload) {
                Ok(v) => Ok(v),
                Err(e) => {
                    let mut m = String::from_str("Failed to decode base64 image data: ");
                    m.append(e.as_str());
                    Err(m)
                },
            };
        }
        i = i + 1;
    }
    Err(String::from_str(MISSING_COMMA))
}

/// Where an annotated image is saved: over the original in `overwrite`
/// mode; otherwise beside it, as `<stem>_annotated.<extension>`.
pub open spec fn annotated_path(image_path: Seq<char>, save_mode: Seq<char>) -> Seq<char> {
    if save_mode == "overwrite"@ {
        image_path
    } else {
        path_joined(
            match path_parent(image_path) {
                Some(p) => p,
                None => "."@,
            },
            match path_file_stem(image_path) {
                Some(s) => s,
                None => "screenshot"@,
            } + "_annotated."@ + match path_extension(image_path) {
                Some(e) => e,
                None => "png"@,
            },
        )
    }
}

/// The path an annotated version of the image at `image_path` is saved to.
pub fn annotated_save_path(image_path: &str, save_mode: &str) -> (r: String)
    ensures
        r@ == annotated_path(image_path@, save_mode@),
{
    if str_eq(save_mode, "overwrite") {
        return String::from_str(image_path);
    }
    let stem = match file_stem_of(image_path) {
        Some(s) => s,
        None => String::from_str("screenshot"),
    };
    let ext = match extension_of(image_path) {
        Some(e) => e,
        None => String::from_str("png"),
    };
    let parent = match parent_of(image_path) {
        Some(p) => p,
        None => String::from_str("."),
    };
    let mut name = stem;
    name.append("_annotated.");
    name.append(ext.as_str());
    join_path(parent.as_str(), name.as_str())
}

} // verus!

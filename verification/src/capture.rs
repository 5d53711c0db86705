//! Captured files: which files count as media, how a capture is renamed
//! when it is filed, the numbering of captures in a folder, and the
//! detection of new clipboard images.
use std::hash::{Hash, Hasher};
use vstd::prelude::*;

use crate::annotation::{join_path, path_joined};
use crate::models::CaptureType;
use crate::text::{all_ascii, ascii_lower, chars_of, has_prefix, lowercase, pad3, push_pad3, str_eq, str_starts_with, to_lowercase};

verus! {

broadcast use vstd::seq_lib::group_to_multiset_ensures;

/// What `Path::extension` gives for the path written `path`: the part of
/// the file name after its last dot, if the name has one that does not
/// start it.
pub uninterp spec fn path_extension(path: Seq<char>) -> Option<Seq<char>>;

/// `Path::extension` of the path written `path`, as a string (`None` also
/// when the extension is not valid Unicode). The contract only names it.
#[verifier::external_body]
pub(crate) fn extension_of(path: &str) -> (r: Option<String>)
    ensures
        r matches Some(e) ==> path_extension(path@) == Some(e@),
        r is None ==> path_extension(path@) is None,
{
    std::path::Path::new(path).extension().and_then(|e| e.to_str()).map(|e| e.to_string())
}

/// Extensions of the image files that are picked up.
pub open spec fn is_image_extension(e: Seq<char>) -> bool {
    e == "png"@ || e == "jpg"@ || e == "jpeg"@ || e == "gif"@ || e == "bmp"@ || e == "webp"@ || e
        == "tiff"@ || e == "tif"@
}

/// Extensions of the video files that are picked up.
pub open spec fn is_video_extension(e: Seq<char>) -> bool {
    e == "mp4"@ || e == "webm"@ || e == "mkv"@ || e == "avi"@ || e == "mov"@
}

/// The lowercased extension of `path`, or the lowercased `default` when it
/// has none.
pub open spec fn lower_extension_or(path: Seq<char>, default: Seq<char>) -> Seq<char> {
    match path_extension(path) {
        Some(e) => lowercase(e),
        None => lowercase(default),
    }
}

/// The lowercased extension of `path`, or `default` lowercased.
fn lower_extension(path: &str, default: &str) -> (r: String)
    ensures
        r@ == lower_extension_or(path@, default@),
        path_extension(path@) is Some && all_ascii(path_extension(path@)->0) ==> r@ == path_extension(
            path@,
        )->0.map_values(|c: char| ascii_lower(c)),
{
    match extension_of(path) {
        Some(e) => to_lowercase(e.as_str()),
        None => to_lowercase(default),
    }
}

/// Whether a lowercased extension is one of a picked-up image or video.
pub fn is_media_extension(ext: &str) -> (r: bool)
    ensures
        r == (is_image_extension(ext@) || is_video_extension(ext@)),
{
    str_eq(ext, "png") || str_eq(ext, "jpg") || str_eq(ext, "jpeg") || str_eq(ext, "gif") || str_eq(
        ext,
        "bmp",
    ) || str_eq(ext, "webp") || str_eq(ext, "tiff") || str_eq(ext, "tif") || str_eq(ext, "mp4")
        || str_eq(ext, "webm") || str_eq(ext, "mkv") || str_eq(ext, "avi") || str_eq(ext, "mov")
}

/// The extensions of the files that are picked up: the images png, jpg,
/// jpeg, gif, bmp, webp, tiff and tif, and the videos mp4, webm, mkv, avi
/// and mov.
pub open spec fn media_extensions() -> Set<Seq<char>> {
    set!["png"@, "jpg"@, "jpeg"@, "gif"@, "bmp"@, "webp"@, "tiff"@, "tif"@, "mp4"@, "webm"@, "mkv"@, "avi"@, "mov"@]
}

/// The image extensions are exactly png, jpg, jpeg, gif, bmp, webp, tiff
/// and tif, and together with the videos they make up `media_extensions`.
pub proof fn lemma_media_extensions(e: Seq<char>)
    ensures
        is_image_extension(e) <==> set!["png"@, "jpg"@, "jpeg"@, "gif"@, "bmp"@, "webp"@, "tiff"@, "tif"@].contains(e),
        is_video_extension(e) <==> set!["mp4"@, "webm"@, "mkv"@, "avi"@, "mov"@].contains(e),
        (is_image_extension(e) || is_video_extension(e)) <==> media_extensions().contains(e),
{
}

/// Whether the file at `path` is an image or video worth filing, judged by
/// its extension in any case: for an ASCII extension, exactly when its
/// lowercase form is one of `media_extensions`.
pub fn is_media_file(path: &str) -> (r: bool)
    ensures
        r == (is_image_extension(lower_extension_or(path@, ""@)) || is_video_extension(
            lower_extension_or(path@, ""@),
        )),
        path_extension(path@) is Some && all_ascii(path_extension(path@)->0) ==> (r
            <==> media_extensions().contains(path_extension(path@)->0.map_values(|c: char| ascii_lower(c)))),
{
    let ext = lower_extension(path, "");
    proof {
        lemma_media_extensions(ext@);
    }
    is_media_extension(ext.as_str())
}

/// Extensions of captures that are filed as recordings.
pub open spec fn is_recording_extension(e: Seq<char>) -> bool {
    e == "mp4"@ || e == "webm"@ || e == "mkv"@
}

/// The name a capture with (lowercased) extension `ext` gets as capture
/// number `n`: `recording-NNN.ext` for videos, `capture-NNN.ext` otherwise.
pub open spec fn capture_name(ext: Seq<char>, n: nat) -> Seq<char> {
    if is_recording_extension(ext) {
        "recording-"@ + pad3(n) + "."@ + ext
    } else {
        "capture-"@ + pad3(n) + "."@ + ext
    }
}

/// The kind of a capture with (lowercased) extension `ext`.
pub open spec fn capture_kind(ext: Seq<char>) -> CaptureType {
    if is_recording_extension(ext) {
        CaptureType::Video
    } else {
        CaptureType::Screenshot
    }
}

/// The name and kind of capture number `n` with lowercased extension `ext`.
pub fn capture_filename(ext: &str, capture_number: u32) -> (r: (String, CaptureType))
    ensures
        r.0@ == capture_name(ext@, capture_number as nat),
        r.1 == capture_kind(ext@),
{
    let recording = str_eq(ext, "mp4") || str_eq(ext, "webm") || str_eq(ext, "mkv");
    let mut name = if recording {
        String::from_str("recording-")
    } else {
        String::from_str("capture-")
    };
    push_pad3(&mut name, capture_number as u64);
    name.append(".");
    name.append(ext);
    let kind = if recording {
        CaptureType::Video
    } else {
        CaptureType::Screenshot
    };
    (name, kind)
}

/// The name and kind of the capture number `capture_number` filed from the
/// file at `source_path`; a file without extension is taken as PNG.
pub fn make_capture_filename(source_path: &str, capture_number: u32) -> (r: (String, CaptureType))
    ensures
        r.0@ == capture_name(lower_extension_or(source_path@, "png"@), capture_number as nat),
        r.1 == capture_kind(lower_extension_or(source_path@, "png"@)),
{
    let ext = lower_extension(source_path, "png");
    capture_filename(ext.as_str(), capture_number)
}

/// True for the name of a filed capture.
pub open spec fn is_capture_name(name: Seq<char>) -> bool {
    has_prefix(name, "capture-"@) || has_prefix(name, "recording-"@)
}

/// The number of filed captures among `names`.
pub open spec fn count_captures(names: Seq<String>) -> nat
    decreases names.len(),
{
    if names.len() == 0 {
        0
    } else {
        count_captures(names.drop_last()) + if is_capture_name(names.last()@) {
            1nat
        } else {
            0nat
        }
    }
}

proof fn lemma_count_captures_bound(names: Seq<String>)
    ensures
        count_captures(names) <= names.len(),
    decreases names.len(),
{
    if names.len() > 0 {
        lemma_count_captures_bound(names.drop_last());
    }
}

/// The number the next capture in a folder gets: one more than the number
/// of filed captures among the folder's entry names.
pub fn next_capture_number(names: &[String]) -> (r: u32)
    requires
        names@.len() < u32::MAX,
    ensures
        r == count_captures(names@) + 1,
{
    let mut count: u32 = 0;
    let mut i: usize = 0;
    while i < names.len()
        invariant
            i <= names@.len(),
            names@.len() < u32::MAX,
            count == count_captures(names@.subrange(0, i as int)),
        decreases names@.len() - i,
    {
        proof {
            assert(names@.subrange(0, i + 1).drop_last() =~= names@.subrange(0, i as int));
            lemma_count_captures_bound(names@.subrange(0, i + 1));
        }
        let name = names[i].as_str();
        if str_starts_with(name, "capture-") || str_starts_with(name, "recording-") {
            count = count + 1;
        }
        i = i + 1;
    }
    assert(names@.subrange(0, names@.len() as int) =~= names@);
    proof {
        lemma_count_captures_bound(names@);
    }
    count + 1
}

/// Filing a capture adds one to the count: the name a capture is filed
/// under counts as a capture, so the next capture gets the next number.
pub proof fn lemma_filed_capture_counts(names: Seq<String>, name: String, ext: Seq<char>, n: nat)
    requires
        name@ == capture_name(ext, n),
    ensures
        count_captures(names.push(name)) == count_captures(names) + 1,
{
    reveal_strlit("recording-");
    reveal_strlit("capture-");
    assert(names.push(name).drop_last() =~= names);
    if is_recording_extension(ext) {
        assert(name@.subrange(0, 10) =~= "recording-"@);
    } else {
        assert(name@.subrange(0, 8) =~= "capture-"@);
    }
}

/// What the standard library's default hasher gives for an image's pixel
/// bytes followed by its width and height.
pub uninterp spec fn image_hash(rgba: Seq<u8>, width: u32, height: u32) -> u64;

/// Hashes an image's RGBA bytes and its dimensions with the standard
/// library's `DefaultHasher` (fixed keys, so equal images hash equally
/// within one build). The contract only names the result.
#[verifier::external_body]
fn default_hash_of_image(rgba: &[u8], width: u32, height: u32) -> (r: u64)
    ensures
        r == image_hash(rgba@, width, height),
{
    let mut hasher = std::collections::hash_map::DefaultHasher::new();
    rgba.hash(&mut hasher);
    width.hash(&mut hasher);
    height.hash(&mut hasher);
    hasher.finish()
}

/// The hash by which clipboard images are told apart: that of the pixel
/// bytes followed by the width and the height.
pub fn hash_image(rgba: &[u8], width: u32, height: u32) -> (r: u64)
    ensures
        r == image_hash(rgba@, width, height),
{
    default_hash_of_image(rgba, width, height)
}

/// Notices new images on the clipboard: it remembers the hash of the last
/// image seen, so that an image is reported once however long it stays.
pub struct ClipboardWatcher {
    last_hash: Option<u64>,
}

/// True for an image that can be saved: some pixels and no zero dimension.
pub open spec fn is_saveable(rgba: Seq<u8>, width: u32, height: u32) -> bool {
    rgba.len() > 0 && width > 0 && height > 0
}

/// What observing the clipboard does: an image that can be saved is new
/// unless it hashes like the last one seen, and becomes the last one seen;
/// anything else is not new and clears the memory of the last image.
pub open spec fn observation(last: Option<u64>, image: Option<(Seq<u8>, u32, u32)>) -> (bool, Option<u64>) {
    match image {
        Some((rgba, w, h)) => if is_saveable(rgba, w, h) {
            (last != Some(image_hash(rgba, w, h)), Some(image_hash(rgba, w, h)))
        } else {
            (false, None)
        },
        None => (false, None),
    }
}

/// An image is reported once: observing the same image again right after
/// reports nothing new.
pub proof fn lemma_same_image_reported_once(last: Option<u64>, rgba: Seq<u8>, w: u32, h: u32)
    ensures
        !observation(observation(last, Some((rgba, w, h))).1, Some((rgba, w, h))).0,
{
}

/// After the clipboard held no image, an image is new again.
pub proof fn lemma_image_new_after_clear(last: Option<u64>, rgba: Seq<u8>, w: u32, h: u32)
    requires
        is_saveable(rgba, w, h),
    ensures
        observation(observation(last, None).1, Some((rgba, w, h))).0,
{
}

impl ClipboardWatcher {
    /// The hash of the last image seen, if the clipboard held one.
    pub closed spec fn last_seen(&self) -> Option<u64> {
        self.last_hash
    }

    /// A watcher that ignores the image already on the clipboard, whose
    /// hash is `current` (none when the clipboard holds no image).
    pub fn new(current: Option<u64>) -> (r: Self)
        ensures
            r.last_seen() == current,
    {
        ClipboardWatcher { last_hash: current }
    }

    /// Looks at the clipboard's content (`None` when it holds no image) and
    /// tells whether it is a new image to save.
    pub fn observe(&mut self, image: Option<(&[u8], u32, u32)>) -> (r: bool)
        ensures
            (r, final(self).last_seen()) == observation(
                old(self).last_seen(),
                match image {
                    Some((rgba, w, h)) => Some((rgba@, w, h)),
                    None => None,
                },
            ),
    {
        match image {
            None => {
                self.last_hash = None;
                false
            },
            Some((rgba, width, height)) => {
                if rgba.len() == 0 || width == 0 || height == 0 {
                    self.last_hash = None;
                    return false;
                }
                let h = hash_image(rgba, width, height);
                let new_image = match self.last_hash {
                    Some(prev) => prev != h,
                    None => true,
                };
                self.last_hash = Some(h);
                new_image
            },
        }
    }
}

/// How many equal size readings in a row, after the first, show that a
/// file is no longer being written.
pub const STABLE_READINGS: u32 = 3;

/// Follows the size of a file being written, one reading at a time, to
/// tell when it has stopped changing.
pub struct WriteSettle {
    last_size: u64,
    stable_count: u32,
}

/// What one size reading does to the tracker (`last` size, `count` of
/// stable readings): a nonzero size equal to the last one counts as stable
/// and settles the file at the third such reading; another size starts
/// over from it; a failed reading starts the count over.
pub open spec fn settle_step(last: u64, count: u32, reading: Option<u64>) -> (u64, int, bool) {
    match reading {
        Some(size) => if size > 0 && size == last {
            (last, count + 1, count + 1 >= STABLE_READINGS)
        } else {
            (size, 0, false)
        },
        None => (last, 0, false),
    }
}

impl WriteSettle {
    /// The last size read.
    pub closed spec fn last_size(&self) -> u64 {
        self.last_size
    }

    /// The number of stable readings in a row so far.
    pub closed spec fn stable_count(&self) -> u32 {
        self.stable_count
    }

    /// A tracker that has read no size yet.
    pub fn new() -> (r: Self)
        ensures
            r.last_size() == 0,
            r.stable_count() == 0,
    {
        WriteSettle { last_size: 0, stable_count: 0 }
    }

    /// Takes one size reading (`None` when the file could not be read) and
    /// tells whether the file has settled.
    pub fn observe(&mut self, reading: Option<u64>) -> (settled: bool)
        requires
            old(self).stable_count() < STABLE_READINGS,
        ensures
            settle_step(old(self).last_size(), old(self).stable_count(), reading) == (
                final(self).last_size(),
                final(self).stable_count() as int,
                settled,
            ),
            !settled ==> final(self).stable_count() < STABLE_READINGS,
    {
        match reading {
            Some(size) => {
                if size > 0 && size == self.last_size {
                    self.stable_count = self.stable_count + 1;
                    self.stable_count >= STABLE_READINGS
                } else {
                    self.stable_count = 0;
                    self.last_size = size;
                    false
                }
            },
            None => {
                self.stable_count = 0;
                false
            },
        }
    }
}

/// A file is settled exactly when the same nonzero size has been read four
/// times in a row, starting from a fresh tracker.
pub proof fn lemma_settles_after_repeated_size(size: u64)
    requires
        size > 0,
    ensures
        !settle_step(0, 0, Some(size)).2,
        !settle_step(size, 0, Some(size)).2,
        !settle_step(size, 1, Some(size)).2,
        settle_step(size, 2, Some(size)).2,
        settle_step(0, 0, Some(size)).0 == size && settle_step(0, 0, Some(size)).1 == 0,
{
}

/// Where a file detected during a session goes.
#[derive(Debug, PartialEq, Eq)]
pub enum CaptureRoute {
    /// Into the folder of the bug being captured.
    Bug { session_id: String, bug_id: String },
    /// Into the session's `_unsorted/` folder.
    Unsorted { session_id: String },
    /// Nowhere: no session is active.
    Ignore,
}

/// Routes a detected file: to the active bug when a bug is being captured
/// in an active session, to `_unsorted/` when a session is active without
/// one, and nowhere without an active session.
pub fn capture_route(active_session: Option<String>, active_bug: Option<String>) -> (r: CaptureRoute)
    ensures
        match (active_session, active_bug) {
            (Some(s), Some(b)) => r == CaptureRoute::Bug { session_id: s, bug_id: b },
            (Some(s), None) => r == CaptureRoute::Unsorted { session_id: s },
            (None, _) => r == CaptureRoute::Ignore,
        },
{
    match active_session {
        Some(session_id) => match active_bug {
            Some(bug_id) => CaptureRoute::Bug { session_id, bug_id },
            None => CaptureRoute::Unsorted { session_id },
        },
        None => CaptureRoute::Ignore,
    }
}

/// The folder of a session that takes captures made outside a bug.
pub const UNSORTED_DIR: &'static str = "_unsorted";

/// The folder a new capture is filed in: the folder on record for the bug
/// being captured, when there is one, else the session's `_unsorted`
/// folder.
pub fn capture_destination(bug_folder: Option<String>, session_folder: &str) -> (r: String)
    ensures
        match bug_folder {
            Some(f) => r == f,
            None => r@ == path_joined(session_folder@, UNSORTED_DIR@),
        },
{
    match bug_folder {
        Some(f) => f,
        None => join_path(session_folder, UNSORTED_DIR),
    }
}

/// True when a detected file is filed: an image or video by its extension
/// that is a regular file with some content (`metadata` holds its length
/// and whether it is a regular file; none when it cannot be read).
pub open spec fn is_filed(path: Seq<char>, metadata: Option<(u64, bool)>) -> bool {
    &&& is_image_extension(lower_extension_or(path, ""@)) || is_video_extension(lower_extension_or(path, ""@))
    &&& metadata matches Some((len, regular)) && regular && len > 0
}

/// The size recorded for a detected file at `path`, when it is filed.
pub fn filed_capture_size(path: &str, metadata: Option<(u64, bool)>) -> (r: Option<i64>)
    ensures
        is_filed(path@, metadata) ==> r == Some((metadata->0).0 as i64),
        !is_filed(path@, metadata) ==> r is None,
{
    if !is_media_file(path) {
        return None;
    }
    match metadata {
        Some((len, regular)) => {
            if regular && len > 0 {
                Some(len as i64)
            } else {
                None
            }
        },
        None => None,
    }
}

/// The order of file names: character by character by code point, a name
/// before every longer name it starts (the order of `String`, since UTF-8
/// keeps the order of code points).
pub open spec fn name_le(a: Seq<char>, b: Seq<char>) -> bool
    decreases a.len(),
{
    if a.len() == 0 {
        true
    } else if b.len() == 0 {
        false
    } else if a[0] != b[0] {
        (a[0] as int) < (b[0] as int)
    } else {
        name_le(a.drop_first(), b.drop_first())
    }
}

/// Every name is ordered before itself.
proof fn lemma_name_le_reflexive(a: Seq<char>)
    ensures
        name_le(a, a),
    decreases a.len(),
{
    if a.len() > 0 {
        lemma_name_le_reflexive(a.drop_first());
    }
}

/// Any two names are ordered one way or the other.
proof fn lemma_name_le_total(a: Seq<char>, b: Seq<char>)
    ensures
        name_le(a, b) || name_le(b, a),
    decreases a.len(),
{
    if a.len() > 0 && b.len() > 0 && a[0] == b[0] {
        lemma_name_le_total(a.drop_first(), b.drop_first());
    }
}

/// The order of names is transitive.
proof fn lemma_name_le_transitive(a: Seq<char>, b: Seq<char>, c: Seq<char>)
    requires
        name_le(a, b),
        name_le(b, c),
    ensures
        name_le(a, c),
    decreases a.len(),
{
    if a.len() > 0 && b.len() > 0 && c.len() > 0 && a[0] == b[0] && b[0] == c[0] {
        lemma_name_le_transitive(a.drop_first(), b.drop_first(), c.drop_first());
    }
}

/// Compares two names in the order of `name_le`.
fn names_le(a: &String, b: &String) -> (r: bool)
    ensures
        r == name_le(a@, b@),
{
    let x = chars_of(a.as_str());
    let y = chars_of(b.as_str());
    let mut i: usize = 0;
    assert(a@.skip(0) =~= a@);
    assert(b@.skip(0) =~= b@);
    while i < x.len() && i < y.len()
        invariant
            x@ == a@,
            y@ == b@,
            i <= x@.len(),
            i <= y@.len(),
            forall|k: int| 0 <= k < i ==> x@[k] == y@[k],
            name_le(a@, b@) == name_le(a@.skip(i as int), b@.skip(i as int)),
        decreases x@.len() - i,
    {
        if x[i] != y[i] {
            assert(a@.skip(i as int)[0] == x@[i as int]);
            assert(b@.skip(i as int)[0] == y@[i as int]);
            return x[i] < y[i];
        }
        assert(a@.skip(i as int).drop_first() =~= a@.skip(i + 1));
        assert(b@.skip(i as int).drop_first() =~= b@.skip(i + 1));
        i = i + 1;
    }
    i == x.len()
}

/// True when the names are in the order of `name_le`.
pub open spec fn names_sorted(s: Seq<String>) -> bool {
    forall|i: int, j: int| 0 <= i < j < s.len() ==> name_le((#[trigger] s[i])@, (#[trigger] s[j])@)
}

/// True for the names of files that are listed: those not starting with a
/// dot (hidden files such as `.bug-notes.txt`).
pub open spec fn is_listed_name(name: String) -> bool {
    !has_prefix(name@, "."@)
}

/// The listed names among `names`, in order.
pub open spec fn listed_names(names: Seq<String>) -> Seq<String>
    decreases names.len(),
{
    if names.len() == 0 {
        Seq::empty()
    } else if is_listed_name(names.last()) {
        listed_names(names.drop_last()).push(names.last())
    } else {
        listed_names(names.drop_last())
    }
}

/// The names of the files in a bug folder as listed in `.session.json`:
/// hidden files left out, the others in the order of `name_le`.
pub fn listed_capture_names(names: Vec<String>) -> (r: Vec<String>)
    ensures
        names_sorted(r@),
        r@.to_multiset() == listed_names(names@).to_multiset(),
{
    let mut kept: Vec<String> = Vec::new();
    let mut i: usize = 0;
    while i < names.len()
        invariant
            i <= names@.len(),
            kept@ == listed_names(names@.take(i as int)),
        decreases names@.len() - i,
    {
        assert(names@.take(i + 1).drop_last() =~= names@.take(i as int));
        assert(names@.take(i + 1).last() == names@[i as int]);
        if !str_starts_with(names[i].as_str(), ".") {
            kept.push(names[i].clone());
        }
        i = i + 1;
    }
    assert(names@.take(names@.len() as int) =~= names@);
    let mut remaining = kept;
    let ghost all = remaining@;
    let mut sorted: Vec<String> = Vec::new();
    while remaining.len() > 0
        invariant
            names_sorted(sorted@),
            sorted@.to_multiset().add(remaining@.to_multiset()) == all.to_multiset(),
            forall|i: int, j: int|
                0 <= i < sorted@.len() && 0 <= j < remaining@.len() ==> name_le(
                    (#[trigger] sorted@[i])@,
                    (#[trigger] remaining@[j])@,
                ),
        decreases remaining@.len(),
    {
        let mut k: usize = 0;
        let mut j: usize = 1;
        proof {
            lemma_name_le_reflexive(remaining@[0]@);
        }
        while j < remaining.len()
            invariant
                0 < remaining@.len(),
                k < remaining@.len(),
                1 <= j <= remaining@.len(),
                forall|m: int| 0 <= m < j ==> name_le(remaining@[k as int]@, (#[trigger] remaining@[m])@),
            decreases remaining@.len() - j,
        {
            if !names_le(&remaining[k], &remaining[j]) {
                proof {
                    lemma_name_le_total(remaining@[k as int]@, remaining@[j as int]@);
                    lemma_name_le_reflexive(remaining@[j as int]@);
                    assert forall|m: int| 0 <= m < j implies name_le(remaining@[j as int]@, (#[trigger] remaining@[m])@) by {
                        lemma_name_le_transitive(remaining@[j as int]@, remaining@[k as int]@, remaining@[m]@);
                    }
                }
                k = j;
            }
            j = j + 1;
        }
        let ghost before = remaining@;
        let x = remaining.remove(k);
        assert(before.remove(k as int).to_multiset() == before.to_multiset().remove(x));
        sorted.push(x);
        assert(sorted@.to_multiset().add(remaining@.to_multiset()) =~= all.to_multiset());
        assert forall|i: int, m: int|
            0 <= i < sorted@.len() && 0 <= m < remaining@.len() implies name_le(
            (#[trigger] sorted@[i])@,
            (#[trigger] remaining@[m])@,
        ) by {
            let bm = if m < k { m } else { m + 1 };
            assert(remaining@[m] == before[bm]);
        }
    }
    assert(remaining@.to_multiset() =~= vstd::multiset::Multiset::empty());
    assert(sorted@.to_multiset() =~= all.to_multiset());
    sorted
}

} // verus!

//! PNG encoding of clipboard images and decoding of tray icons, with the
//! size checks and the RGB to RGBA expansion done in verified code.
use vstd::prelude::*;


verus! {

/// The eight bytes every PNG file starts with.
pub open spec fn png_signature() -> Seq<u8> {
    seq![137u8, 80u8, 78u8, 71u8, 13u8, 10u8, 26u8, 10u8]
}

/// The call of the png crate's encoder that refused an image.
#[derive(Debug, Clone, Copy, PartialEq, Eq, Structural)]
pub enum EncodeStep {
    /// `Encoder::write_header`.
    Header,
    /// `Writer::write_image_data`.
    Data,
}

/// The call of the png crate's decoder that could not read a file.
#[derive(Debug, Clone, Copy, PartialEq, Eq, Structural)]
pub enum DecodeStep {
    /// `Decoder::read_info`.
    Info,
    /// `Reader::next_frame`.
    Frame,
}

/// What the png crate gives for an 8-bit RGBA image with its default
/// compression and filter settings: the file's bytes, or the call that
/// refused the image and the message of its error.
pub uninterp spec fn png_encoded(rgba: Seq<u8>, width: u32, height: u32) -> Result<Seq<u8>, (EncodeStep, Seq<char>)>;

/// What the png crate's decoder reads from a file's bytes: the colour type
/// of the image (its PNG code and the crate's debug name for it), the bytes
/// of its first frame, its width and height; or the call that could not
/// read the file and the message of its error.
pub uninterp spec fn png_decoded(bytes: Seq<u8>) -> Result<(u8, Seq<char>, Seq<u8>, u32, u32), (DecodeStep, Seq<char>)>;

/// The number of bytes of an 8-bit RGBA image of the given size.
pub open spec fn rgba_len(width: u32, height: u32) -> int {
    width * height * 4
}

/// Writes an 8-bit RGBA image into a `Vec` with `png::Encoder`
/// (`write_header`, then `write_image_data`), and hands back the bytes or
/// the failing call with its error's message. The encoder refuses only a
/// zero dimension (in `write_header`) and pixel data of the wrong length
/// (in `write_image_data`), and writing into a `Vec` cannot fail; so an
/// image of the right size is written, starting with the PNG signature.
#[verifier::external_body]
fn png_write_rgba8(rgba: &[u8], width: u32, height: u32) -> (r: Result<Vec<u8>, (EncodeStep, String)>)
    ensures
        match r {
            Ok(bytes) => png_encoded(rgba@, width, height) == Ok::<Seq<u8>, (EncodeStep, Seq<char>)>(bytes@)
                && bytes@.len() >= 8 && bytes@.take(8) == png_signature(),
            Err((step, m)) => png_encoded(rgba@, width, height) == Err::<Seq<u8>, (EncodeStep, Seq<char>)>((step, m@)),
        },
        width > 0 && height > 0 && rgba@.len() == rgba_len(width, height) ==> r is Ok,
{
    let mut buf = Vec::new();
    {
        let mut encoder = png::Encoder::new(&mut buf, width, height);
        encoder.set_color(png::ColorType::Rgba);
        encoder.set_depth(png::BitDepth::Eight);
        let mut writer = encoder.write_header().map_err(|e| (EncodeStep::Header, e.to_string()))?;
        writer.write_image_data(rgba).map_err(|e| (EncodeStep::Data, e.to_string()))?;
    }
    Ok(buf)
}

/// Reads the header and the first frame of a PNG with `png::Decoder`
/// (`read_info`, `next_frame`), and hands back the colour type as its PNG
/// code and its debug name, the frame's bytes (cut to `buffer_size`), width
/// and height; or the failing call with its error's message.
#[verifier::external_body]
fn png_read_frame(bytes: &[u8]) -> (r: Result<(u8, String, Vec<u8>, u32, u32), (DecodeStep, String)>)
    ensures
        match r {
            Ok((code, name, data, w, h)) => png_decoded(bytes@) == Ok::<
                (u8, Seq<char>, Seq<u8>, u32, u32),
                (DecodeStep, Seq<char>),
            >((code, name@, data@, w, h)),
            Err((step, m)) => png_decoded(bytes@) == Err::<
                (u8, Seq<char>, Seq<u8>, u32, u32),
                (DecodeStep, Seq<char>),
            >((step, m@)),
        },
{
    let decoder = png::Decoder::new(std::io::Cursor::new(bytes));
    let mut reader = decoder.read_info().map_err(|e| (DecodeStep::Info, e.to_string()))?;
    let mut buf = vec![0u8; reader.output_buffer_size()];
    let info = reader.next_frame(&mut buf).map_err(|e| (DecodeStep::Frame, e.to_string()))?;
    buf.truncate(info.buffer_size());
    Ok((info.color_type as u8, format!("{:?}", info.color_type), buf, info.width, info.height))
}

/// The message of an image the png crate refused, naming the call.
pub open spec fn encode_error_text(step: EncodeStep, message: Seq<char>) -> Seq<char> {
    match step {
        EncodeStep::Header => "PNG header error: "@ + message,
        EncodeStep::Data => "PNG data error: "@ + message,
    }
}

/// Encodes raw RGBA pixel data as an 8-bit PNG with the png crate: its
/// bytes, or its error behind the name of the call that refused the image.
/// An image with non-zero dimensions and `width * height * 4` bytes is
/// always written.
pub fn encode_png(rgba: &[u8], width: u32, height: u32) -> (r: Result<Vec<u8>, String>)
    ensures
        match png_encoded(rgba@, width, height) {
            Ok(bytes) => r matches Ok(b) && b@ == bytes && b@.take(8) == png_signature(),
            Err((step, m)) => r matches Err(e) && e@ == encode_error_text(step, m),
        },
        width > 0 && height > 0 && rgba@.len() == rgba_len(width, height) ==> r is Ok,
{
    match png_write_rgba8(rgba, width, height) {
        Ok(bytes) => Ok(bytes),
        Err((EncodeStep::Header, m)) => {
            let mut e = String::from_str("PNG header error: ");
            e.append(m.as_str());
            Err(e)
        },
        Err((EncodeStep::Data, m)) => {
            let mut e = String::from_str("PNG data error: ");
            e.append(m.as_str());
            Err(e)
        },
    }
}

/// RGB pixel data widened to RGBA: the bytes taken three at a time (the
/// last group may be shorter), each group followed by an opaque alpha byte.
pub open spec fn rgb_expanded(rgb: Seq<u8>) -> Seq<u8>
    decreases rgb.len(),
{
    if rgb.len() == 0 {
        Seq::empty()
    } else if rgb.len() <= 3 {
        rgb.push(255u8)
    } else {
        rgb.take(3).push(255u8) + rgb_expanded(rgb.skip(3))
    }
}

/// `rgb_expanded` of a prefix whose length is a multiple of three, extended
/// by the next group.
proof fn lemma_rgb_expanded_append(a: Seq<u8>, b: Seq<u8>)
    requires
        a.len() % 3 == 0,
    ensures
        rgb_expanded(a + b) == rgb_expanded(a) + rgb_expanded(b),
    decreases a.len(),
{
    if a.len() == 0 {
        assert(a + b =~= b);
        assert(rgb_expanded(a) =~= Seq::<u8>::empty());
        assert(Seq::<u8>::empty() + rgb_expanded(b) =~= rgb_expanded(b));
    } else {
        let ab = a + b;
        assert(ab.take(3) =~= a.take(3));
        assert(ab.skip(3) =~= a.skip(3) + b);
        lemma_rgb_expanded_append(a.skip(3), b);
        if a.len() == 3 {
            assert(a.skip(3) =~= Seq::<u8>::empty());
            assert(rgb_expanded(a.skip(3)) =~= Seq::<u8>::empty());
            assert(a.take(3) =~= a);
            if b.len() == 0 {
                assert(ab =~= a);
                assert(rgb_expanded(b) =~= Seq::<u8>::empty());
                assert(rgb_expanded(a) + rgb_expanded(b) =~= rgb_expanded(a));
            } else {
                assert(a.skip(3) + b =~= b);
                assert(rgb_expanded(a) == a.push(255u8));
            }
        } else {
            assert(rgb_expanded(a) == a.take(3).push(255u8) + rgb_expanded(a.skip(3)));
        }
        assert((a.take(3).push(255u8) + rgb_expanded(a.skip(3))) + rgb_expanded(b)
            =~= a.take(3).push(255u8) + (rgb_expanded(a.skip(3)) + rgb_expanded(b)));
    }
}

/// Widens RGB pixel data to RGBA by appending an opaque alpha byte to each
/// group of three bytes.
pub fn rgb_to_rgba(rgb: &[u8]) -> (r: Vec<u8>)
    ensures
        r@ == rgb_expanded(rgb@),
{
    let mut out: Vec<u8> = Vec::new();
    let mut i: usize = 0;
    let n = rgb.len();
    while i < n
        invariant
            n == rgb@.len(),
            i <= n,
            i % 3 == 0 || i == n,
            out@ == rgb_expanded(rgb@.take(i as int)),
        decreases n - i,
    {
        let end: usize = if n - i < 3 { n } else { i + 3 };
        let ghost group = rgb@.subrange(i as int, end as int);
        let mut j: usize = i;
        while j < end
            invariant
                i <= j <= end <= n,
                n == rgb@.len(),
                out@ == rgb_expanded(rgb@.take(i as int)) + rgb@.subrange(i as int, j as int),
            decreases end - j,
        {
            out.push(rgb[j]);
            assert(rgb@.subrange(i as int, j + 1) =~= rgb@.subrange(i as int, j as int).push(rgb@[j as int]));
            j = j + 1;
        }
        out.push(255u8);
        proof {
            assert(rgb_expanded(group) == group.push(255u8));
            assert(rgb@.take(end as int) =~= rgb@.take(i as int) + group);
            lemma_rgb_expanded_append(rgb@.take(i as int), group);
            assert(out@ =~= rgb_expanded(rgb@.take(i as int)) + group.push(255u8));
        }
        i = end;
    }
    assert(rgb@.take(n as int) =~= rgb@);
    out
}

/// What decoding gives for a frame the decoder read: RGBA data as it is,
/// RGB data widened to RGBA, and an error naming any other colour type by
/// the decoder's name for it.
pub open spec fn frame_to_rgba(code: u8, name: Seq<char>, data: Seq<u8>, w: u32, h: u32) -> Result<
    (Seq<u8>, u32, u32),
    Seq<char>,
> {
    if code == 6 {
        Ok((data, w, h))
    } else if code == 2 {
        Ok((rgb_expanded(data), w, h))
    } else {
        Err("Unsupported PNG color type: "@ + name)
    }
}

/// Turns a decoded frame (colour type `code`, named `name`) into RGBA
/// pixels and its size, as `frame_to_rgba` says.
pub fn frame_into_rgba(code: u8, name: &str, data: Vec<u8>, w: u32, h: u32) -> (r: Result<(Vec<u8>, u32, u32), String>)
    ensures
        match (r, frame_to_rgba(code, name@, data@, w, h)) {
            (Ok((px, rw, rh)), Ok((spx, sw, sh))) => px@ == spx && rw == sw && rh == sh,
            (Err(e), Err(msg)) => e@ == msg,
            _ => false,
        },
{
    if code == 6 {
        Ok((data, w, h))
    } else if code == 2 {
        Ok((rgb_to_rgba(data.as_slice()), w, h))
    } else {
        let mut msg = "Unsupported PNG color type: ".to_string();
        msg.append(name);
        Err(msg)
    }
}

/// The message of a file the png crate could not read, naming the call.
pub open spec fn decode_error_text(step: DecodeStep, message: Seq<char>) -> Seq<char> {
    match step {
        DecodeStep::Info => "PNG decode error: "@ + message,
        DecodeStep::Frame => "PNG frame error: "@ + message,
    }
}

/// Decodes a PNG into RGBA pixel data, its width and its height. Bytes the
/// png crate cannot read give its error behind the name of the failing
/// call; an image that is neither RGBA nor RGB is refused.
pub fn decode_png_rgba(png_bytes: &[u8]) -> (r: Result<(Vec<u8>, u32, u32), String>)
    ensures
        match png_decoded(png_bytes@) {
            Err((step, m)) => r matches Err(e) && e@ == decode_error_text(step, m),
            Ok((code, name, data, w, h)) => match (r, frame_to_rgba(code, name, data, w, h)) {
                (Ok((px, rw, rh)), Ok((spx, sw, sh))) => px@ == spx && rw == sw && rh == sh,
                (Err(e), Err(msg)) => e@ == msg,
                _ => false,
            },
        },
{
    match png_read_frame(png_bytes) {
        Ok((code, name, data, w, h)) => frame_into_rgba(code, name.as_str(), data, w, h),
        Err((DecodeStep::Info, m)) => {
            let mut e = String::from_str("PNG decode error: ");
            e.append(m.as_str());
            Err(e)
        },
        Err((DecodeStep::Frame, m)) => {
            let mut e = String::from_str("PNG frame error: ");
            e.append(m.as_str());
            Err(e)
        },
    }
}

} // verus!

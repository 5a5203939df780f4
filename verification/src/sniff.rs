//! Media types read off the first bytes of an asset.

use vstd::prelude::*;
use vstd::slice::slice_subrange;
use vstd::utf8::*;
use crate::bytes::starts_with;
use crate::text::chars_of;
use crate::text::contains;
use crate::text::occurs;
use crate::text::occurs_at;
use crate::text::occurs_in;
use crate::text::text_of;
use crate::text::trimmed_start;

verus! {

/// How many bytes of an asset are looked at, at most.
pub const HEADER_LEN: usize = 512;

/// The bytes of an asset that are looked at.
pub open spec fn header(data: Seq<u8>) -> Seq<u8> {
    if data.len() <= HEADER_LEN {
        data
    } else {
        data.take(HEADER_LEN as int)
    }
}

/// Whether the character codes of `text` stand in `data`, one byte each, at
/// offset `at`.
pub open spec fn text_at(data: Seq<u8>, at: int, text: Seq<char>) -> bool {
    &&& at + text.len() <= data.len()
    &&& forall|i: int| 0 <= i < text.len() ==> data[at + i] as int == #[trigger] text[i] as int
}

/// The media type of a RIFF file, by the form type behind its length.
pub open spec fn riff_mime(data: Seq<u8>) -> Option<Seq<char>> {
    if !text_at(data, 0, "RIFF"@) {
        None
    } else if text_at(data, 8, "WEBP"@) {
        Some("image/webp"@)
    } else if text_at(data, 8, "WAVE"@) {
        Some("audio/wav"@)
    } else if text_at(data, 8, "AVI "@) {
        Some("video/avi"@)
    } else {
        None
    }
}

/// Whether `data` begins with an ISO base media file type box that reaches up
/// to its major brand.
pub open spec fn is_bmff(data: Seq<u8>) -> bool {
    data.len() >= 12 && text_at(data, 4, "ftyp"@)
}

/// The media type of an ISO base media file, by its major brand.
pub open spec fn bmff_mime(data: Seq<u8>) -> Option<Seq<char>> {
    if text_at(data, 8, "mp41"@)
        || text_at(data, 8, "mp42"@)
        || text_at(data, 8, "isom"@)
        || text_at(data, 8, "iso2"@)
        || text_at(data, 8, "iso3"@)
        || text_at(data, 8, "iso4"@)
        || text_at(data, 8, "iso5"@)
        || text_at(data, 8, "iso6"@)
        || text_at(data, 8, "avc1"@)
        || text_at(data, 8, "mp71"@)
    {
        Some("video/mp4"@)
    } else if text_at(data, 8, "m4a "@) {
        Some("audio/mp4"@)
    } else if text_at(data, 8, "m4v "@) {
        Some("video/x-m4v"@)
    } else if text_at(data, 8, "heic"@)
        || text_at(data, 8, "heix"@)
        || text_at(data, 8, "mif1"@)
        || text_at(data, 8, "msf1"@)
    {
        Some("image/heic"@)
    } else if text_at(data, 8, "hevc"@)
        || text_at(data, 8, "hevx"@)
    {
        Some("image/heif"@)
    } else if text_at(data, 8, "avif"@)
        || text_at(data, 8, "avis"@)
    {
        Some("image/avif"@)
    } else if text_at(data, 8, "qt  "@) {
        Some("video/quicktime"@)
    } else if text_at(data, 8, "3gp1"@)
        || text_at(data, 8, "3gp2"@)
        || text_at(data, 8, "3gp3"@)
        || text_at(data, 8, "3gp4"@)
        || text_at(data, 8, "3gp5"@)
        || text_at(data, 8, "3gp6"@)
        || text_at(data, 8, "3gr6"@)
        || text_at(data, 8, "3gs6"@)
        || text_at(data, 8, "3ge6"@)
    {
        Some("video/3gpp"@)
    } else if text_at(data, 8, "3g2a"@)
        || text_at(data, 8, "3g2b"@)
        || text_at(data, 8, "3g2c"@)
    {
        Some("video/3g2"@)
    } else {
        None
    }
}

/// Whether `data` begins with an MP3 frame: eleven set bits, or an ID3 tag.
pub open spec fn is_mp3(data: Seq<u8>) -> bool {
    ||| text_at(data, 0, "ID3"@)
    ||| data.len() >= 2 && data[0] == 0xff && data[1] >= 0xe0
}

/// Whether a text opens an SVG document: with the `<svg` element itself, or
/// with an XML declaration and the element somewhere behind it. White space
/// before either does not count.
pub open spec fn is_svg_text(text: Seq<char>) -> bool {
    let text = trimmed_start(text);
    ||| occurs_at(text, 0, "<svg"@)
    ||| occurs_at(text, 0, "<?xml"@) && occurs_in(text, "<svg"@)
}

/// Whether the bytes looked at are UTF-8 text that opens an SVG document.
pub open spec fn is_svg(data: Seq<u8>) -> bool {
    valid_utf8(header(data)) && is_svg_text(decode_utf8(header(data)))
}

/// The media type of `data`, by the first signature in this order that it has.
pub open spec fn detected_mime(data: Seq<u8>) -> Option<Seq<char>> {
    if data.len() < 2 {
        None
    } else if seq![0xffu8, 0xd8, 0xff].is_prefix_of(data) {
        Some("image/jpeg"@)
    } else if seq![0x89u8, 0x50, 0x4e, 0x47, 0x0d, 0x0a, 0x1a, 0x0a].is_prefix_of(data) {
        Some("image/png"@)
    } else if text_at(data, 0, "GIF87a"@)
        || text_at(data, 0, "GIF89a"@)
    {
        Some("image/gif"@)
    } else if seq![0x49u8, 0x49, 0x2a, 0x00].is_prefix_of(data)
        || seq![0x4du8, 0x4d, 0x00, 0x2a].is_prefix_of(data)
    {
        Some("image/tiff"@)
    } else if text_at(data, 0, "BM"@) {
        Some("image/bmp"@)
    } else if text_at(data, 0, "%PDF-"@) {
        Some("application/pdf"@)
    } else if riff_mime(data) is Some {
        riff_mime(data)
    } else if is_mp3(data) {
        Some("audio/mpeg"@)
    } else if is_bmff(data) {
        bmff_mime(data)
    } else if is_svg(data) {
        Some("image/svg+xml"@)
    } else if text_at(data, 4, "jumb"@) {
        Some("application/c2pa"@)
    } else {
        None
    }
}

/// Whether the character codes of `text` stand in `data`, one byte each, at
/// offset `at`.
fn has_text(data: &[u8], at: usize, text: &str) -> (found: bool)
    ensures
        found == text_at(data@, at as int, text@),
{
    let len: usize = text.unicode_len();
    if data.len() < at || data.len() - at < len {
        return false;
    }
    let mut i: usize = 0;
    while i < len
        invariant
            len == text@.len(),
            at + len <= data.len(),
            i <= len,
            forall|j: int| 0 <= j < i ==> data@[at + j] as int == #[trigger] text@[j] as int,
        decreases len - i,
    {
        if data[at + i] as u32 != text.get_char(i) as u32 {
            return false;
        }
        i += 1;
    }
    true
}

/// The media type of a RIFF file, by its form type.
fn riff_type(data: &[u8]) -> (mime: Option<&'static str>)
    ensures
        text_of(mime) == riff_mime(data@),
{
    if !has_text(data, 0, "RIFF") {
        None
    } else if has_text(data, 8, "WEBP") {
        Some("image/webp")
    } else if has_text(data, 8, "WAVE") {
        Some("audio/wav")
    } else if has_text(data, 8, "AVI ") {
        Some("video/avi")
    } else {
        None
    }
}

/// The media type of an ISO base media file, by its major brand.
fn bmff_type(data: &[u8]) -> (mime: Option<&'static str>)
    ensures
        text_of(mime) == bmff_mime(data@),
{
    if has_text(data, 8, "mp41")
        || has_text(data, 8, "mp42")
        || has_text(data, 8, "isom")
        || has_text(data, 8, "iso2")
        || has_text(data, 8, "iso3")
        || has_text(data, 8, "iso4")
        || has_text(data, 8, "iso5")
        || has_text(data, 8, "iso6")
        || has_text(data, 8, "avc1")
        || has_text(data, 8, "mp71")
    {
        Some("video/mp4")
    } else if has_text(data, 8, "m4a ") {
        Some("audio/mp4")
    } else if has_text(data, 8, "m4v ") {
        Some("video/x-m4v")
    } else if has_text(data, 8, "heic")
        || has_text(data, 8, "heix")
        || has_text(data, 8, "mif1")
        || has_text(data, 8, "msf1")
    {
        Some("image/heic")
    } else if has_text(data, 8, "hevc")
        || has_text(data, 8, "hevx")
    {
        Some("image/heif")
    } else if has_text(data, 8, "avif")
        || has_text(data, 8, "avis")
    {
        Some("image/avif")
    } else if has_text(data, 8, "qt  ") {
        Some("video/quicktime")
    } else if has_text(data, 8, "3gp1")
        || has_text(data, 8, "3gp2")
        || has_text(data, 8, "3gp3")
        || has_text(data, 8, "3gp4")
        || has_text(data, 8, "3gp5")
        || has_text(data, 8, "3gp6")
        || has_text(data, 8, "3gr6")
        || has_text(data, 8, "3gs6")
        || has_text(data, 8, "3ge6")
    {
        Some("video/3gpp")
    } else if has_text(data, 8, "3g2a")
        || has_text(data, 8, "3g2b")
        || has_text(data, 8, "3g2c")
    {
        Some("video/3g2")
    } else {
        None
    }
}

/// Whether the bytes looked at are UTF-8 text that opens an SVG document.
fn opens_svg(data: &[u8]) -> (found: bool)
    ensures
        found == is_svg(data@),
{
    let len: usize = if data.len() <= HEADER_LEN {
        data.len()
    } else {
        HEADER_LEN
    };
    let head: &[u8] = slice_subrange(data, 0, len);
    assert(head@ =~= header(data@));
    match core::str::from_utf8(head) {
        Ok(text) => {
            let text: Vec<char> = chars_of(text.trim_start());
            let svg: Vec<char> = chars_of("<svg");
            let xml: Vec<char> = chars_of("<?xml");
            occurs(&text, 0, &svg) || (occurs(&text, 0, &xml) && contains(&text, &svg))
        },
        Err(_) => false,
    }
}

/// Returns a MIME type given a stream of bytes.
pub fn get_mime_from_bytes(data: &[u8]) -> (mime: Option<&'static str>)
    ensures
        text_of(mime) == detected_mime(data@),
{
    if data.len() < 2 {
        return None;
    }
    if starts_with(data, &[0xff, 0xd8, 0xff]) {
        return Some("image/jpeg");
    }
    if starts_with(data, &[0x89, 0x50, 0x4e, 0x47, 0x0d, 0x0a, 0x1a, 0x0a]) {
        return Some("image/png");
    }
    if has_text(data, 0, "GIF87a") || has_text(data, 0, "GIF89a") {
        return Some("image/gif");
    }
    // Little endian, or big endian.
    if starts_with(data, &[0x49, 0x49, 0x2a, 0x00]) || starts_with(data, &[0x4d, 0x4d, 0x00, 0x2a]) {
        return Some("image/tiff");
    }
    if has_text(data, 0, "BM") {
        return Some("image/bmp");
    }
    if has_text(data, 0, "%PDF-") {
        return Some("application/pdf");
    }
    if let Some(mime) = riff_type(data) {
        return Some(mime);
    }
    let second: u8 = data[1];
    assert((second & 0xe0) == 0xe0 <==> second >= 0xe0) by (bit_vector);
    if has_text(data, 0, "ID3") || (data[0] == 0xff && (second & 0xe0) == 0xe0) {
        return Some("audio/mpeg");
    }
    if data.len() >= 12 && has_text(data, 4, "ftyp") {
        return bmff_type(data);
    }
    if opens_svg(data) {
        return Some("image/svg+xml");
    }
    if has_text(data, 4, "jumb") {
        return Some("application/c2pa");
    }
    None
}

} // verus!

//! Media types of assets: by file extension, by format name, and by content.

use vstd::prelude::*;
use crate::bytes::bytes_of;
use crate::sniff::detected_mime;
use crate::text::lowercase;
use crate::text::owned_text_of;
use crate::text::same_text;
use crate::text::text_of;

pub use crate::sniff::get_mime_from_bytes;

verus! {

/// The media type that stands for a file extension in lower case.
pub open spec fn mime_of_name(name: Seq<char>) -> Option<Seq<char>> {
    if name == "jpg"@ || name == "jpeg"@ {
        Some("image/jpeg"@)
    } else if name == "png"@ {
        Some("image/png"@)
    } else if name == "gif"@ {
        Some("image/gif"@)
    } else if name == "psd"@ {
        Some("image/vnd.adobe.photoshop"@)
    } else if name == "tiff"@ || name == "tif"@ {
        Some("image/tiff"@)
    } else if name == "svg"@ {
        Some("image/svg+xml"@)
    } else if name == "ico"@ {
        Some("image/x-icon"@)
    } else if name == "bmp"@ {
        Some("image/bmp"@)
    } else if name == "webp"@ {
        Some("image/webp"@)
    } else if name == "dng"@ {
        Some("image/x-adobe-dng"@)
    } else if name == "heic"@ {
        Some("image/heic"@)
    } else if name == "heif"@ {
        Some("image/heif"@)
    } else if name == "mp2"@ || name == "mpa"@ || name == "mpe"@ || name == "mpeg"@
        || name == "mpg"@ || name == "mpv2"@
    {
        Some("video/mpeg"@)
    } else if name == "mp4"@ {
        Some("video/mp4"@)
    } else if name == "avi"@ {
        Some("video/avi"@)
    } else if name == "avif"@ {
        Some("image/avif"@)
    } else if name == "mov"@ || name == "qt"@ {
        Some("video/quicktime"@)
    } else if name == "m4a"@ {
        Some("audio/mp4"@)
    } else if name == "mid"@ || name == "rmi"@ {
        Some("audio/mid"@)
    } else if name == "mp3"@ {
        Some("audio/mpeg"@)
    } else if name == "wav"@ {
        Some("audio/wav"@)
    } else if name == "aif"@ || name == "aifc"@ || name == "aiff"@ {
        Some("audio/aiff"@)
    } else if name == "ogg"@ {
        Some("audio/ogg"@)
    } else if name == "pdf"@ {
        Some("application/pdf"@)
    } else if name == "ai"@ {
        Some("application/postscript"@)
    } else if name == "arw"@ {
        Some("image/x-sony-arw"@)
    } else if name == "nef"@ {
        Some("image/x-nikon-nef"@)
    } else if name == "c2pa"@ || name == "application/x-c2pa-manifest-store"@
        || name == "application/c2pa"@
    {
        Some("application/c2pa"@)
    } else {
        None
    }
}

/// The file extension that stands for a format name in lower case: the usual
/// extension of the format, for its extensions and its media types alike.
pub open spec fn extension_of_name(name: Seq<char>) -> Option<Seq<char>> {
    if name == "jpg"@ || name == "jpeg"@ || name == "image/jpeg"@ {
        Some("jpg"@)
    } else if name == "png"@ || name == "image/png"@ {
        Some("png"@)
    } else if name == "gif"@ || name == "image/gif"@ {
        Some("gif"@)
    } else if name == "psd"@ || name == "image/vnd.adobe.photoshop"@ {
        Some("psd"@)
    } else if name == "tiff"@ || name == "tif"@ || name == "image/tiff"@ {
        Some("tiff"@)
    } else if name == "svg"@ || name == "image/svg+xml"@ {
        Some("svg"@)
    } else if name == "ico"@ || name == "image/x-icon"@ {
        Some("ico"@)
    } else if name == "bmp"@ || name == "image/bmp"@ {
        Some("bmp"@)
    } else if name == "webp"@ || name == "image/webp"@ {
        Some("webp"@)
    } else if name == "dng"@ || name == "image/dng"@ {
        Some("dng"@)
    } else if name == "heic"@ || name == "image/heic"@ {
        Some("heic"@)
    } else if name == "heif"@ || name == "image/heif"@ {
        Some("heif"@)
    } else if name == "mp2"@ || name == "mpa"@ || name == "mpe"@ || name == "mpeg"@
        || name == "mpg"@ || name == "mpv2"@ || name == "video/mpeg"@
    {
        Some("mp2"@)
    } else if name == "mp4"@ || name == "video/mp4"@ {
        Some("mp4"@)
    } else if name == "avif"@ || name == "image/avif"@ {
        Some("avif"@)
    } else if name == "avi"@ || name == "video/avi"@ {
        Some("avi"@)
    } else if name == "mov"@ || name == "qt"@ || name == "video/quicktime"@ {
        Some("mov"@)
    } else if name == "m4a"@ || name == "audio/mp4"@ {
        Some("m4a"@)
    } else if name == "mid"@ || name == "rmi"@ || name == "audio/mid"@ {
        Some("mid"@)
    } else if name == "mp3"@ || name == "audio/mpeg"@ {
        Some("mp3"@)
    } else if name == "wav"@ || name == "audio/wav"@ || name == "audio/wave"@
        || name == "audio.vnd.wave"@
    {
        Some("wav"@)
    } else if name == "aif"@ || name == "aifc"@ || name == "aiff"@ || name == "audio/aiff"@ {
        Some("aif"@)
    } else if name == "ogg"@ || name == "audio/ogg"@ {
        Some("ogg"@)
    } else if name == "pdf"@ || name == "application/pdf"@ {
        Some("pdf"@)
    } else if name == "ai"@ || name == "application/postscript"@ {
        Some("ai"@)
    } else if name == "arw"@ || name == "image/x-sony-arw"@ {
        Some("arw"@)
    } else if name == "nef"@ || name == "image/x-nikon-nef"@ {
        Some("nef"@)
    } else if name == "c2pa"@ || name == "application/x-c2pa-manifest-store"@
        || name == "application/c2pa"@
    {
        Some("c2pa"@)
    } else {
        None
    }
}

/// The media type for a file extension in any case.
pub open spec fn mime_for(extension: Seq<char>) -> Option<Seq<char>> {
    mime_of_name(lowercase(extension))
}

/// The file extension for a format in any case.
pub open spec fn extension_for(format: Seq<char>) -> Option<Seq<char>> {
    extension_of_name(lowercase(format))
}

/// The media type for a format: that of the extension it names, and otherwise
/// the format itself.
pub open spec fn normalized(format: Seq<char>) -> Seq<char> {
    match mime_for(format) {
        Some(mime) => mime,
        None => format,
    }
}

/// The media type for a file: by its extension, and where that is not known by
/// what could be read of its content.
pub open spec fn file_mime(extension: Option<Seq<char>>, content: Option<Seq<u8>>) -> Option<
    Seq<char>,
> {
    let by_extension = match extension {
        Some(extension) => mime_for(lowercase(extension)),
        None => None,
    };
    if by_extension is Some {
        by_extension
    } else {
        match content {
            Some(content) => detected_mime(content),
            None => None,
        }
    }
}

/// Converts a file extension to a MIME type
pub fn extension_to_mime(extension: &str) -> (mime: Option<&'static str>)
    ensures
        text_of(mime) == mime_for(extension@),
{
    let lower: String = extension.to_lowercase();
    let name: &str = lower.as_str();
    if same_text(name, "jpg") || same_text(name, "jpeg") {
        Some("image/jpeg")
    } else if same_text(name, "png") {
        Some("image/png")
    } else if same_text(name, "gif") {
        Some("image/gif")
    } else if same_text(name, "psd") {
        Some("image/vnd.adobe.photoshop")
    } else if same_text(name, "tiff") || same_text(name, "tif") {
        Some("image/tiff")
    } else if same_text(name, "svg") {
        Some("image/svg+xml")
    } else if same_text(name, "ico") {
        Some("image/x-icon")
    } else if same_text(name, "bmp") {
        Some("image/bmp")
    } else if same_text(name, "webp") {
        Some("image/webp")
    } else if same_text(name, "dng") {
        Some("image/x-adobe-dng")
    } else if same_text(name, "heic") {
        Some("image/heic")
    } else if same_text(name, "heif") {
        Some("image/heif")
    } else if same_text(name, "mp2") || same_text(name, "mpa") || same_text(name, "mpe")
        || same_text(name, "mpeg") || same_text(name, "mpg") || same_text(name, "mpv2")
    {
        Some("video/mpeg")
    } else if same_text(name, "mp4") {
        Some("video/mp4")
    } else if same_text(name, "avi") {
        Some("video/avi")
    } else if same_text(name, "avif") {
        Some("image/avif")
    } else if same_text(name, "mov") || same_text(name, "qt") {
        Some("video/quicktime")
    } else if same_text(name, "m4a") {
        Some("audio/mp4")
    } else if same_text(name, "mid") || same_text(name, "rmi") {
        Some("audio/mid")
    } else if same_text(name, "mp3") {
        Some("audio/mpeg")
    } else if same_text(name, "wav") {
        Some("audio/wav")
    } else if same_text(name, "aif") || same_text(name, "aifc") || same_text(name, "aiff") {
        Some("audio/aiff")
    } else if same_text(name, "ogg") {
        Some("audio/ogg")
    } else if same_text(name, "pdf") {
        Some("application/pdf")
    } else if same_text(name, "ai") {
        Some("application/postscript")
    } else if same_text(name, "arw") {
        Some("image/x-sony-arw")
    } else if same_text(name, "nef") {
        Some("image/x-nikon-nef")
    } else if same_text(name, "c2pa") || same_text(name, "application/x-c2pa-manifest-store")
        || same_text(name, "application/c2pa")
    {
        Some("application/c2pa")
    } else {
        None
    }
}

/// Convert a format to a MIME type
///
/// Formats can be passed in as extensions, e.g. "jpg" or "jpeg", or as MIME
/// types, e.g. "image/jpeg".
pub fn format_to_mime(format: &str) -> (mime: String)
    ensures
        mime@ == normalized(format@),
{
    match extension_to_mime(format) {
        Some(mime) => mime.to_string(),
        None => format.to_string(),
    }
}

/// Converts a format to a file extension
pub fn format_to_extension(format: &str) -> (extension: Option<&'static str>)
    ensures
        text_of(extension) == extension_for(format@),
{
    let lower: String = format.to_lowercase();
    let name: &str = lower.as_str();
    if same_text(name, "jpg") || same_text(name, "jpeg") || same_text(name, "image/jpeg") {
        Some("jpg")
    } else if same_text(name, "png") || same_text(name, "image/png") {
        Some("png")
    } else if same_text(name, "gif") || same_text(name, "image/gif") {
        Some("gif")
    } else if same_text(name, "psd") || same_text(name, "image/vnd.adobe.photoshop") {
        Some("psd")
    } else if same_text(name, "tiff") || same_text(name, "tif") || same_text(name, "image/tiff") {
        Some("tiff")
    } else if same_text(name, "svg") || same_text(name, "image/svg+xml") {
        Some("svg")
    } else if same_text(name, "ico") || same_text(name, "image/x-icon") {
        Some("ico")
    } else if same_text(name, "bmp") || same_text(name, "image/bmp") {
        Some("bmp")
    } else if same_text(name, "webp") || same_text(name, "image/webp") {
        Some("webp")
    } else if same_text(name, "dng") || same_text(name, "image/dng") {
        Some("dng")
    } else if same_text(name, "heic") || same_text(name, "image/heic") {
        Some("heic")
    } else if same_text(name, "heif") || same_text(name, "image/heif") {
        Some("heif")
    } else if same_text(name, "mp2") || same_text(name, "mpa") || same_text(name, "mpe")
        || same_text(name, "mpeg") || same_text(name, "mpg") || same_text(name, "mpv2")
        || same_text(name, "video/mpeg")
    {
        Some("mp2")
    } else if same_text(name, "mp4") || same_text(name, "video/mp4") {
        Some("mp4")
    } else if same_text(name, "avif") || same_text(name, "image/avif") {
        Some("avif")
    } else if same_text(name, "avi") || same_text(name, "video/avi") {
        Some("avi")
    } else if same_text(name, "mov") || same_text(name, "qt")
        || same_text(name, "video/quicktime")
    {
        Some("mov")
    } else if same_text(name, "m4a") || same_text(name, "audio/mp4") {
        Some("m4a")
    } else if same_text(name, "mid") || same_text(name, "rmi") || same_text(name, "audio/mid") {
        Some("mid")
    } else if same_text(name, "mp3") || same_text(name, "audio/mpeg") {
        Some("mp3")
    } else if same_text(name, "wav") || same_text(name, "audio/wav")
        || same_text(name, "audio/wave") || same_text(name, "audio.vnd.wave")
    {
        Some("wav")
    } else if same_text(name, "aif") || same_text(name, "aifc") || same_text(name, "aiff")
        || same_text(name, "audio/aiff")
    {
        Some("aif")
    } else if same_text(name, "ogg") || same_text(name, "audio/ogg") {
        Some("ogg")
    } else if same_text(name, "pdf") || same_text(name, "application/pdf") {
        Some("pdf")
    } else if same_text(name, "ai") || same_text(name, "application/postscript") {
        Some("ai")
    } else if same_text(name, "arw") || same_text(name, "image/x-sony-arw") {
        Some("arw")
    } else if same_text(name, "nef") || same_text(name, "image/x-nikon-nef") {
        Some("nef")
    } else if same_text(name, "c2pa") || same_text(name, "application/x-c2pa-manifest-store")
        || same_text(name, "application/c2pa")
    {
        Some("c2pa")
    } else {
        None
    }
}

/// Return a MIME type given a file, by the extension of its path and the first
/// bytes of its content.
///
/// The extension determines the MIME type. If it is not recognized, or there is
/// none, the format is detected from the content, as far as it could be read.
pub fn format_from_path(extension: Option<&str>, content: Option<&[u8]>) -> (mime: Option<String>)
    ensures
        owned_text_of(mime) == file_mime(text_of(extension), bytes_of(content)),
{
    if let Some(extension) = extension {
        let lower: String = extension.to_lowercase();
        if let Some(mime) = extension_to_mime(lower.as_str()) {
            return Some(mime.to_owned());
        }
    }
    match content {
        Some(content) => match get_mime_from_bytes(content) {
            Some(mime) => Some(mime.to_string()),
            None => None,
        },
        None => None,
    }
}

} // verus!

//! Laws of the media type tables and of content detection.

use vstd::prelude::*;
use vstd::utf8::*;
use crate::bytes::bytes_of;
use crate::mime::extension_for;
use crate::mime::extension_of_name;
use crate::mime::file_mime;
use crate::mime::mime_for;
use crate::mime::mime_of_name;
use crate::mime::normalized;
use crate::sniff::detected_mime;
use crate::sniff::header;
use crate::sniff::text_at;
use crate::sniff::HEADER_LEN;
use crate::text::ascii_lowercase;
use crate::text::lowercase;
use crate::text::owned_text_of;
use crate::text::text_of;
use crate::text::unicode_lowercase;

verus! {

/// Whether the first `n` characters of `s` are ASCII without capital letters.
spec fn plain_below(s: Seq<char>, n: nat) -> bool
    decreases n,
{
    n == 0 || (s[n - 1] <= '~' && !('A' <= s[n - 1] && s[n - 1] <= 'Z') && plain_below(
        s,
        (n - 1) as nat,
    ))
}

proof fn lemma_plain_below(s: Seq<char>, n: nat)
    requires
        plain_below(s, n),
        n <= s.len(),
    ensures
        forall|i: int| 0 <= i < n ==> s[i] <= '~' && !('A' <= #[trigger] s[i] && s[i] <= 'Z'),
    decreases n,
{
    if n > 0 {
        lemma_plain_below(s, (n - 1) as nat);
    }
}

/// Plain text is its own lower case.
proof fn lemma_plain_is_lowercase(s: Seq<char>)
    requires
        plain_below(s, s.len()),
    ensures
        lowercase(s) == s,
{
    lemma_plain_below(s, s.len());
    assert(ascii_lowercase(s) =~= s);
}

/// Whether the tables lead from `extension` to `mime` and back, and both names
/// are their own lower case.
spec fn paired(extension: Seq<char>, mime: Seq<char>) -> bool {
    &&& mime_of_name(extension) == Some(mime)
    &&& extension_of_name(extension) == Some(extension)
    &&& extension_of_name(mime) == Some(extension)
    &&& mime_of_name(mime) is None || mime_of_name(mime) == Some(mime)
    &&& lowercase(extension) == extension
    &&& lowercase(mime) == mime
}

/// The tables, name by name, other names and all.
#[verifier::rlimit(60)]
proof fn lemma_all_names()
    ensures
        paired("jpg"@, "image/jpeg"@),
        paired("png"@, "image/png"@),
        paired("gif"@, "image/gif"@),
        paired("psd"@, "image/vnd.adobe.photoshop"@),
        paired("tiff"@, "image/tiff"@),
        paired("svg"@, "image/svg+xml"@),
        paired("ico"@, "image/x-icon"@),
        paired("bmp"@, "image/bmp"@),
        paired("webp"@, "image/webp"@),
        paired("heic"@, "image/heic"@),
        paired("heif"@, "image/heif"@),
        paired("mp2"@, "video/mpeg"@),
        paired("mp4"@, "video/mp4"@),
        paired("avif"@, "image/avif"@),
        paired("avi"@, "video/avi"@),
        paired("mov"@, "video/quicktime"@),
        paired("m4a"@, "audio/mp4"@),
        paired("mid"@, "audio/mid"@),
        paired("mp3"@, "audio/mpeg"@),
        paired("wav"@, "audio/wav"@),
        paired("aif"@, "audio/aiff"@),
        paired("ogg"@, "audio/ogg"@),
        paired("pdf"@, "application/pdf"@),
        paired("ai"@, "application/postscript"@),
        paired("arw"@, "image/x-sony-arw"@),
        paired("nef"@, "image/x-nikon-nef"@),
        paired("c2pa"@, "application/c2pa"@),
        extension_of_name("jpeg"@) == Some("jpg"@),
        extension_of_name("tif"@) == Some("tiff"@),
        extension_of_name("mpa"@) == Some("mp2"@),
        extension_of_name("mpe"@) == Some("mp2"@),
        extension_of_name("mpeg"@) == Some("mp2"@),
        extension_of_name("mpg"@) == Some("mp2"@),
        extension_of_name("mpv2"@) == Some("mp2"@),
        extension_of_name("qt"@) == Some("mov"@),
        extension_of_name("rmi"@) == Some("mid"@),
        extension_of_name("aifc"@) == Some("aif"@),
        extension_of_name("aiff"@) == Some("aif"@),
        extension_of_name("application/x-c2pa-manifest-store"@) == Some("c2pa"@),
        mime_of_name("jpeg"@) == Some("image/jpeg"@),
        mime_of_name("tif"@) == Some("image/tiff"@),
        mime_of_name("mpa"@) == Some("video/mpeg"@),
        mime_of_name("mpe"@) == Some("video/mpeg"@),
        mime_of_name("mpeg"@) == Some("video/mpeg"@),
        mime_of_name("mpg"@) == Some("video/mpeg"@),
        mime_of_name("mpv2"@) == Some("video/mpeg"@),
        mime_of_name("qt"@) == Some("video/quicktime"@),
        mime_of_name("rmi"@) == Some("audio/mid"@),
        mime_of_name("aifc"@) == Some("audio/aiff"@),
        mime_of_name("aiff"@) == Some("audio/aiff"@),
        mime_of_name("application/x-c2pa-manifest-store"@) == Some("application/c2pa"@),
        mime_of_name("application/c2pa"@) == Some("application/c2pa"@),
        extension_of_name("image/dng"@) == Some("dng"@),
        extension_of_name("audio/wave"@) == Some("wav"@),
        extension_of_name("audio.vnd.wave"@) == Some("wav"@),
        mime_of_name("dng"@) == Some("image/x-adobe-dng"@),
        extension_of_name("dng"@) == Some("dng"@),
        mime_of_name("image/x-adobe-dng"@) is None,
        lowercase("dng"@) == "dng"@,
        lowercase("image/x-adobe-dng"@) == "image/x-adobe-dng"@,
        lowercase("jpeg"@) == "jpeg"@,
        lowercase("tif"@) == "tif"@,
        lowercase("mpa"@) == "mpa"@,
        lowercase("mpe"@) == "mpe"@,
        lowercase("mpeg"@) == "mpeg"@,
        lowercase("mpg"@) == "mpg"@,
        lowercase("mpv2"@) == "mpv2"@,
        lowercase("qt"@) == "qt"@,
        lowercase("rmi"@) == "rmi"@,
        lowercase("aifc"@) == "aifc"@,
        lowercase("aiff"@) == "aiff"@,
        lowercase("application/x-c2pa-manifest-store"@) == "application/x-c2pa-manifest-store"@,
        lowercase("image/dng"@) == "image/dng"@,
        lowercase("audio/wave"@) == "audio/wave"@,
        lowercase("audio.vnd.wave"@) == "audio.vnd.wave"@,
{
    reveal_with_fuel(plain_below, 34);
    reveal_strlit("jpg");
    assert(plain_below("jpg"@, 3));
    reveal_strlit("jpeg");
    assert(plain_below("jpeg"@, 4));
    reveal_strlit("image/jpeg");
    assert(plain_below("image/jpeg"@, 10));
    reveal_strlit("png");
    assert(plain_below("png"@, 3));
    reveal_strlit("image/png");
    assert(plain_below("image/png"@, 9));
    reveal_strlit("gif");
    assert(plain_below("gif"@, 3));
    reveal_strlit("image/gif");
    assert(plain_below("image/gif"@, 9));
    reveal_strlit("psd");
    assert(plain_below("psd"@, 3));
    reveal_strlit("image/vnd.adobe.photoshop");
    assert(plain_below("image/vnd.adobe.photoshop"@, 25));
    reveal_strlit("tiff");
    assert(plain_below("tiff"@, 4));
    reveal_strlit("tif");
    assert(plain_below("tif"@, 3));
    reveal_strlit("image/tiff");
    assert(plain_below("image/tiff"@, 10));
    reveal_strlit("svg");
    assert(plain_below("svg"@, 3));
    reveal_strlit("image/svg+xml");
    assert(plain_below("image/svg+xml"@, 13));
    reveal_strlit("ico");
    assert(plain_below("ico"@, 3));
    reveal_strlit("image/x-icon");
    assert(plain_below("image/x-icon"@, 12));
    reveal_strlit("bmp");
    assert(plain_below("bmp"@, 3));
    reveal_strlit("image/bmp");
    assert(plain_below("image/bmp"@, 9));
    reveal_strlit("webp");
    assert(plain_below("webp"@, 4));
    reveal_strlit("image/webp");
    assert(plain_below("image/webp"@, 10));
    reveal_strlit("dng");
    assert(plain_below("dng"@, 3));
    reveal_strlit("image/x-adobe-dng");
    assert(plain_below("image/x-adobe-dng"@, 17));
    reveal_strlit("heic");
    assert(plain_below("heic"@, 4));
    reveal_strlit("image/heic");
    assert(plain_below("image/heic"@, 10));
    reveal_strlit("heif");
    assert(plain_below("heif"@, 4));
    reveal_strlit("image/heif");
    assert(plain_below("image/heif"@, 10));
    reveal_strlit("mp2");
    assert(plain_below("mp2"@, 3));
    reveal_strlit("mpa");
    assert(plain_below("mpa"@, 3));
    reveal_strlit("mpe");
    assert(plain_below("mpe"@, 3));
    reveal_strlit("mpeg");
    assert(plain_below("mpeg"@, 4));
    reveal_strlit("mpg");
    assert(plain_below("mpg"@, 3));
    reveal_strlit("mpv2");
    assert(plain_below("mpv2"@, 4));
    reveal_strlit("video/mpeg");
    assert(plain_below("video/mpeg"@, 10));
    reveal_strlit("mp4");
    assert(plain_below("mp4"@, 3));
    reveal_strlit("video/mp4");
    assert(plain_below("video/mp4"@, 9));
    reveal_strlit("avi");
    assert(plain_below("avi"@, 3));
    reveal_strlit("video/avi");
    assert(plain_below("video/avi"@, 9));
    reveal_strlit("avif");
    assert(plain_below("avif"@, 4));
    reveal_strlit("image/avif");
    assert(plain_below("image/avif"@, 10));
    reveal_strlit("mov");
    assert(plain_below("mov"@, 3));
    reveal_strlit("qt");
    assert(plain_below("qt"@, 2));
    reveal_strlit("video/quicktime");
    assert(plain_below("video/quicktime"@, 15));
    reveal_strlit("m4a");
    assert(plain_below("m4a"@, 3));
    reveal_strlit("audio/mp4");
    assert(plain_below("audio/mp4"@, 9));
    reveal_strlit("mid");
    assert(plain_below("mid"@, 3));
    reveal_strlit("rmi");
    assert(plain_below("rmi"@, 3));
    reveal_strlit("audio/mid");
    assert(plain_below("audio/mid"@, 9));
    reveal_strlit("mp3");
    assert(plain_below("mp3"@, 3));
    reveal_strlit("audio/mpeg");
    assert(plain_below("audio/mpeg"@, 10));
    reveal_strlit("wav");
    assert(plain_below("wav"@, 3));
    reveal_strlit("audio/wav");
    assert(plain_below("audio/wav"@, 9));
    reveal_strlit("aif");
    assert(plain_below("aif"@, 3));
    reveal_strlit("aifc");
    assert(plain_below("aifc"@, 4));
    reveal_strlit("aiff");
    assert(plain_below("aiff"@, 4));
    reveal_strlit("audio/aiff");
    assert(plain_below("audio/aiff"@, 10));
    reveal_strlit("ogg");
    assert(plain_below("ogg"@, 3));
    reveal_strlit("audio/ogg");
    assert(plain_below("audio/ogg"@, 9));
    reveal_strlit("pdf");
    assert(plain_below("pdf"@, 3));
    reveal_strlit("application/pdf");
    assert(plain_below("application/pdf"@, 15));
    reveal_strlit("ai");
    assert(plain_below("ai"@, 2));
    reveal_strlit("application/postscript");
    assert(plain_below("application/postscript"@, 22));
    reveal_strlit("arw");
    assert(plain_below("arw"@, 3));
    reveal_strlit("image/x-sony-arw");
    assert(plain_below("image/x-sony-arw"@, 16));
    reveal_strlit("nef");
    assert(plain_below("nef"@, 3));
    reveal_strlit("image/x-nikon-nef");
    assert(plain_below("image/x-nikon-nef"@, 17));
    reveal_strlit("c2pa");
    assert(plain_below("c2pa"@, 4));
    reveal_strlit("application/x-c2pa-manifest-store");
    assert(plain_below("application/x-c2pa-manifest-store"@, 33));
    reveal_strlit("application/c2pa");
    assert(plain_below("application/c2pa"@, 16));
    reveal_strlit("image/dng");
    assert(plain_below("image/dng"@, 9));
    reveal_strlit("audio/wave");
    assert(plain_below("audio/wave"@, 10));
    reveal_strlit("audio.vnd.wave");
    assert(plain_below("audio.vnd.wave"@, 14));
    lemma_plain_is_lowercase("jpg"@);
    lemma_plain_is_lowercase("image/jpeg"@);
    lemma_plain_is_lowercase("png"@);
    lemma_plain_is_lowercase("image/png"@);
    lemma_plain_is_lowercase("gif"@);
    lemma_plain_is_lowercase("image/gif"@);
    lemma_plain_is_lowercase("psd"@);
    lemma_plain_is_lowercase("image/vnd.adobe.photoshop"@);
    lemma_plain_is_lowercase("tiff"@);
    lemma_plain_is_lowercase("image/tiff"@);
    lemma_plain_is_lowercase("svg"@);
    lemma_plain_is_lowercase("image/svg+xml"@);
    lemma_plain_is_lowercase("ico"@);
    lemma_plain_is_lowercase("image/x-icon"@);
    lemma_plain_is_lowercase("bmp"@);
    lemma_plain_is_lowercase("image/bmp"@);
    lemma_plain_is_lowercase("webp"@);
    lemma_plain_is_lowercase("image/webp"@);
    lemma_plain_is_lowercase("heic"@);
    lemma_plain_is_lowercase("image/heic"@);
    lemma_plain_is_lowercase("heif"@);
    lemma_plain_is_lowercase("image/heif"@);
    lemma_plain_is_lowercase("mp2"@);
    lemma_plain_is_lowercase("video/mpeg"@);
    lemma_plain_is_lowercase("mp4"@);
    lemma_plain_is_lowercase("video/mp4"@);
    lemma_plain_is_lowercase("avif"@);
    lemma_plain_is_lowercase("image/avif"@);
    lemma_plain_is_lowercase("avi"@);
    lemma_plain_is_lowercase("video/avi"@);
    lemma_plain_is_lowercase("mov"@);
    lemma_plain_is_lowercase("video/quicktime"@);
    lemma_plain_is_lowercase("m4a"@);
    lemma_plain_is_lowercase("audio/mp4"@);
    lemma_plain_is_lowercase("mid"@);
    lemma_plain_is_lowercase("audio/mid"@);
    lemma_plain_is_lowercase("mp3"@);
    lemma_plain_is_lowercase("audio/mpeg"@);
    lemma_plain_is_lowercase("wav"@);
    lemma_plain_is_lowercase("audio/wav"@);
    lemma_plain_is_lowercase("aif"@);
    lemma_plain_is_lowercase("audio/aiff"@);
    lemma_plain_is_lowercase("ogg"@);
    lemma_plain_is_lowercase("audio/ogg"@);
    lemma_plain_is_lowercase("pdf"@);
    lemma_plain_is_lowercase("application/pdf"@);
    lemma_plain_is_lowercase("ai"@);
    lemma_plain_is_lowercase("application/postscript"@);
    lemma_plain_is_lowercase("arw"@);
    lemma_plain_is_lowercase("image/x-sony-arw"@);
    lemma_plain_is_lowercase("nef"@);
    lemma_plain_is_lowercase("image/x-nikon-nef"@);
    lemma_plain_is_lowercase("c2pa"@);
    lemma_plain_is_lowercase("application/c2pa"@);
    lemma_plain_is_lowercase("dng"@);
    lemma_plain_is_lowercase("image/x-adobe-dng"@);
    lemma_plain_is_lowercase("jpeg"@);
    lemma_plain_is_lowercase("tif"@);
    lemma_plain_is_lowercase("mpa"@);
    lemma_plain_is_lowercase("mpe"@);
    lemma_plain_is_lowercase("mpeg"@);
    lemma_plain_is_lowercase("mpg"@);
    lemma_plain_is_lowercase("mpv2"@);
    lemma_plain_is_lowercase("qt"@);
    lemma_plain_is_lowercase("rmi"@);
    lemma_plain_is_lowercase("aifc"@);
    lemma_plain_is_lowercase("aiff"@);
    lemma_plain_is_lowercase("application/x-c2pa-manifest-store"@);
    lemma_plain_is_lowercase("image/dng"@);
    lemma_plain_is_lowercase("audio/wave"@);
    lemma_plain_is_lowercase("audio.vnd.wave"@);
}

/// The tables, by usual extension and media type.
proof fn lemma_tables()
    ensures
        paired("jpg"@, "image/jpeg"@),
        paired("png"@, "image/png"@),
        paired("gif"@, "image/gif"@),
        paired("psd"@, "image/vnd.adobe.photoshop"@),
        paired("tiff"@, "image/tiff"@),
        paired("svg"@, "image/svg+xml"@),
        paired("ico"@, "image/x-icon"@),
        paired("bmp"@, "image/bmp"@),
        paired("webp"@, "image/webp"@),
        paired("heic"@, "image/heic"@),
        paired("heif"@, "image/heif"@),
        paired("mp2"@, "video/mpeg"@),
        paired("mp4"@, "video/mp4"@),
        paired("avif"@, "image/avif"@),
        paired("avi"@, "video/avi"@),
        paired("mov"@, "video/quicktime"@),
        paired("m4a"@, "audio/mp4"@),
        paired("mid"@, "audio/mid"@),
        paired("mp3"@, "audio/mpeg"@),
        paired("wav"@, "audio/wav"@),
        paired("aif"@, "audio/aiff"@),
        paired("ogg"@, "audio/ogg"@),
        paired("pdf"@, "application/pdf"@),
        paired("ai"@, "application/postscript"@),
        paired("arw"@, "image/x-sony-arw"@),
        paired("nef"@, "image/x-nikon-nef"@),
        paired("c2pa"@, "application/c2pa"@),
        extension_of_name("jpeg"@) == Some("jpg"@),
        extension_of_name("tif"@) == Some("tiff"@),
        extension_of_name("mpa"@) == Some("mp2"@),
        extension_of_name("mpe"@) == Some("mp2"@),
        extension_of_name("mpeg"@) == Some("mp2"@),
        extension_of_name("mpg"@) == Some("mp2"@),
        extension_of_name("mpv2"@) == Some("mp2"@),
        extension_of_name("qt"@) == Some("mov"@),
        extension_of_name("rmi"@) == Some("mid"@),
        extension_of_name("aifc"@) == Some("aif"@),
        extension_of_name("aiff"@) == Some("aif"@),
        extension_of_name("application/x-c2pa-manifest-store"@) == Some("c2pa"@),
        mime_of_name("dng"@) == Some("image/x-adobe-dng"@),
        extension_of_name("dng"@) == Some("dng"@),
        mime_of_name("image/x-adobe-dng"@) is None,
        lowercase("dng"@) == "dng"@,
        lowercase("image/x-adobe-dng"@) == "image/x-adobe-dng"@,
        lowercase("jpeg"@) == "jpeg"@,
        lowercase("tif"@) == "tif"@,
        lowercase("mpa"@) == "mpa"@,
        lowercase("mpe"@) == "mpe"@,
        lowercase("mpeg"@) == "mpeg"@,
        lowercase("mpg"@) == "mpg"@,
        lowercase("mpv2"@) == "mpv2"@,
        lowercase("qt"@) == "qt"@,
        lowercase("rmi"@) == "rmi"@,
        lowercase("aifc"@) == "aifc"@,
        lowercase("aiff"@) == "aiff"@,
        lowercase("application/x-c2pa-manifest-store"@) == "application/x-c2pa-manifest-store"@,
        lowercase("image/dng"@) == "image/dng"@,
        lowercase("audio/wave"@) == "audio/wave"@,
        lowercase("audio.vnd.wave"@) == "audio.vnd.wave"@,
{
    lemma_all_names();
}

/// The names in the tables are their own lower case.
#[verifier::rlimit(60)]
proof fn lemma_names_are_lowercase(name: Seq<char>)
    requires
        mime_of_name(name) is Some || extension_of_name(name) is Some,
    ensures
        lowercase(name) == name,
{
    lemma_tables();
}

/// Formats are told apart without regard to case.
pub proof fn law_case_does_not_count(a: Seq<char>, b: Seq<char>)
    requires
        lowercase(a) == lowercase(b),
    ensures
        mime_for(a) == mime_for(b),
        extension_for(a) == extension_for(b),
{
}

/// Folding an ASCII name to lower case beforehand makes no difference.
pub proof fn law_lowercase_is_idempotent(name: Seq<char>)
    requires
        is_ascii_chars(name),
    ensures
        lowercase(lowercase(name)) == lowercase(name),
        mime_for(lowercase(name)) == mime_for(name),
        extension_for(lowercase(name)) == extension_for(name),
{
    let lower = lowercase(name);
    assert forall|i: int| 0 <= i < lower.len() implies 0 <= (#[trigger] lower[i]) as nat && (
    lower[i] as nat) < 128 by {
        assert(0 <= name[i] as nat && (name[i] as nat) < 128);
    }
    assert(ascii_lowercase(lower) =~= lower);
}

/// Folding a known name to lower case beforehand makes no difference, whatever
/// characters it was written with.
pub proof fn law_known_name_is_folded_once(name: Seq<char>)
    ensures
        mime_for(name) is Some ==> mime_for(lowercase(name)) == mime_for(name),
        extension_for(name) is Some ==> extension_for(lowercase(name)) == extension_for(name),
{
    if mime_for(name) is Some || extension_for(name) is Some {
        lemma_names_are_lowercase(lowercase(name));
    }
}

/// A media type stands for itself: normalizing a format twice gives what
/// normalizing it once gives.
#[verifier::rlimit(60)]
pub proof fn law_normalizing_is_idempotent(format: Seq<char>)
    ensures
        normalized(normalized(format)) == normalized(format),
{
    lemma_tables();
}

/// Every extension with a media type names a format with a usual extension, which
/// has the same media type.
#[verifier::rlimit(60)]
pub proof fn law_known_extension_has_usual_one(extension: Seq<char>)
    requires
        mime_for(extension) is Some,
    ensures
        extension_for(extension) is Some,
        mime_for(extension_for(extension)->0) == mime_for(extension),
{
    let name = lowercase(extension);
    lemma_tables();
    let usual = extension_of_name(name)->0;
    assert(lowercase(usual) == usual);
}

/// The media type of an extension leads to the same usual extension as the
/// extension itself. It does not for `dng`, whose media type names no format.
#[verifier::rlimit(60)]
pub proof fn law_mime_leads_back_to_extension(extension: Seq<char>)
    requires
        mime_for(extension) is Some,
        lowercase(extension) != "dng"@,
    ensures
        extension_for(mime_for(extension)->0) == extension_for(extension),
        extension_for(extension) is Some,
{
    lemma_tables();
}

/// The usual extension of a format is its own usual extension, and has a media
/// type.
#[verifier::rlimit(60)]
pub proof fn law_usual_extension_is_fixed(format: Seq<char>)
    requires
        extension_for(format) is Some,
    ensures
        extension_for(extension_for(format)->0) == extension_for(format),
        mime_for(extension_for(format)->0) is Some,
{
    lemma_tables();
}

/// Which extensions have which media type, in any case, and that no other name has
/// one.
#[verifier::rlimit(60)]
pub proof fn law_media_types_by_extension(name: Seq<char>)
    ensures
        ({
            let n = lowercase(name);
            &&& (n == "jpg"@ || n == "jpeg"@) ==> mime_for(name) == Some("image/jpeg"@)
            &&& n == "png"@ ==> mime_for(name) == Some("image/png"@)
            &&& n == "gif"@ ==> mime_for(name) == Some("image/gif"@)
            &&& n == "psd"@ ==> mime_for(name) == Some("image/vnd.adobe.photoshop"@)
            &&& (n == "tiff"@ || n == "tif"@) ==> mime_for(name) == Some("image/tiff"@)
            &&& n == "svg"@ ==> mime_for(name) == Some("image/svg+xml"@)
            &&& n == "ico"@ ==> mime_for(name) == Some("image/x-icon"@)
            &&& n == "bmp"@ ==> mime_for(name) == Some("image/bmp"@)
            &&& n == "webp"@ ==> mime_for(name) == Some("image/webp"@)
            &&& n == "dng"@ ==> mime_for(name) == Some("image/x-adobe-dng"@)
            &&& n == "heic"@ ==> mime_for(name) == Some("image/heic"@)
            &&& n == "heif"@ ==> mime_for(name) == Some("image/heif"@)
            &&& (n == "mp2"@ || n == "mpa"@ || n == "mpe"@ || n == "mpeg"@ || n == "mpg"@
                || n == "mpv2"@)
                ==> mime_for(name) == Some("video/mpeg"@)
            &&& n == "mp4"@ ==> mime_for(name) == Some("video/mp4"@)
            &&& n == "avi"@ ==> mime_for(name) == Some("video/avi"@)
            &&& n == "avif"@ ==> mime_for(name) == Some("image/avif"@)
            &&& (n == "mov"@ || n == "qt"@) ==> mime_for(name) == Some("video/quicktime"@)
            &&& n == "m4a"@ ==> mime_for(name) == Some("audio/mp4"@)
            &&& (n == "mid"@ || n == "rmi"@) ==> mime_for(name) == Some("audio/mid"@)
            &&& n == "mp3"@ ==> mime_for(name) == Some("audio/mpeg"@)
            &&& n == "wav"@ ==> mime_for(name) == Some("audio/wav"@)
            &&& (n == "aif"@ || n == "aifc"@ || n == "aiff"@)
                ==> mime_for(name) == Some("audio/aiff"@)
            &&& n == "ogg"@ ==> mime_for(name) == Some("audio/ogg"@)
            &&& n == "pdf"@ ==> mime_for(name) == Some("application/pdf"@)
            &&& n == "ai"@ ==> mime_for(name) == Some("application/postscript"@)
            &&& n == "arw"@ ==> mime_for(name) == Some("image/x-sony-arw"@)
            &&& n == "nef"@ ==> mime_for(name) == Some("image/x-nikon-nef"@)
            &&& (n == "c2pa"@ || n == "application/x-c2pa-manifest-store"@
                || n == "application/c2pa"@)
                ==> mime_for(name) == Some("application/c2pa"@)
            &&& mime_for(name) is Some ==> (n == "jpg"@
                || n == "jpeg"@
                || n == "png"@
                || n == "gif"@
                || n == "psd"@
                || n == "tiff"@
                || n == "tif"@
                || n == "svg"@
                || n == "ico"@
                || n == "bmp"@
                || n == "webp"@
                || n == "dng"@
                || n == "heic"@
                || n == "heif"@
                || n == "mp2"@
                || n == "mpa"@
                || n == "mpe"@
                || n == "mpeg"@
                || n == "mpg"@
                || n == "mpv2"@
                || n == "mp4"@
                || n == "avi"@
                || n == "avif"@
                || n == "mov"@
                || n == "qt"@
                || n == "m4a"@
                || n == "mid"@
                || n == "rmi"@
                || n == "mp3"@
                || n == "wav"@
                || n == "aif"@
                || n == "aifc"@
                || n == "aiff"@
                || n == "ogg"@
                || n == "pdf"@
                || n == "ai"@
                || n == "arw"@
                || n == "nef"@
                || n == "c2pa"@
                || n == "application/x-c2pa-manifest-store"@
                || n == "application/c2pa"@)
        }),
{
    lemma_all_names();
}

/// Which names stand for which usual extension, in any case, and that no other
/// name stands for one.
#[verifier::rlimit(60)]
pub proof fn law_extensions_by_format(name: Seq<char>)
    ensures
        ({
            let n = lowercase(name);
            &&& (n == "jpg"@ || n == "jpeg"@ || n == "image/jpeg"@)
                ==> extension_for(name) == Some("jpg"@)
            &&& (n == "png"@ || n == "image/png"@) ==> extension_for(name) == Some("png"@)
            &&& (n == "gif"@ || n == "image/gif"@) ==> extension_for(name) == Some("gif"@)
            &&& (n == "psd"@ || n == "image/vnd.adobe.photoshop"@)
                ==> extension_for(name) == Some("psd"@)
            &&& (n == "tiff"@ || n == "tif"@ || n == "image/tiff"@)
                ==> extension_for(name) == Some("tiff"@)
            &&& (n == "svg"@ || n == "image/svg+xml"@) ==> extension_for(name) == Some("svg"@)
            &&& (n == "ico"@ || n == "image/x-icon"@) ==> extension_for(name) == Some("ico"@)
            &&& (n == "bmp"@ || n == "image/bmp"@) ==> extension_for(name) == Some("bmp"@)
            &&& (n == "webp"@ || n == "image/webp"@) ==> extension_for(name) == Some("webp"@)
            &&& (n == "dng"@ || n == "image/dng"@) ==> extension_for(name) == Some("dng"@)
            &&& (n == "heic"@ || n == "image/heic"@) ==> extension_for(name) == Some("heic"@)
            &&& (n == "heif"@ || n == "image/heif"@) ==> extension_for(name) == Some("heif"@)
            &&& (n == "mp2"@ || n == "mpa"@ || n == "mpe"@ || n == "mpeg"@ || n == "mpg"@
                || n == "mpv2"@ || n == "video/mpeg"@)
                ==> extension_for(name) == Some("mp2"@)
            &&& (n == "mp4"@ || n == "video/mp4"@) ==> extension_for(name) == Some("mp4"@)
            &&& (n == "avif"@ || n == "image/avif"@) ==> extension_for(name) == Some("avif"@)
            &&& (n == "avi"@ || n == "video/avi"@) ==> extension_for(name) == Some("avi"@)
            &&& (n == "mov"@ || n == "qt"@ || n == "video/quicktime"@)
                ==> extension_for(name) == Some("mov"@)
            &&& (n == "m4a"@ || n == "audio/mp4"@) ==> extension_for(name) == Some("m4a"@)
            &&& (n == "mid"@ || n == "rmi"@ || n == "audio/mid"@)
                ==> extension_for(name) == Some("mid"@)
            &&& (n == "mp3"@ || n == "audio/mpeg"@) ==> extension_for(name) == Some("mp3"@)
            &&& (n == "wav"@ || n == "audio/wav"@ || n == "audio/wave"@ || n == "audio.vnd.wave"@)
                ==> extension_for(name) == Some("wav"@)
            &&& (n == "aif"@ || n == "aifc"@ || n == "aiff"@ || n == "audio/aiff"@)
                ==> extension_for(name) == Some("aif"@)
            &&& (n == "ogg"@ || n == "audio/ogg"@) ==> extension_for(name) == Some("ogg"@)
            &&& (n == "pdf"@ || n == "application/pdf"@) ==> extension_for(name) == Some("pdf"@)
            &&& (n == "ai"@ || n == "application/postscript"@)
                ==> extension_for(name) == Some("ai"@)
            &&& (n == "arw"@ || n == "image/x-sony-arw"@) ==> extension_for(name) == Some("arw"@)
            &&& (n == "nef"@ || n == "image/x-nikon-nef"@) ==> extension_for(name) == Some("nef"@)
            &&& (n == "c2pa"@ || n == "application/x-c2pa-manifest-store"@
                || n == "application/c2pa"@)
                ==> extension_for(name) == Some("c2pa"@)
            &&& extension_for(name) is Some ==> (n == "jpg"@
                || n == "jpeg"@
                || n == "image/jpeg"@
                || n == "png"@
                || n == "image/png"@
                || n == "gif"@
                || n == "image/gif"@
                || n == "psd"@
                || n == "image/vnd.adobe.photoshop"@
                || n == "tiff"@
                || n == "tif"@
                || n == "image/tiff"@
                || n == "svg"@
                || n == "image/svg+xml"@
                || n == "ico"@
                || n == "image/x-icon"@
                || n == "bmp"@
                || n == "image/bmp"@
                || n == "webp"@
                || n == "image/webp"@
                || n == "dng"@
                || n == "image/dng"@
                || n == "heic"@
                || n == "image/heic"@
                || n == "heif"@
                || n == "image/heif"@
                || n == "mp2"@
                || n == "mpa"@
                || n == "mpe"@
                || n == "mpeg"@
                || n == "mpg"@
                || n == "mpv2"@
                || n == "video/mpeg"@
                || n == "mp4"@
                || n == "video/mp4"@
                || n == "avif"@
                || n == "image/avif"@
                || n == "avi"@
                || n == "video/avi"@
                || n == "mov"@
                || n == "qt"@
                || n == "video/quicktime"@
                || n == "m4a"@
                || n == "audio/mp4"@
                || n == "mid"@
                || n == "rmi"@
                || n == "audio/mid"@
                || n == "mp3"@
                || n == "audio/mpeg"@
                || n == "wav"@
                || n == "audio/wav"@
                || n == "audio/wave"@
                || n == "audio.vnd.wave"@
                || n == "aif"@
                || n == "aifc"@
                || n == "aiff"@
                || n == "audio/aiff"@
                || n == "ogg"@
                || n == "audio/ogg"@
                || n == "pdf"@
                || n == "application/pdf"@
                || n == "ai"@
                || n == "application/postscript"@
                || n == "arw"@
                || n == "image/x-sony-arw"@
                || n == "nef"@
                || n == "image/x-nikon-nef"@
                || n == "c2pa"@
                || n == "application/x-c2pa-manifest-store"@
                || n == "application/c2pa"@)
        }),
{
    lemma_all_names();
}

/// The lower case of an ASCII text differs from it in its capital letters only,
/// place by place; that of any other text is the Unicode mapping.
pub proof fn law_lowercase_maps_letters(text: Seq<char>)
    ensures
        is_ascii_chars(text) ==> lowercase(text).len() == text.len(),
        is_ascii_chars(text) ==> forall|i: int|
            0 <= i < text.len() ==> (#[trigger] lowercase(text)[i]) as int == (if 65 <= text[i] as int
                && text[i] as int <= 90 {
                text[i] as int + 32
            } else {
                text[i] as int
            }),
        !is_ascii_chars(text) ==> lowercase(text) == unicode_lowercase(text),
{
}

/// Two ASCII names that differ in the case of letters only are the same name.
pub proof fn law_letter_case_does_not_count(a: Seq<char>, b: Seq<char>)
    requires
        is_ascii_chars(a),
        is_ascii_chars(b),
        a.len() == b.len(),
        forall|i: int|
            0 <= i < a.len() ==> a[i] == #[trigger] b[i] || (65 <= a[i] as int && a[i] as int <= 90
                && b[i] as int == a[i] as int + 32) || (65 <= b[i] as int && b[i] as int <= 90
                && a[i] as int == b[i] as int + 32),
    ensures
        mime_for(a) == mime_for(b),
        extension_for(a) == extension_for(b),
{
    assert(lowercase(a) =~= lowercase(b)) by {
        assert forall|i: int| 0 <= i < a.len() implies lowercase(a)[i] == lowercase(b)[i] by {
            assert(a[i] == b[i] || a[i] != b[i]);
        }
    }
}

/// A known format becomes its media type, and every other one, of any length, is
/// left as it is.
pub proof fn law_normalizing_keeps_the_rest(format: Seq<char>)
    ensures
        mime_for(format) matches Some(mime) ==> normalized(format) == mime,
        mime_for(format) is None ==> normalized(format) == format,
{
}

/// Texts and bytes in mathematical form are the texts and bytes themselves.
pub proof fn law_views_are_faithful(
    text: Option<&str>,
    owned: Option<String>,
    bytes: Option<&[u8]>,
)
    ensures
        text is None <==> text_of(text) is None,
        text matches Some(t) ==> text_of(text) == Some(t@),
        owned is None <==> owned_text_of(owned) is None,
        owned matches Some(t) ==> owned_text_of(owned) == Some(t@),
        bytes is None <==> bytes_of(bytes) is None,
        bytes matches Some(b) ==> bytes_of(bytes) == Some(b@),
{
}

/// The content of a file does not count where its extension is recognized: the
/// media type is that of the extension.
pub proof fn law_extension_comes_first(extension: Seq<char>, content: Option<Seq<u8>>)
    requires
        mime_for(extension) is Some,
    ensures
        file_mime(Some(extension), content) == mime_for(extension),
{
    law_known_name_is_folded_once(extension);
}

/// An extension whose lower case is recognized decides, whatever the content.
pub proof fn law_folded_extension_comes_first(extension: Seq<char>, content: Option<Seq<u8>>)
    requires
        mime_for(lowercase(extension)) is Some,
    ensures
        file_mime(Some(extension), content) == mime_for(lowercase(extension)),
{
}

/// The content of a file decides where it has no extension or one that is not
/// recognized; of an extension beyond ASCII, its lower case must not be recognized
/// either.
pub proof fn law_content_decides_otherwise(extension: Option<Seq<char>>, content: Seq<u8>)
    requires
        extension matches Some(name) ==> mime_for(name) is None && (is_ascii_chars(name)
            || mime_for(lowercase(name)) is None),
    ensures
        file_mime(extension, Some(content)) == detected_mime(content),
        file_mime(extension, None) is None,
{
    if let Some(name) = extension {
        if is_ascii_chars(name) {
            law_lowercase_is_idempotent(name);
        }
    }
}

proof fn lemma_text_in_header(data: Seq<u8>, at: int, text: Seq<char>)
    requires
        0 <= at,
        at + text.len() <= HEADER_LEN,
    ensures
        text_at(header(data), at, text) == text_at(data, at, text),
{
    if text_at(header(data), at, text) {
        assert forall|i: int| 0 <= i < text.len() implies data[at + i] as int
            == #[trigger] text[i] as int by {
            assert(header(data)[at + i] as int == text[i] as int);
        }
    }
}

proof fn lemma_prefix_in_header(data: Seq<u8>, prefix: Seq<u8>)
    requires
        prefix.len() <= HEADER_LEN,
    ensures
        prefix.is_prefix_of(header(data)) == prefix.is_prefix_of(data),
{
    if prefix.len() <= data.len() {
        assert(header(data).subrange(0, prefix.len() as int) =~= data.subrange(
            0,
            prefix.len() as int,
        ));
    }
}

/// Only the header of an asset counts: bytes behind it do not change the media
/// type that is detected.
pub proof fn law_only_the_header_counts(data: Seq<u8>)
    ensures
        detected_mime(data) == detected_mime(header(data)),
{
    reveal_strlit("RIFF");
    reveal_strlit("WEBP");
    reveal_strlit("WAVE");
    reveal_strlit("AVI ");
    reveal_strlit("ftyp");
    reveal_strlit("mp41");
    reveal_strlit("mp42");
    reveal_strlit("isom");
    reveal_strlit("iso2");
    reveal_strlit("iso3");
    reveal_strlit("iso4");
    reveal_strlit("iso5");
    reveal_strlit("iso6");
    reveal_strlit("avc1");
    reveal_strlit("mp71");
    reveal_strlit("m4a ");
    reveal_strlit("m4v ");
    reveal_strlit("heic");
    reveal_strlit("heix");
    reveal_strlit("mif1");
    reveal_strlit("msf1");
    reveal_strlit("hevc");
    reveal_strlit("hevx");
    reveal_strlit("avif");
    reveal_strlit("avis");
    reveal_strlit("qt  ");
    reveal_strlit("3gp1");
    reveal_strlit("3gp2");
    reveal_strlit("3gp3");
    reveal_strlit("3gp4");
    reveal_strlit("3gp5");
    reveal_strlit("3gp6");
    reveal_strlit("3gr6");
    reveal_strlit("3gs6");
    reveal_strlit("3ge6");
    reveal_strlit("3g2a");
    reveal_strlit("3g2b");
    reveal_strlit("3g2c");
    reveal_strlit("ID3");
    reveal_strlit("GIF87a");
    reveal_strlit("GIF89a");
    reveal_strlit("BM");
    reveal_strlit("%PDF-");
    reveal_strlit("jumb");
    lemma_prefix_in_header(data, seq![0xffu8, 0xd8, 0xff]);
    lemma_prefix_in_header(data, seq![0x89u8, 0x50, 0x4e, 0x47, 0x0d, 0x0a, 0x1a, 0x0a]);
    lemma_prefix_in_header(data, seq![0x49u8, 0x49, 0x2a, 0x00]);
    lemma_prefix_in_header(data, seq![0x4du8, 0x4d, 0x00, 0x2a]);
    lemma_text_in_header(data, 0, "RIFF"@);
    lemma_text_in_header(data, 8, "WEBP"@);
    lemma_text_in_header(data, 8, "WAVE"@);
    lemma_text_in_header(data, 8, "AVI "@);
    lemma_text_in_header(data, 4, "ftyp"@);
    lemma_text_in_header(data, 8, "mp41"@);
    lemma_text_in_header(data, 8, "mp42"@);
    lemma_text_in_header(data, 8, "isom"@);
    lemma_text_in_header(data, 8, "iso2"@);
    lemma_text_in_header(data, 8, "iso3"@);
    lemma_text_in_header(data, 8, "iso4"@);
    lemma_text_in_header(data, 8, "iso5"@);
    lemma_text_in_header(data, 8, "iso6"@);
    lemma_text_in_header(data, 8, "avc1"@);
    lemma_text_in_header(data, 8, "mp71"@);
    lemma_text_in_header(data, 8, "m4a "@);
    lemma_text_in_header(data, 8, "m4v "@);
    lemma_text_in_header(data, 8, "heic"@);
    lemma_text_in_header(data, 8, "heix"@);
    lemma_text_in_header(data, 8, "mif1"@);
    lemma_text_in_header(data, 8, "msf1"@);
    lemma_text_in_header(data, 8, "hevc"@);
    lemma_text_in_header(data, 8, "hevx"@);
    lemma_text_in_header(data, 8, "avif"@);
    lemma_text_in_header(data, 8, "avis"@);
    lemma_text_in_header(data, 8, "qt  "@);
    lemma_text_in_header(data, 8, "3gp1"@);
    lemma_text_in_header(data, 8, "3gp2"@);
    lemma_text_in_header(data, 8, "3gp3"@);
    lemma_text_in_header(data, 8, "3gp4"@);
    lemma_text_in_header(data, 8, "3gp5"@);
    lemma_text_in_header(data, 8, "3gp6"@);
    lemma_text_in_header(data, 8, "3gr6"@);
    lemma_text_in_header(data, 8, "3gs6"@);
    lemma_text_in_header(data, 8, "3ge6"@);
    lemma_text_in_header(data, 8, "3g2a"@);
    lemma_text_in_header(data, 8, "3g2b"@);
    lemma_text_in_header(data, 8, "3g2c"@);
    lemma_text_in_header(data, 0, "ID3"@);
    lemma_text_in_header(data, 0, "GIF87a"@);
    lemma_text_in_header(data, 0, "GIF89a"@);
    lemma_text_in_header(data, 0, "BM"@);
    lemma_text_in_header(data, 0, "%PDF-"@);
    lemma_text_in_header(data, 4, "jumb"@);
}

/// A media type that is detected from content names a format with a usual
/// extension, but for the types of M4V, 3GPP and 3GPP2 video.
#[verifier::rlimit(60)]
pub proof fn law_detected_mime_has_extension(data: Seq<u8>)
    requires
        detected_mime(data) is Some,
        detected_mime(data) != Some("video/x-m4v"@),
        detected_mime(data) != Some("video/3gpp"@),
        detected_mime(data) != Some("video/3g2"@),
    ensures
        extension_for(detected_mime(data)->0) is Some,
{
    lemma_tables();
}

} // verus!

//! Laws of content detection, by the bytes that assets begin with.

use vstd::prelude::*;
use vstd::utf8::*;
use crate::sniff::detected_mime;
use crate::sniff::header;
use crate::sniff::is_svg;
use crate::sniff::is_svg_text;
use crate::sniff::text_at;
use crate::text::is_white_space;
use crate::text::occurs_at;
use crate::text::occurs_in;
use crate::text::trimmed_start;

verus! {

/// The bytes of an ASCII text.
pub open spec fn ascii(text: Seq<char>) -> Seq<u8> {
    Seq::new(text.len(), |i: int| text[i] as u8)
}

/// Whether the bytes `part` stand in `data` from `at` on, whatever is before and
/// behind them.
pub open spec fn holds_at(data: Seq<u8>, at: int, part: Seq<u8>) -> bool {
    at + part.len() <= data.len() && data.subrange(at, at + part.len()) == part
}

/// Whether `data` begins as an MP3 file does: with an ID3 tag, or with eleven set
/// bits.
pub open spec fn begins_mp3(data: Seq<u8>) -> bool {
    holds_at(data, 0, ascii("ID3"@)) || (data.len() >= 2 && data[0] == 0xff && data[1] >= 0xe0)
}

/// Whether the first bytes of `data` alone tell its media type.
pub open spec fn has_leading_signature(data: Seq<u8>) -> bool {
    ||| holds_at(data, 0, seq![0xffu8, 0xd8, 0xff])
    ||| holds_at(data, 0, seq![0x89u8, 0x50, 0x4e, 0x47, 0x0d, 0x0a, 0x1a, 0x0a])
    ||| holds_at(data, 0, ascii("GIF87a"@))
    ||| holds_at(data, 0, ascii("GIF89a"@))
    ||| holds_at(data, 0, seq![0x49u8, 0x49, 0x2a, 0x00])
    ||| holds_at(data, 0, seq![0x4du8, 0x4d, 0x00, 0x2a])
    ||| holds_at(data, 0, ascii("BM"@))
    ||| holds_at(data, 0, ascii("%PDF-"@))
    ||| holds_at(data, 0, ascii("RIFF"@)) && holds_at(data, 8, ascii("WEBP"@))
    ||| holds_at(data, 0, ascii("RIFF"@)) && holds_at(data, 8, ascii("WAVE"@))
    ||| holds_at(data, 0, ascii("RIFF"@)) && holds_at(data, 8, ascii("AVI "@))
    ||| begins_mp3(data)
}

/// Whether `data` is an ISO base media file with a major brand.
pub open spec fn has_brand(data: Seq<u8>) -> bool {
    data.len() >= 12 && holds_at(data, 4, ascii("ftyp"@))
}

/// Whether every character of `text` is white space.
pub open spec fn all_white(text: Seq<char>) -> bool {
    forall|i: int| 0 <= i < text.len() ==> is_white_space(#[trigger] text[i])
}

/// Whether `text` is an `<svg` element behind white space.
pub open spec fn opens_with_svg(text: Seq<char>, white: Seq<char>, rest: Seq<char>) -> bool {
    all_white(white) && text == white + "<svg"@ + rest
}

/// Whether `text` is an XML declaration behind white space, with an `<svg` element
/// somewhere behind it.
pub open spec fn opens_with_xml(
    text: Seq<char>,
    white: Seq<char>,
    between: Seq<char>,
    rest: Seq<char>,
) -> bool {
    all_white(white) && text == white + "<?xml"@ + between + "<svg"@ + rest
}

/// Whether `text` opens an SVG document.
pub open spec fn opens_svg_document(text: Seq<char>) -> bool {
    ||| exists|white: Seq<char>, rest: Seq<char>| opens_with_svg(text, white, rest)
    ||| exists|white: Seq<char>, between: Seq<char>, rest: Seq<char>|
        opens_with_xml(text, white, between, rest)
}

/// The first 512 bytes of `data`, or all of them if there are fewer.
pub open spec fn first_512(data: Seq<u8>) -> Seq<u8> {
    if data.len() <= 512 {
        data
    } else {
        data.subrange(0, 512)
    }
}

/// Whether the first 512 bytes of `data` are text that opens an SVG document.
pub open spec fn begins_svg(data: Seq<u8>) -> bool {
    valid_utf8(first_512(data)) && opens_svg_document(decode_utf8(first_512(data)))
}

spec fn ascii_below(s: Seq<char>, n: nat) -> bool
    decreases n,
{
    n == 0 || (0 <= s[n - 1] as int && (s[n - 1] as int) < 128 && ascii_below(s, (n - 1) as nat))
}

proof fn lemma_ascii_below(s: Seq<char>, n: nat)
    requires
        ascii_below(s, n),
        n <= s.len(),
    ensures
        forall|i: int| 0 <= i < n ==> 0 <= #[trigger] s[i] as int && (s[i] as int) < 128,
    decreases n,
{
    if n > 0 {
        lemma_ascii_below(s, (n - 1) as nat);
    }
}

/// An ASCII text stands in the data exactly where its bytes do.
proof fn lemma_has_text(data: Seq<u8>, at: int, text: Seq<char>)
    requires
        0 <= at,
        ascii_below(text, text.len()),
    ensures
        holds_at(data, at, ascii(text)) == text_at(data, at, text),
{
    lemma_ascii_below(text, text.len());
    if holds_at(data, at, ascii(text)) {
        assert forall|i: int| 0 <= i < text.len() implies data[at + i] as int
            == #[trigger] text[i] as int by {
            assert(0 <= text[i] as int && (text[i] as int) < 128);
            assert(text[i] as u8 as int == text[i] as int);
            assert(ascii(text)[i] == text[i] as u8);
            assert(data.subrange(at, at + ascii(text).len())[i] == data[at + i]);
        }
    }
    if text_at(data, at, text) {
        assert(data.subrange(at, at + text.len()) =~= ascii(text)) by {
            assert forall|i: int| 0 <= i < text.len() implies data[at + i] == ascii(text)[i] by {
                assert(data[at + i] as int == text[i] as int);
            }
        }
    }
}

proof fn lemma_has_prefix(data: Seq<u8>, part: Seq<u8>)
    ensures
        holds_at(data, 0, part) == part.is_prefix_of(data),
        holds_at(data, 0, part)
            ==> forall|i: int| 0 <= i < part.len() ==> data[i] == #[trigger] part[i],
{
    if holds_at(data, 0, part) {
        assert forall|i: int| 0 <= i < part.len() implies data[i] == #[trigger] part[i] by {
            assert(data.subrange(0, part.len() as int)[i] == part[i]);
        }
    }
}

/// The signatures that stand at the start, and their first bytes.
proof fn lemma_starts(data: Seq<u8>)
    ensures
        holds_at(data, 0, seq![0xffu8, 0xd8, 0xff]) == seq![0xffu8, 0xd8, 0xff].is_prefix_of(data),
        holds_at(data, 0, seq![0x89u8, 0x50, 0x4e, 0x47, 0x0d, 0x0a, 0x1a, 0x0a])
            == seq![0x89u8, 0x50, 0x4e, 0x47, 0x0d, 0x0a, 0x1a, 0x0a].is_prefix_of(data),
        holds_at(data, 0, seq![0x49u8, 0x49, 0x2a, 0x00])
            == seq![0x49u8, 0x49, 0x2a, 0x00].is_prefix_of(data),
        holds_at(data, 0, seq![0x4du8, 0x4d, 0x00, 0x2a])
            == seq![0x4du8, 0x4d, 0x00, 0x2a].is_prefix_of(data),
        holds_at(data, 0, ascii("GIF87a"@)) == text_at(data, 0, "GIF87a"@),
        holds_at(data, 0, ascii("GIF89a"@)) == text_at(data, 0, "GIF89a"@),
        holds_at(data, 0, ascii("BM"@)) == text_at(data, 0, "BM"@),
        holds_at(data, 0, ascii("%PDF-"@)) == text_at(data, 0, "%PDF-"@),
        holds_at(data, 0, ascii("RIFF"@)) == text_at(data, 0, "RIFF"@),
        holds_at(data, 0, ascii("ID3"@)) == text_at(data, 0, "ID3"@),
        holds_at(data, 8, ascii("WEBP"@)) == text_at(data, 8, "WEBP"@),
        holds_at(data, 8, ascii("WAVE"@)) == text_at(data, 8, "WAVE"@),
        holds_at(data, 8, ascii("AVI "@)) == text_at(data, 8, "AVI "@),
        holds_at(data, 4, ascii("ftyp"@)) == text_at(data, 4, "ftyp"@),
        holds_at(data, 4, ascii("jumb"@)) == text_at(data, 4, "jumb"@),
        holds_at(data, 0, seq![0xffu8, 0xd8, 0xff]) ==> data.len() >= 3
            && data[0] == 0xff && data[1] == 0xd8,
        holds_at(data, 0, seq![0x89u8, 0x50, 0x4e, 0x47, 0x0d, 0x0a, 0x1a, 0x0a])
            ==> data.len() >= 8
            && data[0] == 0x89,
        holds_at(data, 0, seq![0x49u8, 0x49, 0x2a, 0x00]) ==> data.len() >= 4
            && data[0] == 0x49 && data[1] == 0x49,
        holds_at(data, 0, seq![0x4du8, 0x4d, 0x00, 0x2a]) ==> data.len() >= 4 && data[0] == 0x4d,
        text_at(data, 0, "GIF87a"@) ==> data.len() >= 6 && data[0] == 0x47 && data[1] == 0x49,
        text_at(data, 0, "GIF89a"@) ==> data.len() >= 6 && data[0] == 0x47 && data[1] == 0x49,
        text_at(data, 0, "BM"@) ==> data.len() >= 2 && data[0] == 0x42 && data[1] == 0x4d,
        text_at(data, 0, "%PDF-"@) ==> data.len() >= 5 && data[0] == 0x25 && data[1] == 0x50,
        text_at(data, 0, "RIFF"@) ==> data.len() >= 4 && data[0] == 0x52 && data[1] == 0x49,
        text_at(data, 0, "ID3"@) ==> data.len() >= 3 && data[0] == 0x49 && data[1] == 0x44,
        text_at(data, 8, "WEBP"@) ==> data.len() >= 12 && data[8] == 0x57 && data[9] == 0x45,
        text_at(data, 8, "WAVE"@) ==> data.len() >= 12 && data[8] == 0x57 && data[9] == 0x41,
        text_at(data, 8, "AVI "@) ==> data.len() >= 12 && data[8] == 0x41 && data[9] == 0x56,
        text_at(data, 4, "ftyp"@) ==> data.len() >= 8 && data[4] == 0x66,
        text_at(data, 4, "jumb"@) ==> data.len() >= 8 && data[4] == 0x6a,
{
    reveal_with_fuel(ascii_below, 7);
    lemma_has_prefix(data, seq![0xffu8, 0xd8, 0xff]);
    lemma_has_prefix(data, seq![0x89u8, 0x50, 0x4e, 0x47, 0x0d, 0x0a, 0x1a, 0x0a]);
    lemma_has_prefix(data, seq![0x49u8, 0x49, 0x2a, 0x00]);
    lemma_has_prefix(data, seq![0x4du8, 0x4d, 0x00, 0x2a]);
    assert(seq![0xffu8, 0xd8, 0xff][0] == 0xff && seq![0xffu8, 0xd8, 0xff][1] == 0xd8);
    assert(seq![0x89u8, 0x50, 0x4e, 0x47, 0x0d, 0x0a, 0x1a, 0x0a][0] == 0x89);
    assert(seq![0x49u8, 0x49, 0x2a, 0x00][0] == 0x49 && seq![0x49u8, 0x49, 0x2a, 0x00][1] == 0x49);
    assert(seq![0x4du8, 0x4d, 0x00, 0x2a][0] == 0x4d);
    reveal_strlit("GIF87a");
    assert(ascii_below("GIF87a"@, 6));
    lemma_has_text(data, 0, "GIF87a"@);
    assert("GIF87a"@[0] == 'G' && "GIF87a"@[1] == 'I');
    reveal_strlit("GIF89a");
    assert(ascii_below("GIF89a"@, 6));
    lemma_has_text(data, 0, "GIF89a"@);
    assert("GIF89a"@[0] == 'G' && "GIF89a"@[1] == 'I');
    reveal_strlit("BM");
    assert(ascii_below("BM"@, 2));
    lemma_has_text(data, 0, "BM"@);
    assert("BM"@[0] == 'B' && "BM"@[1] == 'M');
    reveal_strlit("%PDF-");
    assert(ascii_below("%PDF-"@, 5));
    lemma_has_text(data, 0, "%PDF-"@);
    assert("%PDF-"@[0] == '%' && "%PDF-"@[1] == 'P');
    reveal_strlit("RIFF");
    assert(ascii_below("RIFF"@, 4));
    lemma_has_text(data, 0, "RIFF"@);
    assert("RIFF"@[0] == 'R' && "RIFF"@[1] == 'I');
    reveal_strlit("ID3");
    assert(ascii_below("ID3"@, 3));
    lemma_has_text(data, 0, "ID3"@);
    assert("ID3"@[0] == 'I' && "ID3"@[1] == 'D');
    reveal_strlit("WEBP");
    assert(ascii_below("WEBP"@, 4));
    lemma_has_text(data, 8, "WEBP"@);
    assert("WEBP"@[0] == 'W' && "WEBP"@[1] == 'E');
    reveal_strlit("WAVE");
    assert(ascii_below("WAVE"@, 4));
    lemma_has_text(data, 8, "WAVE"@);
    assert("WAVE"@[0] == 'W' && "WAVE"@[1] == 'A');
    reveal_strlit("AVI ");
    assert(ascii_below("AVI "@, 4));
    lemma_has_text(data, 8, "AVI "@);
    assert("AVI "@[0] == 'A' && "AVI "@[1] == 'V');
    reveal_strlit("ftyp");
    assert(ascii_below("ftyp"@, 4));
    lemma_has_text(data, 4, "ftyp"@);
    assert("ftyp"@[0] == 'f' && "ftyp"@[1] == 't');
    reveal_strlit("jumb");
    assert(ascii_below("jumb"@, 4));
    lemma_has_text(data, 4, "jumb"@);
    assert("jumb"@[0] == 'j' && "jumb"@[1] == 'u');
}

/// The brands, letter by letter.
proof fn lemma_brands(data: Seq<u8>)
    ensures
        holds_at(data, 8, ascii("mp41"@)) == text_at(data, 8, "mp41"@),
        text_at(data, 8, "mp41"@) ==> data[8] == 0x6d
            && data[9] == 0x70 && data[10] == 0x34 && data[11] == 0x31,
        holds_at(data, 8, ascii("mp42"@)) == text_at(data, 8, "mp42"@),
        text_at(data, 8, "mp42"@) ==> data[8] == 0x6d
            && data[9] == 0x70 && data[10] == 0x34 && data[11] == 0x32,
        holds_at(data, 8, ascii("isom"@)) == text_at(data, 8, "isom"@),
        text_at(data, 8, "isom"@) ==> data[8] == 0x69
            && data[9] == 0x73 && data[10] == 0x6f && data[11] == 0x6d,
        holds_at(data, 8, ascii("iso2"@)) == text_at(data, 8, "iso2"@),
        text_at(data, 8, "iso2"@) ==> data[8] == 0x69
            && data[9] == 0x73 && data[10] == 0x6f && data[11] == 0x32,
        holds_at(data, 8, ascii("iso3"@)) == text_at(data, 8, "iso3"@),
        text_at(data, 8, "iso3"@) ==> data[8] == 0x69
            && data[9] == 0x73 && data[10] == 0x6f && data[11] == 0x33,
        holds_at(data, 8, ascii("iso4"@)) == text_at(data, 8, "iso4"@),
        text_at(data, 8, "iso4"@) ==> data[8] == 0x69
            && data[9] == 0x73 && data[10] == 0x6f && data[11] == 0x34,
        holds_at(data, 8, ascii("iso5"@)) == text_at(data, 8, "iso5"@),
        text_at(data, 8, "iso5"@) ==> data[8] == 0x69
            && data[9] == 0x73 && data[10] == 0x6f && data[11] == 0x35,
        holds_at(data, 8, ascii("iso6"@)) == text_at(data, 8, "iso6"@),
        text_at(data, 8, "iso6"@) ==> data[8] == 0x69
            && data[9] == 0x73 && data[10] == 0x6f && data[11] == 0x36,
        holds_at(data, 8, ascii("avc1"@)) == text_at(data, 8, "avc1"@),
        text_at(data, 8, "avc1"@) ==> data[8] == 0x61
            && data[9] == 0x76 && data[10] == 0x63 && data[11] == 0x31,
        holds_at(data, 8, ascii("mp71"@)) == text_at(data, 8, "mp71"@),
        text_at(data, 8, "mp71"@) ==> data[8] == 0x6d
            && data[9] == 0x70 && data[10] == 0x37 && data[11] == 0x31,
        holds_at(data, 8, ascii("m4a "@)) == text_at(data, 8, "m4a "@),
        text_at(data, 8, "m4a "@) ==> data[8] == 0x6d
            && data[9] == 0x34 && data[10] == 0x61 && data[11] == 0x20,
        holds_at(data, 8, ascii("m4v "@)) == text_at(data, 8, "m4v "@),
        text_at(data, 8, "m4v "@) ==> data[8] == 0x6d
            && data[9] == 0x34 && data[10] == 0x76 && data[11] == 0x20,
        holds_at(data, 8, ascii("heic"@)) == text_at(data, 8, "heic"@),
        text_at(data, 8, "heic"@) ==> data[8] == 0x68
            && data[9] == 0x65 && data[10] == 0x69 && data[11] == 0x63,
        holds_at(data, 8, ascii("heix"@)) == text_at(data, 8, "heix"@),
        text_at(data, 8, "heix"@) ==> data[8] == 0x68
            && data[9] == 0x65 && data[10] == 0x69 && data[11] == 0x78,
        holds_at(data, 8, ascii("mif1"@)) == text_at(data, 8, "mif1"@),
        text_at(data, 8, "mif1"@) ==> data[8] == 0x6d
            && data[9] == 0x69 && data[10] == 0x66 && data[11] == 0x31,
        holds_at(data, 8, ascii("msf1"@)) == text_at(data, 8, "msf1"@),
        text_at(data, 8, "msf1"@) ==> data[8] == 0x6d
            && data[9] == 0x73 && data[10] == 0x66 && data[11] == 0x31,
        holds_at(data, 8, ascii("hevc"@)) == text_at(data, 8, "hevc"@),
        text_at(data, 8, "hevc"@) ==> data[8] == 0x68
            && data[9] == 0x65 && data[10] == 0x76 && data[11] == 0x63,
        holds_at(data, 8, ascii("hevx"@)) == text_at(data, 8, "hevx"@),
        text_at(data, 8, "hevx"@) ==> data[8] == 0x68
            && data[9] == 0x65 && data[10] == 0x76 && data[11] == 0x78,
        holds_at(data, 8, ascii("avif"@)) == text_at(data, 8, "avif"@),
        text_at(data, 8, "avif"@) ==> data[8] == 0x61
            && data[9] == 0x76 && data[10] == 0x69 && data[11] == 0x66,
        holds_at(data, 8, ascii("avis"@)) == text_at(data, 8, "avis"@),
        text_at(data, 8, "avis"@) ==> data[8] == 0x61
            && data[9] == 0x76 && data[10] == 0x69 && data[11] == 0x73,
        holds_at(data, 8, ascii("qt  "@)) == text_at(data, 8, "qt  "@),
        text_at(data, 8, "qt  "@) ==> data[8] == 0x71
            && data[9] == 0x74 && data[10] == 0x20 && data[11] == 0x20,
        holds_at(data, 8, ascii("3gp1"@)) == text_at(data, 8, "3gp1"@),
        text_at(data, 8, "3gp1"@) ==> data[8] == 0x33
            && data[9] == 0x67 && data[10] == 0x70 && data[11] == 0x31,
        holds_at(data, 8, ascii("3gp2"@)) == text_at(data, 8, "3gp2"@),
        text_at(data, 8, "3gp2"@) ==> data[8] == 0x33
            && data[9] == 0x67 && data[10] == 0x70 && data[11] == 0x32,
        holds_at(data, 8, ascii("3gp3"@)) == text_at(data, 8, "3gp3"@),
        text_at(data, 8, "3gp3"@) ==> data[8] == 0x33
            && data[9] == 0x67 && data[10] == 0x70 && data[11] == 0x33,
        holds_at(data, 8, ascii("3gp4"@)) == text_at(data, 8, "3gp4"@),
        text_at(data, 8, "3gp4"@) ==> data[8] == 0x33
            && data[9] == 0x67 && data[10] == 0x70 && data[11] == 0x34,
        holds_at(data, 8, ascii("3gp5"@)) == text_at(data, 8, "3gp5"@),
        text_at(data, 8, "3gp5"@) ==> data[8] == 0x33
            && data[9] == 0x67 && data[10] == 0x70 && data[11] == 0x35,
        holds_at(data, 8, ascii("3gp6"@)) == text_at(data, 8, "3gp6"@),
        text_at(data, 8, "3gp6"@) ==> data[8] == 0x33
            && data[9] == 0x67 && data[10] == 0x70 && data[11] == 0x36,
        holds_at(data, 8, ascii("3gr6"@)) == text_at(data, 8, "3gr6"@),
        text_at(data, 8, "3gr6"@) ==> data[8] == 0x33
            && data[9] == 0x67 && data[10] == 0x72 && data[11] == 0x36,
        holds_at(data, 8, ascii("3gs6"@)) == text_at(data, 8, "3gs6"@),
        text_at(data, 8, "3gs6"@) ==> data[8] == 0x33
            && data[9] == 0x67 && data[10] == 0x73 && data[11] == 0x36,
        holds_at(data, 8, ascii("3ge6"@)) == text_at(data, 8, "3ge6"@),
        text_at(data, 8, "3ge6"@) ==> data[8] == 0x33
            && data[9] == 0x67 && data[10] == 0x65 && data[11] == 0x36,
        holds_at(data, 8, ascii("3g2a"@)) == text_at(data, 8, "3g2a"@),
        text_at(data, 8, "3g2a"@) ==> data[8] == 0x33
            && data[9] == 0x67 && data[10] == 0x32 && data[11] == 0x61,
        holds_at(data, 8, ascii("3g2b"@)) == text_at(data, 8, "3g2b"@),
        text_at(data, 8, "3g2b"@) ==> data[8] == 0x33
            && data[9] == 0x67 && data[10] == 0x32 && data[11] == 0x62,
        holds_at(data, 8, ascii("3g2c"@)) == text_at(data, 8, "3g2c"@),
        text_at(data, 8, "3g2c"@) ==> data[8] == 0x33
            && data[9] == 0x67 && data[10] == 0x32 && data[11] == 0x63,
{
    reveal_with_fuel(ascii_below, 5);
    reveal_strlit("mp41");
    assert(ascii_below("mp41"@, 4));
    lemma_has_text(data, 8, "mp41"@);
    assert("mp41"@[0] == 'm' && "mp41"@[1] == 'p' && "mp41"@[2] == '4' && "mp41"@[3] == '1');
    reveal_strlit("mp42");
    assert(ascii_below("mp42"@, 4));
    lemma_has_text(data, 8, "mp42"@);
    assert("mp42"@[0] == 'm' && "mp42"@[1] == 'p' && "mp42"@[2] == '4' && "mp42"@[3] == '2');
    reveal_strlit("isom");
    assert(ascii_below("isom"@, 4));
    lemma_has_text(data, 8, "isom"@);
    assert("isom"@[0] == 'i' && "isom"@[1] == 's' && "isom"@[2] == 'o' && "isom"@[3] == 'm');
    reveal_strlit("iso2");
    assert(ascii_below("iso2"@, 4));
    lemma_has_text(data, 8, "iso2"@);
    assert("iso2"@[0] == 'i' && "iso2"@[1] == 's' && "iso2"@[2] == 'o' && "iso2"@[3] == '2');
    reveal_strlit("iso3");
    assert(ascii_below("iso3"@, 4));
    lemma_has_text(data, 8, "iso3"@);
    assert("iso3"@[0] == 'i' && "iso3"@[1] == 's' && "iso3"@[2] == 'o' && "iso3"@[3] == '3');
    reveal_strlit("iso4");
    assert(ascii_below("iso4"@, 4));
    lemma_has_text(data, 8, "iso4"@);
    assert("iso4"@[0] == 'i' && "iso4"@[1] == 's' && "iso4"@[2] == 'o' && "iso4"@[3] == '4');
    reveal_strlit("iso5");
    assert(ascii_below("iso5"@, 4));
    lemma_has_text(data, 8, "iso5"@);
    assert("iso5"@[0] == 'i' && "iso5"@[1] == 's' && "iso5"@[2] == 'o' && "iso5"@[3] == '5');
    reveal_strlit("iso6");
    assert(ascii_below("iso6"@, 4));
    lemma_has_text(data, 8, "iso6"@);
    assert("iso6"@[0] == 'i' && "iso6"@[1] == 's' && "iso6"@[2] == 'o' && "iso6"@[3] == '6');
    reveal_strlit("avc1");
    assert(ascii_below("avc1"@, 4));
    lemma_has_text(data, 8, "avc1"@);
    assert("avc1"@[0] == 'a' && "avc1"@[1] == 'v' && "avc1"@[2] == 'c' && "avc1"@[3] == '1');
    reveal_strlit("mp71");
    assert(ascii_below("mp71"@, 4));
    lemma_has_text(data, 8, "mp71"@);
    assert("mp71"@[0] == 'm' && "mp71"@[1] == 'p' && "mp71"@[2] == '7' && "mp71"@[3] == '1');
    reveal_strlit("m4a ");
    assert(ascii_below("m4a "@, 4));
    lemma_has_text(data, 8, "m4a "@);
    assert("m4a "@[0] == 'm' && "m4a "@[1] == '4' && "m4a "@[2] == 'a' && "m4a "@[3] == ' ');
    reveal_strlit("m4v ");
    assert(ascii_below("m4v "@, 4));
    lemma_has_text(data, 8, "m4v "@);
    assert("m4v "@[0] == 'm' && "m4v "@[1] == '4' && "m4v "@[2] == 'v' && "m4v "@[3] == ' ');
    reveal_strlit("heic");
    assert(ascii_below("heic"@, 4));
    lemma_has_text(data, 8, "heic"@);
    assert("heic"@[0] == 'h' && "heic"@[1] == 'e' && "heic"@[2] == 'i' && "heic"@[3] == 'c');
    reveal_strlit("heix");
    assert(ascii_below("heix"@, 4));
    lemma_has_text(data, 8, "heix"@);
    assert("heix"@[0] == 'h' && "heix"@[1] == 'e' && "heix"@[2] == 'i' && "heix"@[3] == 'x');
    reveal_strlit("mif1");
    assert(ascii_below("mif1"@, 4));
    lemma_has_text(data, 8, "mif1"@);
    assert("mif1"@[0] == 'm' && "mif1"@[1] == 'i' && "mif1"@[2] == 'f' && "mif1"@[3] == '1');
    reveal_strlit("msf1");
    assert(ascii_below("msf1"@, 4));
    lemma_has_text(data, 8, "msf1"@);
    assert("msf1"@[0] == 'm' && "msf1"@[1] == 's' && "msf1"@[2] == 'f' && "msf1"@[3] == '1');
    reveal_strlit("hevc");
    assert(ascii_below("hevc"@, 4));
    lemma_has_text(data, 8, "hevc"@);
    assert("hevc"@[0] == 'h' && "hevc"@[1] == 'e' && "hevc"@[2] == 'v' && "hevc"@[3] == 'c');
    reveal_strlit("hevx");
    assert(ascii_below("hevx"@, 4));
    lemma_has_text(data, 8, "hevx"@);
    assert("hevx"@[0] == 'h' && "hevx"@[1] == 'e' && "hevx"@[2] == 'v' && "hevx"@[3] == 'x');
    reveal_strlit("avif");
    assert(ascii_below("avif"@, 4));
    lemma_has_text(data, 8, "avif"@);
    assert("avif"@[0] == 'a' && "avif"@[1] == 'v' && "avif"@[2] == 'i' && "avif"@[3] == 'f');
    reveal_strlit("avis");
    assert(ascii_below("avis"@, 4));
    lemma_has_text(data, 8, "avis"@);
    assert("avis"@[0] == 'a' && "avis"@[1] == 'v' && "avis"@[2] == 'i' && "avis"@[3] == 's');
    reveal_strlit("qt  ");
    assert(ascii_below("qt  "@, 4));
    lemma_has_text(data, 8, "qt  "@);
    assert("qt  "@[0] == 'q' && "qt  "@[1] == 't' && "qt  "@[2] == ' ' && "qt  "@[3] == ' ');
    reveal_strlit("3gp1");
    assert(ascii_below("3gp1"@, 4));
    lemma_has_text(data, 8, "3gp1"@);
    assert("3gp1"@[0] == '3' && "3gp1"@[1] == 'g' && "3gp1"@[2] == 'p' && "3gp1"@[3] == '1');
    reveal_strlit("3gp2");
    assert(ascii_below("3gp2"@, 4));
    lemma_has_text(data, 8, "3gp2"@);
    assert("3gp2"@[0] == '3' && "3gp2"@[1] == 'g' && "3gp2"@[2] == 'p' && "3gp2"@[3] == '2');
    reveal_strlit("3gp3");
    assert(ascii_below("3gp3"@, 4));
    lemma_has_text(data, 8, "3gp3"@);
    assert("3gp3"@[0] == '3' && "3gp3"@[1] == 'g' && "3gp3"@[2] == 'p' && "3gp3"@[3] == '3');
    reveal_strlit("3gp4");
    assert(ascii_below("3gp4"@, 4));
    lemma_has_text(data, 8, "3gp4"@);
    assert("3gp4"@[0] == '3' && "3gp4"@[1] == 'g' && "3gp4"@[2] == 'p' && "3gp4"@[3] == '4');
    reveal_strlit("3gp5");
    assert(ascii_below("3gp5"@, 4));
    lemma_has_text(data, 8, "3gp5"@);
    assert("3gp5"@[0] == '3' && "3gp5"@[1] == 'g' && "3gp5"@[2] == 'p' && "3gp5"@[3] == '5');
    reveal_strlit("3gp6");
    assert(ascii_below("3gp6"@, 4));
    lemma_has_text(data, 8, "3gp6"@);
    assert("3gp6"@[0] == '3' && "3gp6"@[1] == 'g' && "3gp6"@[2] == 'p' && "3gp6"@[3] == '6');
    reveal_strlit("3gr6");
    assert(ascii_below("3gr6"@, 4));
    lemma_has_text(data, 8, "3gr6"@);
    assert("3gr6"@[0] == '3' && "3gr6"@[1] == 'g' && "3gr6"@[2] == 'r' && "3gr6"@[3] == '6');
    reveal_strlit("3gs6");
    assert(ascii_below("3gs6"@, 4));
    lemma_has_text(data, 8, "3gs6"@);
    assert("3gs6"@[0] == '3' && "3gs6"@[1] == 'g' && "3gs6"@[2] == 's' && "3gs6"@[3] == '6');
    reveal_strlit("3ge6");
    assert(ascii_below("3ge6"@, 4));
    lemma_has_text(data, 8, "3ge6"@);
    assert("3ge6"@[0] == '3' && "3ge6"@[1] == 'g' && "3ge6"@[2] == 'e' && "3ge6"@[3] == '6');
    reveal_strlit("3g2a");
    assert(ascii_below("3g2a"@, 4));
    lemma_has_text(data, 8, "3g2a"@);
    assert("3g2a"@[0] == '3' && "3g2a"@[1] == 'g' && "3g2a"@[2] == '2' && "3g2a"@[3] == 'a');
    reveal_strlit("3g2b");
    assert(ascii_below("3g2b"@, 4));
    lemma_has_text(data, 8, "3g2b"@);
    assert("3g2b"@[0] == '3' && "3g2b"@[1] == 'g' && "3g2b"@[2] == '2' && "3g2b"@[3] == 'b');
    reveal_strlit("3g2c");
    assert(ascii_below("3g2c"@, 4));
    lemma_has_text(data, 8, "3g2c"@);
    assert("3g2c"@[0] == '3' && "3g2c"@[1] == 'g' && "3g2c"@[2] == '2' && "3g2c"@[3] == 'c');
}

/// What begins with a signature has its media type, whatever stands behind the
/// signature and however much of it.
pub proof fn law_leading_signature_decides(data: Seq<u8>)
    ensures
        holds_at(data, 0, seq![0xffu8, 0xd8, 0xff]) ==> detected_mime(data) == Some("image/jpeg"@),
        holds_at(data, 0, seq![0x89u8, 0x50, 0x4e, 0x47, 0x0d, 0x0a, 0x1a, 0x0a])
            ==> detected_mime(data) == Some("image/png"@),
        (holds_at(data, 0, ascii("GIF87a"@))
            || holds_at(data, 0, ascii("GIF89a"@))) ==> detected_mime(data) == Some("image/gif"@),
        (holds_at(data, 0, seq![0x49u8, 0x49, 0x2a, 0x00])
            || holds_at(data, 0, seq![0x4du8, 0x4d, 0x00, 0x2a]))
                ==> detected_mime(data) == Some("image/tiff"@),
        holds_at(data, 0, ascii("BM"@)) ==> detected_mime(data) == Some("image/bmp"@),
        holds_at(data, 0, ascii("%PDF-"@)) ==> detected_mime(data) == Some("application/pdf"@),
        (holds_at(data, 0, ascii("RIFF"@))
            && holds_at(data, 8, ascii("WEBP"@))) ==> detected_mime(data) == Some("image/webp"@),
        (holds_at(data, 0, ascii("RIFF"@))
            && holds_at(data, 8, ascii("WAVE"@))) ==> detected_mime(data) == Some("audio/wav"@),
        (holds_at(data, 0, ascii("RIFF"@))
            && holds_at(data, 8, ascii("AVI "@))) ==> detected_mime(data) == Some("video/avi"@),
        begins_mp3(data) ==> detected_mime(data) == Some("audio/mpeg"@),
{
    lemma_starts(data);
}

/// The tail behind a leading signature never changes the media type that is
/// detected.
pub proof fn law_tail_does_not_count(data: Seq<u8>, tail: Seq<u8>)
    requires
        has_leading_signature(data),
    ensures
        detected_mime(data + tail) == detected_mime(data),
        detected_mime(data) is Some,
{
    let more = data + tail;
    lemma_has_more(data, tail, 0, seq![0xffu8, 0xd8, 0xff]);
    lemma_has_more(data, tail, 0, seq![0x89u8, 0x50, 0x4e, 0x47, 0x0d, 0x0a, 0x1a, 0x0a]);
    lemma_has_more(data, tail, 0, seq![0x49u8, 0x49, 0x2a, 0x00]);
    lemma_has_more(data, tail, 0, seq![0x4du8, 0x4d, 0x00, 0x2a]);
    lemma_has_more(data, tail, 0, ascii("GIF87a"@));
    lemma_has_more(data, tail, 0, ascii("GIF89a"@));
    lemma_has_more(data, tail, 0, ascii("BM"@));
    lemma_has_more(data, tail, 0, ascii("%PDF-"@));
    lemma_has_more(data, tail, 0, ascii("RIFF"@));
    lemma_has_more(data, tail, 0, ascii("ID3"@));
    lemma_has_more(data, tail, 8, ascii("WEBP"@));
    lemma_has_more(data, tail, 8, ascii("WAVE"@));
    lemma_has_more(data, tail, 8, ascii("AVI "@));
    law_leading_signature_decides(data);
    law_leading_signature_decides(more);
}

proof fn lemma_has_more(data: Seq<u8>, tail: Seq<u8>, at: int, part: Seq<u8>)
    requires
        0 <= at,
    ensures
        holds_at(data, at, part) ==> holds_at(data + tail, at, part),
{
    if holds_at(data, at, part) {
        assert((data + tail).subrange(at, at + part.len()) =~= data.subrange(at, at + part.len()));
    }
}

/// The signature of JPEG, PNG or TIFF with any bytes behind it, none or many, is
/// detected as its media type.
pub proof fn law_binary_signature_with_any_tail(tail: Seq<u8>)
    ensures
        detected_mime(seq![0xffu8, 0xd8, 0xff] + tail) == Some("image/jpeg"@),
        detected_mime(seq![0x89u8, 0x50, 0x4e, 0x47, 0x0d, 0x0a, 0x1a, 0x0a] + tail)
            == Some("image/png"@),
        detected_mime(seq![0x49u8, 0x49, 0x2a, 0x00] + tail) == Some("image/tiff"@),
        detected_mime(seq![0x4du8, 0x4d, 0x00, 0x2a] + tail) == Some("image/tiff"@),
{
    assert(detected_mime(seq![0xffu8, 0xd8, 0xff] + tail) == Some("image/jpeg"@)) by {
        lemma_begins(seq![0xffu8, 0xd8, 0xff], tail);
        law_leading_signature_decides(seq![0xffu8, 0xd8, 0xff] + tail);
    }
    assert(detected_mime(seq![0x89u8, 0x50, 0x4e, 0x47, 0x0d, 0x0a, 0x1a, 0x0a] + tail)
        == Some("image/png"@)) by {
        lemma_begins(seq![0x89u8, 0x50, 0x4e, 0x47, 0x0d, 0x0a, 0x1a, 0x0a], tail);
        law_leading_signature_decides(
            seq![0x89u8, 0x50, 0x4e, 0x47, 0x0d, 0x0a, 0x1a, 0x0a] + tail,
        );
    }
    assert(detected_mime(seq![0x49u8, 0x49, 0x2a, 0x00] + tail) == Some("image/tiff"@)) by {
        lemma_begins(seq![0x49u8, 0x49, 0x2a, 0x00], tail);
        law_leading_signature_decides(seq![0x49u8, 0x49, 0x2a, 0x00] + tail);
    }
    assert(detected_mime(seq![0x4du8, 0x4d, 0x00, 0x2a] + tail) == Some("image/tiff"@)) by {
        lemma_begins(seq![0x4du8, 0x4d, 0x00, 0x2a], tail);
        law_leading_signature_decides(seq![0x4du8, 0x4d, 0x00, 0x2a] + tail);
    }
}

/// The signature of GIF, BMP, PDF or MP3 with any bytes behind it, none or many, is
/// detected as its media type.
pub proof fn law_text_signature_with_any_tail(tail: Seq<u8>)
    ensures
        detected_mime(ascii("GIF87a"@) + tail) == Some("image/gif"@),
        detected_mime(ascii("GIF89a"@) + tail) == Some("image/gif"@),
        detected_mime(ascii("BM"@) + tail) == Some("image/bmp"@),
        detected_mime(ascii("%PDF-"@) + tail) == Some("application/pdf"@),
        detected_mime(ascii("ID3"@) + tail) == Some("audio/mpeg"@),
{
    assert(detected_mime(ascii("GIF87a"@) + tail) == Some("image/gif"@)) by {
        lemma_begins(ascii("GIF87a"@), tail);
        law_leading_signature_decides(ascii("GIF87a"@) + tail);
    }
    assert(detected_mime(ascii("GIF89a"@) + tail) == Some("image/gif"@)) by {
        lemma_begins(ascii("GIF89a"@), tail);
        law_leading_signature_decides(ascii("GIF89a"@) + tail);
    }
    assert(detected_mime(ascii("BM"@) + tail) == Some("image/bmp"@)) by {
        lemma_begins(ascii("BM"@), tail);
        law_leading_signature_decides(ascii("BM"@) + tail);
    }
    assert(detected_mime(ascii("%PDF-"@) + tail) == Some("application/pdf"@)) by {
        lemma_begins(ascii("%PDF-"@), tail);
        law_leading_signature_decides(ascii("%PDF-"@) + tail);
    }
    assert(detected_mime(ascii("ID3"@) + tail) == Some("audio/mpeg"@)) by {
        lemma_begins(ascii("ID3"@), tail);
        law_leading_signature_decides(ascii("ID3"@) + tail);
    }
}

/// A RIFF form with any length before it and any bytes behind it, none or many, is
/// detected as its media type.
pub proof fn law_riff_form_with_any_tail(length: Seq<u8>, tail: Seq<u8>)
    requires
        length.len() == 4,
    ensures
        detected_mime(ascii("RIFF"@) + length + ascii("WEBP"@) + tail) == Some("image/webp"@),
        detected_mime(ascii("RIFF"@) + length + ascii("WAVE"@) + tail) == Some("audio/wav"@),
        detected_mime(ascii("RIFF"@) + length + ascii("AVI "@) + tail) == Some("video/avi"@),
{
    assert(detected_mime(ascii("RIFF"@) + length + ascii("WEBP"@) + tail)
        == Some("image/webp"@)) by {
        lemma_riff_begins(length, "WEBP"@, tail);
        law_leading_signature_decides(ascii("RIFF"@) + length + ascii("WEBP"@) + tail);
    }
    assert(detected_mime(ascii("RIFF"@) + length + ascii("WAVE"@) + tail)
        == Some("audio/wav"@)) by {
        lemma_riff_begins(length, "WAVE"@, tail);
        law_leading_signature_decides(ascii("RIFF"@) + length + ascii("WAVE"@) + tail);
    }
    assert(detected_mime(ascii("RIFF"@) + length + ascii("AVI "@) + tail)
        == Some("video/avi"@)) by {
        lemma_riff_begins(length, "AVI "@, tail);
        law_leading_signature_decides(ascii("RIFF"@) + length + ascii("AVI "@) + tail);
    }
}

proof fn lemma_begins(part: Seq<u8>, tail: Seq<u8>)
    ensures
        holds_at(part + tail, 0, part),
{
    assert((part + tail).subrange(0, part.len() as int) =~= part);
}

proof fn lemma_riff_begins(length: Seq<u8>, form: Seq<char>, tail: Seq<u8>)
    requires
        length.len() == 4,
    ensures
        holds_at(ascii("RIFF"@) + length + ascii(form) + tail, 0, ascii("RIFF"@)),
        holds_at(ascii("RIFF"@) + length + ascii(form) + tail, 8, ascii(form)),
{
    reveal_strlit("RIFF");
    let data = ascii("RIFF"@) + length + ascii(form) + tail;
    assert(data.subrange(0, 4) =~= ascii("RIFF"@));
    assert(data.subrange(8, 8int + ascii(form).len()) =~= ascii(form));
}

/// Without a leading signature, the major brand of an ISO base media file tells its
/// media type, whatever stands behind it; an unknown brand has none.
pub proof fn law_brand_decides(data: Seq<u8>)
    requires
        !has_leading_signature(data),
        has_brand(data),
    ensures
        (holds_at(data, 8, ascii("mp41"@))
            || holds_at(data, 8, ascii("mp42"@))
            || holds_at(data, 8, ascii("isom"@))
            || holds_at(data, 8, ascii("iso2"@))
            || holds_at(data, 8, ascii("iso3"@))
            || holds_at(data, 8, ascii("iso4"@))
            || holds_at(data, 8, ascii("iso5"@))
            || holds_at(data, 8, ascii("iso6"@))
            || holds_at(data, 8, ascii("avc1"@))
            || holds_at(data, 8, ascii("mp71"@))) ==> detected_mime(data) == Some("video/mp4"@),
        holds_at(data, 8, ascii("m4a "@)) ==> detected_mime(data) == Some("audio/mp4"@),
        holds_at(data, 8, ascii("m4v "@)) ==> detected_mime(data) == Some("video/x-m4v"@),
        (holds_at(data, 8, ascii("heic"@))
            || holds_at(data, 8, ascii("heix"@))
            || holds_at(data, 8, ascii("mif1"@))
            || holds_at(data, 8, ascii("msf1"@))) ==> detected_mime(data) == Some("image/heic"@),
        (holds_at(data, 8, ascii("hevc"@))
            || holds_at(data, 8, ascii("hevx"@))) ==> detected_mime(data) == Some("image/heif"@),
        (holds_at(data, 8, ascii("avif"@))
            || holds_at(data, 8, ascii("avis"@))) ==> detected_mime(data) == Some("image/avif"@),
        holds_at(data, 8, ascii("qt  "@)) ==> detected_mime(data) == Some("video/quicktime"@),
        (holds_at(data, 8, ascii("3gp1"@))
            || holds_at(data, 8, ascii("3gp2"@))
            || holds_at(data, 8, ascii("3gp3"@))
            || holds_at(data, 8, ascii("3gp4"@))
            || holds_at(data, 8, ascii("3gp5"@))
            || holds_at(data, 8, ascii("3gp6"@))
            || holds_at(data, 8, ascii("3gr6"@))
            || holds_at(data, 8, ascii("3gs6"@))
            || holds_at(data, 8, ascii("3ge6"@))) ==> detected_mime(data) == Some("video/3gpp"@),
        (holds_at(data, 8, ascii("3g2a"@))
            || holds_at(data, 8, ascii("3g2b"@))
            || holds_at(data, 8, ascii("3g2c"@))) ==> detected_mime(data) == Some("video/3g2"@),
        detected_mime(data) is Some ==> (holds_at(data, 8, ascii("mp41"@))
            || holds_at(data, 8, ascii("mp42"@))
            || holds_at(data, 8, ascii("isom"@))
            || holds_at(data, 8, ascii("iso2"@))
            || holds_at(data, 8, ascii("iso3"@))
            || holds_at(data, 8, ascii("iso4"@))
            || holds_at(data, 8, ascii("iso5"@))
            || holds_at(data, 8, ascii("iso6"@))
            || holds_at(data, 8, ascii("avc1"@))
            || holds_at(data, 8, ascii("mp71"@))
            || holds_at(data, 8, ascii("m4a "@))
            || holds_at(data, 8, ascii("m4v "@))
            || holds_at(data, 8, ascii("heic"@))
            || holds_at(data, 8, ascii("heix"@))
            || holds_at(data, 8, ascii("mif1"@))
            || holds_at(data, 8, ascii("msf1"@))
            || holds_at(data, 8, ascii("hevc"@))
            || holds_at(data, 8, ascii("hevx"@))
            || holds_at(data, 8, ascii("avif"@))
            || holds_at(data, 8, ascii("avis"@))
            || holds_at(data, 8, ascii("qt  "@))
            || holds_at(data, 8, ascii("3gp1"@))
            || holds_at(data, 8, ascii("3gp2"@))
            || holds_at(data, 8, ascii("3gp3"@))
            || holds_at(data, 8, ascii("3gp4"@))
            || holds_at(data, 8, ascii("3gp5"@))
            || holds_at(data, 8, ascii("3gp6"@))
            || holds_at(data, 8, ascii("3gr6"@))
            || holds_at(data, 8, ascii("3gs6"@))
            || holds_at(data, 8, ascii("3ge6"@))
            || holds_at(data, 8, ascii("3g2a"@))
            || holds_at(data, 8, ascii("3g2b"@))
            || holds_at(data, 8, ascii("3g2c"@))),
{
    lemma_starts(data);
    lemma_brands(data);
}

proof fn lemma_trimmed(white: Seq<char>, rest: Seq<char>)
    requires
        all_white(white),
    ensures
        trimmed_start(white + rest) == trimmed_start(rest),
    decreases white.len(),
{
    if white.len() == 0 {
        assert(white + rest =~= rest);
    } else {
        let text = white + rest;
        assert(is_white_space(white[0]));
        assert(text[0] == white[0]);
        assert(text.drop_first() =~= white.drop_first() + rest);
        assert forall|i: int| 0 <= i < white.drop_first().len() implies is_white_space(
            #[trigger] white.drop_first()[i],
        ) by {
            assert(is_white_space(white[i + 1]));
        }
        lemma_trimmed(white.drop_first(), rest);
    }
}

proof fn lemma_white_part(text: Seq<char>) -> (white: Seq<char>)
    ensures
        all_white(white),
        text == white + trimmed_start(text),
        trimmed_start(text).len() > 0 ==> !is_white_space(trimmed_start(text)[0]),
    decreases text.len(),
{
    if text.len() > 0 && is_white_space(text[0]) {
        let inner = lemma_white_part(text.drop_first());
        let white = seq![text[0]] + inner;
        assert forall|i: int| 0 <= i < white.len() implies is_white_space(#[trigger] white[i]) by {
            if i > 0 {
                assert(white[i] == inner[i - 1]);
            }
        }
        assert(text =~= white + trimmed_start(text)) by {
            assert(text.drop_first() == inner + trimmed_start(text.drop_first()));
            assert(text =~= seq![text[0]] + text.drop_first());
        }
        white
    } else {
        assert(text =~= Seq::<char>::empty() + text);
        Seq::empty()
    }
}

/// Leading white space is dropped, all of it and nothing else.
pub proof fn law_trimming_drops_white_space(white: Seq<char>, rest: Seq<char>)
    requires
        all_white(white),
        rest.len() > 0 ==> !is_white_space(rest[0]),
    ensures
        trimmed_start(white + rest) == rest,
{
    lemma_trimmed(white, rest);
}

/// A text stands in another exactly if the other is that text with something, or
/// nothing, before and behind it.
pub proof fn law_occurrence_splits(text: Seq<char>, part: Seq<char>)
    ensures
        occurs_in(text, part) <==> exists|before: Seq<char>, behind: Seq<char>|
            text == #[trigger] (before + part + behind),
        forall|behind: Seq<char>| occurs_at(#[trigger] (part + behind), 0, part),
        occurs_at(text, 0, part) ==> text == part + text.skip(part.len() as int),
{
    if occurs_in(text, part) {
        let at = choose|at: int| occurs_at(text, at, part);
        let before = text.take(at);
        let behind = text.skip(at + part.len());
        assert(text =~= before + part + behind) by {
            assert(text.subrange(at, at + part.len()) == part);
            assert forall|i: int| 0 <= i < text.len() implies text[i] == (before + part
                + behind)[i] by {
                if at <= i < at + part.len() {
                    assert(text.subrange(at, at + part.len())[i - at] == text[i]);
                }
            }
        }
    }
    if exists|before: Seq<char>, behind: Seq<char>| text == #[trigger] (before + part + behind) {
        let (before, behind) = choose|before: Seq<char>, behind: Seq<char>|
            text == #[trigger] (before + part + behind);
        let at = before.len() as int;
        assert(text.subrange(at, at + part.len()) =~= part);
        assert(occurs_at(text, at, part));
    }
    assert forall|behind: Seq<char>| occurs_at(#[trigger] (part + behind), 0, part) by {
        assert((part + behind).subrange(0, part.len() as int) =~= part);
    }
    if occurs_at(text, 0, part) {
        assert(text.subrange(0, part.len() as int) == part);
        assert(text =~= part + text.skip(part.len() as int)) by {
            assert forall|i: int| 0 <= i < part.len() implies text[i] == part[i] by {
                assert(text.subrange(0, part.len() as int)[i] == text[i]);
            }
        }
    }
}

/// A text stands in another at exactly those places where as many characters are
/// before it.
pub proof fn law_occurrence_is_in_place(
    text: Seq<char>,
    at: int,
    part: Seq<char>,
    before: Seq<char>,
    behind: Seq<char>,
)
    ensures
        occurs_at(before + part + behind, before.len() as int, part),
        occurs_at(text, at, part) ==> 0 <= at <= text.len() - part.len() && text == text.take(at)
            + part + text.skip(at + part.len()),
{
    let joined = before + part + behind;
    assert(joined.subrange(before.len() as int, before.len() as int + part.len()) =~= part);
    if occurs_at(text, at, part) {
        assert(text =~= text.take(at) + text.subrange(at, at + part.len()) + text.skip(
            at + part.len(),
        ));
    }
}

/// An XML declaration and an `<svg` somewhere stand apart: neither covers the other.
proof fn lemma_xml_splits(text: Seq<char>) -> (parts: (Seq<char>, Seq<char>))
    requires
        occurs_at(text, 0, "<?xml"@),
        occurs_in(text, "<svg"@),
    ensures
        text == "<?xml"@ + parts.0 + "<svg"@ + parts.1,
{
    reveal_strlit("<svg");
    reveal_strlit("<?xml");
    let at = choose|at: int| occurs_at(text, at, "<svg"@);
    let opening = text.subrange(0, 5);
    let element = text.subrange(at, at + 4);
    assert(opening == "<?xml"@);
    assert(element == "<svg"@);
    assert(at >= 5) by {
        assert(element[0] == '<' && element[1] == 's');
        assert(opening[1] == '?' && opening[2] == 'x' && opening[3] == 'm' && opening[4] == 'l');
        assert(element[0] == text[at] && element[1] == text[at + 1]);
        assert(opening[1] == text[1] && opening[2] == text[2] && opening[3] == text[3]
            && opening[4] == text[4]);
    }
    let between = text.subrange(5, at);
    let rest = text.skip(at + 4);
    assert(text =~= opening + between + element + rest);
    (between, rest)
}

proof fn lemma_opening_found(text: Seq<char>)
    requires
        is_svg_text(text),
    ensures
        opens_svg_document(text),
{
    let trimmed = trimmed_start(text);
    let white = lemma_white_part(text);
    if occurs_at(trimmed, 0, "<svg"@) {
        law_occurrence_splits(trimmed, "<svg"@);
        let rest = trimmed.skip("<svg"@.len() as int);
        lemma_joins(white, "<svg"@, rest);
        assert(opens_with_svg(text, white, rest));
    } else {
        let (between, rest) = lemma_xml_splits(trimmed);
        lemma_joins(white, "<?xml"@ + between + "<svg"@, rest);
        lemma_joins(white, "<?xml"@ + between, "<svg"@);
        lemma_joins(white, "<?xml"@, between);
        assert(opens_with_xml(text, white, between, rest));
    }
}

proof fn lemma_joins(a: Seq<char>, b: Seq<char>, c: Seq<char>)
    ensures
        a + (b + c) == a + b + c,
{
    assert(a + (b + c) =~= a + b + c);
}

proof fn lemma_svg_opening(text: Seq<char>, white: Seq<char>, rest: Seq<char>)
    requires
        opens_with_svg(text, white, rest),
    ensures
        is_svg_text(text),
{
    reveal_strlit("<svg");
    let opened = "<svg"@ + rest;
    assert(text =~= white + opened);
    assert(opened[0] == "<svg"@[0]);
    law_trimming_drops_white_space(white, opened);
    law_occurrence_splits(opened, "<svg"@);
}

proof fn lemma_xml_opening(
    text: Seq<char>,
    white: Seq<char>,
    between: Seq<char>,
    rest: Seq<char>,
)
    requires
        opens_with_xml(text, white, between, rest),
    ensures
        is_svg_text(text),
{
    reveal_strlit("<?xml");
    let behind = between + "<svg"@ + rest;
    let opened = "<?xml"@ + behind;
    assert(text =~= white + opened);
    assert(opened[0] == "<?xml"@[0]);
    law_trimming_drops_white_space(white, opened);
    law_occurrence_splits(opened, "<?xml"@);
    assert(opened =~= ("<?xml"@ + between) + "<svg"@ + rest);
    law_occurrence_splits(opened, "<svg"@);
}

proof fn lemma_svg_text(text: Seq<char>)
    ensures
        is_svg_text(text) == opens_svg_document(text),
{
    if is_svg_text(text) {
        lemma_opening_found(text);
    }
    if exists|white: Seq<char>, rest: Seq<char>| opens_with_svg(text, white, rest) {
        let (white, rest) = choose|white: Seq<char>, rest: Seq<char>|
            opens_with_svg(text, white, rest);
        lemma_svg_opening(text, white, rest);
    } else if opens_svg_document(text) {
        let (white, between, rest) = choose|
            white: Seq<char>,
            between: Seq<char>,
            rest: Seq<char>,
        | opens_with_xml(text, white, between, rest);
        lemma_xml_opening(text, white, between, rest);
    }
}

proof fn lemma_svg(data: Seq<u8>)
    ensures
        is_svg(data) == begins_svg(data),
{
    assert(header(data) =~= first_512(data));
    lemma_svg_text(decode_utf8(first_512(data)));
}

/// Text that opens an SVG document is one, unless the bytes say otherwise before:
/// white space may stand before the element or the declaration, and anything behind.
pub proof fn law_svg_text_decides(data: Seq<u8>)
    requires
        data.len() >= 2,
        !has_leading_signature(data),
        !has_brand(data),
        begins_svg(data),
    ensures
        detected_mime(data) == Some("image/svg+xml"@),
{
    lemma_starts(data);
    lemma_svg(data);
}

/// What has no signature, no brand and no SVG text is a C2PA store if its box says
/// so, whatever the box holds, and otherwise unknown.
pub proof fn law_rest_is_c2pa_or_unknown(data: Seq<u8>)
    requires
        !has_leading_signature(data),
        !has_brand(data),
        !begins_svg(data),
    ensures
        holds_at(data, 4, ascii("jumb"@)) ==> detected_mime(data) == Some("application/c2pa"@),
        !holds_at(data, 4, ascii("jumb"@)) ==> detected_mime(data) is None,
{
    lemma_starts(data);
    lemma_svg(data);
}

/// Fewer than two bytes tell nothing.
pub proof fn law_too_short_is_unknown(data: Seq<u8>)
    requires
        data.len() < 2,
    ensures
        detected_mime(data) is None,
{
}

} // verus!

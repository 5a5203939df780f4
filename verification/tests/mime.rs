use c2pa::mime::extension_to_mime;
use c2pa::mime::format_from_path;
use c2pa::mime::format_to_extension;
use c2pa::mime::format_to_mime;
use c2pa::mime::get_mime_from_bytes;

const MIME_TYPES: &[(&str, &str)] = &[
    ("jpg", "image/jpeg"),
    ("jpeg", "image/jpeg"),
    ("png", "image/png"),
    ("gif", "image/gif"),
    ("psd", "image/vnd.adobe.photoshop"),
    ("tiff", "image/tiff"),
    ("tif", "image/tiff"),
    ("svg", "image/svg+xml"),
    ("ico", "image/x-icon"),
    ("bmp", "image/bmp"),
    ("webp", "image/webp"),
    ("dng", "image/x-adobe-dng"),
    ("heic", "image/heic"),
    ("heif", "image/heif"),
    ("mp2", "video/mpeg"),
    ("mpa", "video/mpeg"),
    ("mpe", "video/mpeg"),
    ("mpeg", "video/mpeg"),
    ("mpg", "video/mpeg"),
    ("mpv2", "video/mpeg"),
    ("mp4", "video/mp4"),
    ("avi", "video/avi"),
    ("avif", "image/avif"),
    ("mov", "video/quicktime"),
    ("qt", "video/quicktime"),
    ("m4a", "audio/mp4"),
    ("mid", "audio/mid"),
    ("rmi", "audio/mid"),
    ("mp3", "audio/mpeg"),
    ("wav", "audio/wav"),
    ("aif", "audio/aiff"),
    ("aifc", "audio/aiff"),
    ("aiff", "audio/aiff"),
    ("ogg", "audio/ogg"),
    ("pdf", "application/pdf"),
    ("ai", "application/postscript"),
    ("arw", "image/x-sony-arw"),
    ("nef", "image/x-nikon-nef"),
    ("c2pa", "application/c2pa"),
    ("application/x-c2pa-manifest-store", "application/c2pa"),
    ("application/c2pa", "application/c2pa"),
];

const EXTENSIONS: &[(&str, &str)] = &[
    ("jpg", "jpg"),
    ("jpeg", "jpg"),
    ("image/jpeg", "jpg"),
    ("png", "png"),
    ("image/png", "png"),
    ("gif", "gif"),
    ("image/gif", "gif"),
    ("psd", "psd"),
    ("image/vnd.adobe.photoshop", "psd"),
    ("tiff", "tiff"),
    ("tif", "tiff"),
    ("image/tiff", "tiff"),
    ("svg", "svg"),
    ("image/svg+xml", "svg"),
    ("ico", "ico"),
    ("image/x-icon", "ico"),
    ("bmp", "bmp"),
    ("image/bmp", "bmp"),
    ("webp", "webp"),
    ("image/webp", "webp"),
    ("dng", "dng"),
    ("image/dng", "dng"),
    ("heic", "heic"),
    ("image/heic", "heic"),
    ("heif", "heif"),
    ("image/heif", "heif"),
    ("mp2", "mp2"),
    ("mpa", "mp2"),
    ("mpe", "mp2"),
    ("mpeg", "mp2"),
    ("mpg", "mp2"),
    ("mpv2", "mp2"),
    ("video/mpeg", "mp2"),
    ("mp4", "mp4"),
    ("video/mp4", "mp4"),
    ("avif", "avif"),
    ("image/avif", "avif"),
    ("avi", "avi"),
    ("video/avi", "avi"),
    ("mov", "mov"),
    ("qt", "mov"),
    ("video/quicktime", "mov"),
    ("m4a", "m4a"),
    ("audio/mp4", "m4a"),
    ("mid", "mid"),
    ("rmi", "mid"),
    ("audio/mid", "mid"),
    ("mp3", "mp3"),
    ("audio/mpeg", "mp3"),
    ("wav", "wav"),
    ("audio/wav", "wav"),
    ("audio/wave", "wav"),
    ("audio.vnd.wave", "wav"),
    ("aif", "aif"),
    ("aifc", "aif"),
    ("aiff", "aif"),
    ("audio/aiff", "aif"),
    ("ogg", "ogg"),
    ("audio/ogg", "ogg"),
    ("pdf", "pdf"),
    ("application/pdf", "pdf"),
    ("ai", "ai"),
    ("application/postscript", "ai"),
    ("arw", "arw"),
    ("image/x-sony-arw", "arw"),
    ("nef", "nef"),
    ("image/x-nikon-nef", "nef"),
    ("c2pa", "c2pa"),
    ("application/x-c2pa-manifest-store", "c2pa"),
    ("application/c2pa", "c2pa"),
];

#[test]
fn every_extension_has_its_mime_type() {
    for (extension, mime) in MIME_TYPES {
        assert_eq!(extension_to_mime(extension), Some(*mime));
        assert_eq!(extension_to_mime(&extension.to_uppercase()), Some(*mime));
        assert_eq!(format_to_mime(extension), *mime);
    }
}

#[test]
fn every_format_has_its_extension() {
    for (format, extension) in EXTENSIONS {
        assert_eq!(format_to_extension(format), Some(*extension));
        assert_eq!(format_to_extension(&format.to_uppercase()), Some(*extension));
    }
}

#[test]
fn unknown_names_are_not_recognized() {
    for name in ["", "jp", "jpgs", " jpg", "jpg ", ".jpg", "image/jpeg", "txt", "\u{e4}"] {
        assert_eq!(extension_to_mime(name), None);
    }
    for name in ["", "txt", "image/x-adobe-dng", "audio/vnd.wave", "image", "image/jpeg "] {
        assert_eq!(format_to_extension(name), None);
    }
}

#[test]
fn other_formats_pass_unchanged() {
    assert_eq!(format_to_mime("image/jpeg"), "image/jpeg");
    assert_eq!(format_to_mime("Image/JPEG"), "Image/JPEG");
    assert_eq!(format_to_mime("whatever"), "whatever");
    assert_eq!(format_to_mime(""), "");
}

#[test]
fn letters_beyond_ascii_are_folded_too() {
    // The Kelvin sign has the lower case k.
    assert_eq!(format_to_extension("video/quic\u{212a}time"), Some("mov"));
    assert_eq!(format_to_extension("IMAGE/X-NI\u{212a}ON-NEF"), Some("nef"));
    // A dotless i is no i.
    assert_eq!(extension_to_mime("a\u{131}"), None);
}

#[test]
fn case_does_not_count() {
    for name in ["JPEG", "Jpeg", "jPeG", "jpeg"] {
        assert_eq!(extension_to_mime(name), Some("image/jpeg"));
        assert_eq!(format_to_extension(name), Some("jpg"));
        assert_eq!(format_from_path(Some(name), None).unwrap(), "image/jpeg");
    }
}

#[test]
fn normalizing_twice_is_normalizing_once() {
    for (extension, _) in MIME_TYPES {
        let once = format_to_mime(extension);
        assert_eq!(format_to_mime(&once), once);
    }
    assert_eq!(format_to_mime("application/x-c2pa-manifest-store"), "application/c2pa");
}

#[test]
fn mime_types_lead_back_to_extensions() {
    for (extension, mime) in MIME_TYPES {
        if *extension != "dng" {
            assert_eq!(format_to_extension(mime), format_to_extension(extension));
        }
        assert!(format_to_extension(extension).is_some());
    }
    assert_eq!(extension_to_mime("dng"), Some("image/x-adobe-dng"));
    assert_eq!(format_to_extension("image/x-adobe-dng"), None);
    assert_eq!(format_to_extension("image/dng"), Some("dng"));
}

#[test]
fn usual_extensions_are_fixed() {
    for (_, extension) in EXTENSIONS {
        assert_eq!(format_to_extension(extension), Some(*extension));
        assert!(extension_to_mime(extension).is_some());
    }
}

#[test]
fn binary_signatures_are_detected() {
    let cases: &[(&[u8], Option<&str>)] = &[
        (b"", None),
        (b"B", None),
        (b"\xff", None),
        (b"\xff\xd8\xff", Some("image/jpeg")),
        (b"\xff\xd8", None),
        (b"\x89PNG\r\n\x1a\n", Some("image/png")),
        (b"\x89PNG\r\n\x1a", None),
        (b"GIF87a", Some("image/gif")),
        (b"GIF89a...", Some("image/gif")),
        (b"GIF88a", None),
        (b"II*\0", Some("image/tiff")),
        (b"MM\0*", Some("image/tiff")),
        (b"II\0*", None),
        (b"BM", Some("image/bmp")),
        (b"%PDF-1.7", Some("application/pdf")),
        (b"%PDF", None),
        (b"ID3", Some("audio/mpeg")),
        (b"\xff\xfb", Some("audio/mpeg")),
        (b"\xff\xe0", Some("audio/mpeg")),
        (b"\xff\xdf", None),
        (b"\xfe\xfb", None),
        (b"\0\0\0\x10jumb", Some("application/c2pa")),
        (b"\0\0\0\x10jum", None),
        (b"plain text", None),
    ];
    for (data, mime) in cases {
        assert_eq!(get_mime_from_bytes(data), *mime, "{data:?}");
    }
}

#[test]
fn riff_forms_are_detected() {
    let riff = |form: &[u8]| [b"RIFF\x01\x02\x03\x04", form].concat();
    assert_eq!(get_mime_from_bytes(&riff(b"WEBP")), Some("image/webp"));
    assert_eq!(get_mime_from_bytes(&riff(b"WAVEfmt ")), Some("audio/wav"));
    assert_eq!(get_mime_from_bytes(&riff(b"AVI ")), Some("video/avi"));
    assert_eq!(get_mime_from_bytes(&riff(b"AVI")), None);
    assert_eq!(get_mime_from_bytes(&riff(b"ACON")), None);
    assert_eq!(get_mime_from_bytes(b"RIFFjumb"), Some("application/c2pa"));
}

#[test]
fn bmff_brands_are_detected() {
    let cases: &[(&str, Option<&str>)] = &[
        ("mp41", Some("video/mp4")),
        ("mp42", Some("video/mp4")),
        ("isom", Some("video/mp4")),
        ("iso2", Some("video/mp4")),
        ("iso3", Some("video/mp4")),
        ("iso4", Some("video/mp4")),
        ("iso5", Some("video/mp4")),
        ("iso6", Some("video/mp4")),
        ("avc1", Some("video/mp4")),
        ("mp71", Some("video/mp4")),
        ("m4a ", Some("audio/mp4")),
        ("m4v ", Some("video/x-m4v")),
        ("heic", Some("image/heic")),
        ("heix", Some("image/heic")),
        ("mif1", Some("image/heic")),
        ("msf1", Some("image/heic")),
        ("hevc", Some("image/heif")),
        ("hevx", Some("image/heif")),
        ("avif", Some("image/avif")),
        ("avis", Some("image/avif")),
        ("qt  ", Some("video/quicktime")),
        ("3gp1", Some("video/3gpp")),
        ("3gp2", Some("video/3gpp")),
        ("3gp3", Some("video/3gpp")),
        ("3gp4", Some("video/3gpp")),
        ("3gp5", Some("video/3gpp")),
        ("3gp6", Some("video/3gpp")),
        ("3gr6", Some("video/3gpp")),
        ("3gs6", Some("video/3gpp")),
        ("3ge6", Some("video/3gpp")),
        ("3g2a", Some("video/3g2")),
        ("3g2b", Some("video/3g2")),
        ("3g2c", Some("video/3g2")),
        ("M4A ", None),
        ("dash", None),
        ("jumb", None),
    ];
    for (brand, mime) in cases {
        let data = [b"\0\0\0\x18ftyp", brand.as_bytes(), b"\0\0\0\0"].concat();
        assert_eq!(get_mime_from_bytes(&data), *mime, "{brand}");
        assert_eq!(get_mime_from_bytes(&data[..11]), None);
    }
}

#[test]
fn svg_documents_are_detected() {
    let svg = Some("image/svg+xml");
    assert_eq!(get_mime_from_bytes(b"<svg"), svg);
    assert_eq!(get_mime_from_bytes(b" \t\r\n<svg xmlns='x'/>"), svg);
    assert_eq!(get_mime_from_bytes(b"<?xml version='1.0'?>\n<svg/>"), svg);
    assert_eq!(get_mime_from_bytes("<?xml?><!-- \u{e4} --><svg/>".as_bytes()), svg);
    assert_eq!(get_mime_from_bytes(b"<?xml version='1.0'?><html/>"), None);
    assert_eq!(get_mime_from_bytes(b"<html><svg/></html>"), None);
    assert_eq!(get_mime_from_bytes(b"x<svg"), None);
    assert_eq!(get_mime_from_bytes(b"<SVG"), None);
    assert_eq!(get_mime_from_bytes(b"<svg \xff"), None);
    assert_eq!(get_mime_from_bytes(b"\xef\xbb\xbf<svg"), None);
}

#[test]
fn only_unicode_white_space_is_skipped() {
    let white = |c: char| {
        matches!(
            c as u32,
            0x9..=0xd
                | 0x20
                | 0x85
                | 0xa0
                | 0x1680
                | 0x2000..=0x200a
                | 0x2028
                | 0x2029
                | 0x202f
                | 0x205f
                | 0x3000
        )
    };
    for c in '\0'..=char::MAX {
        let data = format!("{c}<svg");
        assert_eq!(get_mime_from_bytes(data.as_bytes()).is_some(), white(c), "{c:?}");
    }
}

#[test]
fn only_the_header_counts() {
    let document = |gap: usize| format!("<?xml{}<svg", " ".repeat(gap)).into_bytes();
    // The element ends with the last byte that is looked at, or behind it.
    assert_eq!(get_mime_from_bytes(&document(503)), Some("image/svg+xml"));
    assert_eq!(get_mime_from_bytes(&document(504)), None);
    // Bytes behind the header need not be text.
    let mut data = document(503);
    assert_eq!(data.len(), 512);
    data.extend_from_slice(&[0xff; 100]);
    assert_eq!(get_mime_from_bytes(&data), Some("image/svg+xml"));
    // A character that is cut by the end of the header makes it no text.
    let mut data = document(502);
    data.extend_from_slice("\u{e4}".as_bytes());
    assert_eq!(get_mime_from_bytes(&data), None);
    assert_eq!(get_mime_from_bytes(&data[..511]), Some("image/svg+xml"));
}

#[test]
fn detected_types_have_extensions() {
    for data in [
        &b"BM"[..],
        b"\xff\xfb",
        b"<svg",
        b"\0\0\0\x18ftypqt  ",
        b"\0\0\0\x10jumb",
    ] {
        let mime = get_mime_from_bytes(data).unwrap();
        assert!(format_to_extension(mime).is_some());
    }
    let m4v = get_mime_from_bytes(b"\0\0\0\x18ftypm4v ").unwrap();
    assert_eq!(format_to_extension(m4v), None);
}

#[test]
fn files_go_by_extension_then_content() {
    let png: &[u8] = b"\x89PNG\r\n\x1a\n";
    let known = |extension, content| format_from_path(extension, content);
    assert_eq!(known(Some("Jpg"), Some(png)).unwrap(), "image/jpeg");
    assert_eq!(known(Some("jpg"), None).unwrap(), "image/jpeg");
    assert_eq!(known(Some("dat"), Some(png)).unwrap(), "image/png");
    assert_eq!(known(None, Some(png)).unwrap(), "image/png");
    assert_eq!(known(Some("dat"), None), None);
    assert_eq!(known(None, None), None);
    assert_eq!(known(None, Some(b"text")), None);
}

#[test]
fn usual_extensions_keep_the_mime_type() {
    for (extension, mime) in MIME_TYPES {
        let usual = format_to_extension(extension).unwrap();
        assert_eq!(extension_to_mime(usual), Some(*mime));
    }
}

#[test]
fn known_names_are_folded_once() {
    for (name, _) in EXTENSIONS {
        let upper = name.to_uppercase();
        assert_eq!(format_to_extension(&upper.to_lowercase()), format_to_extension(&upper));
    }
    let kelvin = "VIDEO/QUIC\u{212a}TIME";
    assert_eq!(format_to_extension(&kelvin.to_lowercase()), format_to_extension(kelvin));
}

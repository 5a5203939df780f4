use c2pa::error::Error;
use c2pa::pdf::C2paPdf;
use c2pa::pdf_io::HashBlockObjectType;
use c2pa::pdf_io::HashObjectPositions;
use c2pa::pdf_io::PdfError;
use c2pa::pdf_io::PdfIO;
use c2pa::pdf_io::WriteStep;
use c2pa::pdf_io::choose_write_step;
use c2pa::pdf_io::list_position;
use c2pa::pdf_io::pick_manifest;

use lopdf::Dictionary;
use lopdf::Document;
use lopdf::Object;
use lopdf::Stream;
use lopdf::xref::XrefEntry;

static MANIFEST_BYTES: &[u8; 2] = &[10u8, 20u8];

// A document whose answers are set by hand, with no other behaviour.
#[derive(Default)]
struct MockC2paPdf {
    manifests: Option<Result<Option<Vec<&'static [u8]>>, String>>,
    xmp: Option<String>,
}

impl C2paPdf for MockC2paPdf {
    fn from_bytes(_raw: &[u8]) -> Result<Self, String> {
        Err("no document".to_string())
    }

    fn is_password_protected(&self) -> bool {
        false
    }

    fn has_c2pa_manifest(&self) -> bool {
        false
    }

    fn c2pa_manifest_content_range(&self, _raw: &[u8]) -> Option<(usize, usize)> {
        None
    }

    fn read_manifest_bytes(&self) -> Result<Option<Vec<&[u8]>>, String> {
        self.manifests.clone().unwrap()
    }

    fn read_xmp(&self) -> Option<String> {
        self.xmp.clone()
    }

    fn write_manifest_as_embedded_file(&mut self, _bytes: Vec<u8>) -> Result<(), String> {
        Err("no document".to_string())
    }

    fn replace_manifest_bytes(&mut self, _bytes: Vec<u8>) -> Result<(), String> {
        Err("no document".to_string())
    }

    fn remove_manifest_bytes(&mut self) -> Result<(), String> {
        Err("no document".to_string())
    }

    fn save_to(&mut self, _writer: &mut Vec<u8>) -> Result<(), String> {
        Err("no document".to_string())
    }
}

// A PDF document whose manifest store is an associated file of the catalog.
struct AssociatedFilePdf {
    document: Document,
}

impl AssociatedFilePdf {
    fn stores(&self) -> Vec<lopdf::ObjectId> {
        let mut ids = Vec::new();
        let Ok(catalog) = self.document.catalog() else {
            return ids;
        };
        let Ok(files) = catalog.get(b"AF").and_then(Object::as_array) else {
            return ids;
        };
        for file in files {
            let spec = file
                .as_reference()
                .and_then(|id| self.document.get_dictionary(id))
                .unwrap();
            let relationship = spec.get(b"AFRelationship").and_then(Object::as_name);
            if relationship.unwrap() == b"C2PA_Manifest" {
                let embedded = spec.get(b"EF").and_then(Object::as_dict).unwrap();
                ids.push(embedded.get(b"F").and_then(Object::as_reference).unwrap());
            }
        }
        ids
    }

    fn stream(&self, id: lopdf::ObjectId) -> &Stream {
        self.document.get_object(id).and_then(Object::as_stream).unwrap()
    }
}

impl C2paPdf for AssociatedFilePdf {
    fn from_bytes(raw: &[u8]) -> Result<Self, String> {
        match Document::load_mem(raw) {
            Ok(document) => Ok(AssociatedFilePdf { document }),
            Err(e) => Err(e.to_string()),
        }
    }

    fn is_password_protected(&self) -> bool {
        self.document.is_encrypted()
    }

    fn has_c2pa_manifest(&self) -> bool {
        !self.stores().is_empty()
    }

    fn c2pa_manifest_content_range(&self, raw: &[u8]) -> Option<(usize, usize)> {
        let id = *self.stores().first()?;
        let Some(XrefEntry::Normal { offset, .. }) = self.document.reference_table.get(id.0) else {
            return None;
        };
        let start = *offset as usize;
        let keyword = raw.get(start..)?.windows(7).position(|w| w == b"stream\n")?;
        let offset = start + keyword + 7;
        let stream = self.stream(id);
        let length = stream.content.len();
        if raw.get(offset..offset + length)? == stream.content.as_slice() {
            Some((offset, length))
        } else {
            None
        }
    }

    fn read_manifest_bytes(&self) -> Result<Option<Vec<&[u8]>>, String> {
        let stores = self.stores();
        if stores.is_empty() {
            return Ok(None);
        }
        Ok(Some(stores.iter().map(|id| self.stream(*id).content.as_slice()).collect()))
    }

    fn read_xmp(&self) -> Option<String> {
        let id = self
            .document
            .catalog()
            .and_then(|catalog| catalog.get(b"Metadata"))
            .and_then(Object::as_reference)
            .ok()?;
        String::from_utf8(self.stream(id).content.clone()).ok()
    }

    fn write_manifest_as_embedded_file(&mut self, bytes: Vec<u8>) -> Result<(), String> {
        let mut dict = Dictionary::new();
        dict.set("Type", Object::Name(b"EmbeddedFile".to_vec()));
        let store = self
            .document
            .add_object(Stream::new(dict, bytes).with_compression(false));
        let mut embedded = Dictionary::new();
        embedded.set("F", Object::Reference(store));
        let mut spec = Dictionary::new();
        spec.set("Type", Object::Name(b"Filespec".to_vec()));
        spec.set("AFRelationship", Object::Name(b"C2PA_Manifest".to_vec()));
        spec.set("EF", Object::Dictionary(embedded));
        let spec = self.document.add_object(spec);
        let catalog = self.document.catalog_mut().map_err(|e| e.to_string())?;
        let mut files = match catalog.get(b"AF").and_then(Object::as_array) {
            Ok(files) => files.clone(),
            Err(_) => Vec::new(),
        };
        files.push(Object::Reference(spec));
        catalog.set("AF", Object::Array(files));
        Ok(())
    }

    fn replace_manifest_bytes(&mut self, bytes: Vec<u8>) -> Result<(), String> {
        let store = *self.stores().first().ok_or("no manifest")?;
        self.document
            .get_object_mut(store)
            .and_then(Object::as_stream_mut)
            .map_err(|e| e.to_string())?
            .set_content(bytes);
        Ok(())
    }

    fn remove_manifest_bytes(&mut self) -> Result<(), String> {
        for store in self.stores() {
            self.document.objects.remove(&store);
        }
        let catalog = self.document.catalog_mut().map_err(|e| e.to_string())?;
        catalog.remove(b"AF");
        Ok(())
    }

    fn save_to(&mut self, writer: &mut Vec<u8>) -> Result<(), String> {
        self.document.save_to(writer).map_err(|e| e.to_string())
    }
}

const XMP: &str = "<x:xmpmeta xmlns:x=\"adobe:ns:meta/\"></x:xmpmeta>";

// A PDF of one empty page, with XMP metadata and no manifest.
fn basic_pdf() -> Vec<u8> {
    let mut document = Document::with_version("1.7");
    let pages = document.new_object_id();
    let mut page = Dictionary::new();
    page.set("Type", Object::Name(b"Page".to_vec()));
    page.set("Parent", Object::Reference(pages));
    page.set(
        "MediaBox",
        Object::Array(vec![0.into(), 0.into(), 595.into(), 842.into()]),
    );
    let page = document.add_object(page);
    let mut tree = Dictionary::new();
    tree.set("Type", Object::Name(b"Pages".to_vec()));
    tree.set("Kids", Object::Array(vec![Object::Reference(page)]));
    tree.set("Count", 1);
    document.objects.insert(pages, Object::Dictionary(tree));
    let mut dict = Dictionary::new();
    dict.set("Type", Object::Name(b"Metadata".to_vec()));
    dict.set("Subtype", Object::Name(b"XML".to_vec()));
    let metadata = document.add_object(Stream::new(dict, XMP.as_bytes().to_vec()));
    let mut catalog = Dictionary::new();
    catalog.set("Type", Object::Name(b"Catalog".to_vec()));
    catalog.set("Pages", Object::Reference(pages));
    catalog.set("Metadata", Object::Reference(metadata));
    let catalog = document.add_object(catalog);
    document.trailer.set("Root", Object::Reference(catalog));
    let mut raw = Vec::new();
    document.save_to(&mut raw).unwrap();
    raw
}

#[test]
fn test_error_reading_manifest_fails() {
    let mut mock_pdf = MockC2paPdf::default();
    mock_pdf.manifests = Some(Err(lopdf::Error::ReferenceLimit.to_string()));

    let pdf_io = PdfIO::new("pdf");
    assert!(matches!(
        pdf_io.read_manifest_bytes(mock_pdf),
        Err(Error::PdfReadError)
    ))
}

#[test]
fn test_no_manifest_found_returns_no_jumbf_error() {
    let mut mock_pdf = MockC2paPdf::default();
    mock_pdf.manifests = Some(Ok(None));
    let pdf_io = PdfIO::new("pdf");

    assert!(matches!(
        pdf_io.read_manifest_bytes(mock_pdf),
        Err(Error::JumbfNotFound)
    ));
}

#[test]
fn test_one_manifest_found_returns_bytes() {
    let mut mock_pdf = MockC2paPdf::default();
    mock_pdf.manifests = Some(Ok(Some(vec![MANIFEST_BYTES])));

    let pdf_io = PdfIO::new("pdf");
    assert_eq!(
        pdf_io.read_manifest_bytes(mock_pdf).unwrap(),
        MANIFEST_BYTES.to_vec()
    );
}

#[test]
fn test_multiple_manifest_fail_with_not_implemented_error() {
    let mut mock_pdf = MockC2paPdf::default();
    mock_pdf.manifests = Some(Ok(Some(vec![MANIFEST_BYTES, MANIFEST_BYTES, MANIFEST_BYTES])));

    let pdf_io = PdfIO::new("pdf");

    assert!(matches!(
        pdf_io.read_manifest_bytes(mock_pdf),
        Err(Error::NotImplemented(_))
    ));
}

#[test]
fn test_returns_none_when_no_xmp() {
    let mut mock_pdf = MockC2paPdf::default();
    mock_pdf.xmp = None;

    let pdf_io = PdfIO::new("pdf");
    assert_eq!(pdf_io.read_xmp_from_pdf(mock_pdf), None);
}

#[test]
fn test_returns_some_when_some_xmp() {
    let mut mock_pdf = MockC2paPdf::default();
    mock_pdf.xmp = Some("xmp".into());

    let pdf_io = PdfIO::new("pdf");
    assert!(pdf_io.read_xmp_from_pdf(mock_pdf).is_some());
}

#[test]
fn test_cai_read_finds_no_manifest() {
    let source = basic_pdf();
    let pdf_io = PdfIO::new("pdf");

    assert!(matches!(
        pdf_io.read_cai::<AssociatedFilePdf>(&source),
        Err(Error::JumbfNotFound)
    ));
}

#[test]
fn test_cai_read_xmp_finds_xmp_data() {
    let source = basic_pdf();

    let pdf_io = PdfIO::new("pdf");
    assert!(pdf_io.read_xmp::<AssociatedFilePdf>(&source).is_some());
    assert_eq!(pdf_io.read_xmp::<AssociatedFilePdf>(&source).unwrap(), XMP);
}

#[test]
fn test_read_cai_express_pdf_finds_single_manifest_store() {
    let source = embed(MANIFEST_BYTES);
    let pdf_io = PdfIO::new("pdf");
    assert!(pdf_io.read_cai::<AssociatedFilePdf>(&source).is_ok());
}

// Embeds `store_bytes` into the basic PDF and returns the serialized PDF.
fn embed(store_bytes: &[u8]) -> Vec<u8> {
    let pdf_io = PdfIO::new("pdf");
    pdf_io
        .write_cai::<AssociatedFilePdf>(&basic_pdf(), store_bytes)
        .unwrap()
}

fn cai_location(pdf: &[u8]) -> HashObjectPositions {
    let locations = PdfIO::new("pdf")
        .get_object_locations_from_stream::<AssociatedFilePdf>(pdf)
        .unwrap();
    *locations
        .iter()
        .find(|o| o.htype == HashBlockObjectType::Cai)
        .unwrap()
}

// The embedded manifest store must be recoverable after serialization, and the
// resolved object location must exactly cover the manifest bytes.
#[test]
fn test_object_location_exactly_covers_manifest() {
    let store = vec![0xABu8; 4096];
    let pdf = embed(&store);

    let pdf_io = PdfIO::new("pdf");
    let cai = cai_location(&pdf);

    assert_eq!(cai.length, store.len());
    assert!(cai.offset + cai.length <= pdf.len());
    assert_eq!(&pdf[cai.offset..cai.offset + cai.length], store.as_slice());

    // The recovered manifest must round-trip through the reader.
    assert_eq!(pdf_io.read_cai::<AssociatedFilePdf>(&pdf).unwrap(), store);
}

// Identical input yields identical bytes, and repeated location queries yield
// identical ranges.
#[test]
fn test_serialization_and_locations_are_deterministic() {
    let store = vec![0x5Au8; 2048];
    let first = embed(&store);
    let second = embed(&store);
    assert_eq!(first, second, "lopdf serialization must be deterministic");

    let pdf_io = PdfIO::new("pdf");
    assert_eq!(
        pdf_io
            .get_object_locations_from_stream::<AssociatedFilePdf>(&first)
            .unwrap(),
        pdf_io
            .get_object_locations_from_stream::<AssociatedFilePdf>(&first)
            .unwrap()
    );
}

// Replacing an embedded manifest with one of the same length must leave every
// byte outside the manifest content unchanged.
#[test]
fn test_same_size_replacement_is_byte_stable_outside_content() {
    let placeholder = vec![0u8; 4096];
    let with_placeholder = embed(&placeholder);

    let pdf_io = PdfIO::new("pdf");
    let cai = cai_location(&with_placeholder);

    let finalized_manifest = vec![0xFFu8; placeholder.len()];
    let finalized = pdf_io
        .write_cai::<AssociatedFilePdf>(&with_placeholder, &finalized_manifest)
        .unwrap();

    assert_eq!(with_placeholder.len(), finalized.len());
    assert_eq!(
        with_placeholder[..cai.offset],
        finalized[..cai.offset],
        "bytes before the manifest must be unchanged"
    );
    assert_eq!(
        with_placeholder[cai.offset + cai.length..],
        finalized[cai.offset + cai.length..],
        "bytes after the manifest must be unchanged"
    );
    assert_eq!(
        &finalized[cai.offset..cai.offset + cai.length],
        finalized_manifest.as_slice()
    );
}

// A document that fails as the first byte of its serialized form says.
struct FailingPdf {
    kind: u8,
}

impl C2paPdf for FailingPdf {
    fn from_bytes(raw: &[u8]) -> Result<Self, String> {
        match raw.first() {
            Some(kind) => Ok(FailingPdf { kind: *kind }),
            None => Err("empty file".to_string()),
        }
    }

    fn is_password_protected(&self) -> bool {
        self.kind == b'p'
    }

    fn has_c2pa_manifest(&self) -> bool {
        self.kind != b'n'
    }

    fn c2pa_manifest_content_range(&self, _raw: &[u8]) -> Option<(usize, usize)> {
        match self.kind {
            b'r' => Some((1, 2)),
            _ => None,
        }
    }

    fn read_manifest_bytes(&self) -> Result<Option<Vec<&[u8]>>, String> {
        Err("unreadable".to_string())
    }

    fn read_xmp(&self) -> Option<String> {
        None
    }

    fn write_manifest_as_embedded_file(&mut self, _bytes: Vec<u8>) -> Result<(), String> {
        match self.kind {
            b'e' => Err("no catalog".to_string()),
            _ => Ok(()),
        }
    }

    fn replace_manifest_bytes(&mut self, _bytes: Vec<u8>) -> Result<(), String> {
        Err("no embedded file".to_string())
    }

    fn remove_manifest_bytes(&mut self) -> Result<(), String> {
        match self.kind {
            b'e' => Err("no names".to_string()),
            _ => Ok(()),
        }
    }

    fn save_to(&mut self, writer: &mut Vec<u8>) -> Result<(), String> {
        match self.kind {
            b's' => Err("not saved".to_string()),
            kind => {
                writer.push(kind);
                Ok(())
            }
        }
    }
}

fn invalid<T>(reason: &str) -> Result<T, Error> {
    Err(Error::InvalidAsset(reason.to_string()))
}

#[test]
fn unparsable_assets_are_refused() {
    let pdf_io = PdfIO::new("pdf");
    assert_eq!(pdf_io.read_cai::<FailingPdf>(b""), invalid("empty file"));
    assert_eq!(pdf_io.write_cai::<FailingPdf>(b"", b"store"), invalid("empty file"));
    assert_eq!(
        pdf_io.get_object_locations_from_stream::<FailingPdf>(b""),
        invalid("empty file")
    );
    assert_eq!(
        pdf_io.remove_cai_store_from_stream::<FailingPdf>(b""),
        invalid("empty file")
    );
    assert_eq!(pdf_io.read_xmp::<FailingPdf>(b""), None);
    assert!(matches!(
        pdf_io.read_cai::<AssociatedFilePdf>(b"no PDF"),
        Err(Error::InvalidAsset(_))
    ));
}

#[test]
fn encrypted_assets_are_refused() {
    let pdf_io = PdfIO::new("pdf");
    assert_eq!(
        pdf_io.write_cai::<FailingPdf>(b"p", b"store"),
        invalid("cannot embed a C2PA manifest into an encrypted PDF")
    );
}

#[test]
fn failed_edits_are_reported() {
    let pdf_io = PdfIO::new("pdf");
    assert_eq!(pdf_io.write_cai::<FailingPdf>(b"e", b"store"), invalid("no catalog"));
    assert_eq!(
        pdf_io.write_cai::<FailingPdf>(b"r12", b"store"),
        invalid("no embedded file")
    );
    assert_eq!(pdf_io.write_cai::<FailingPdf>(b"s", b"store"), invalid("not saved"));
    assert_eq!(
        pdf_io.get_object_locations_from_stream::<FailingPdf>(b"e"),
        invalid("no catalog")
    );
    assert_eq!(
        pdf_io.get_object_locations_from_stream::<FailingPdf>(b"s"),
        invalid("not saved")
    );
    assert_eq!(
        pdf_io.get_object_locations_from_stream::<FailingPdf>(b"x"),
        Err(Error::EmbeddingError)
    );
    assert_eq!(
        pdf_io.remove_cai_store_from_stream::<FailingPdf>(b"e"),
        invalid("no names")
    );
    assert_eq!(
        pdf_io.remove_cai_store_from_stream::<FailingPdf>(b"s"),
        invalid("not saved")
    );
    assert_eq!(pdf_io.read_cai::<FailingPdf>(b"x"), Err(Error::PdfReadError));
}

#[test]
fn stores_of_the_same_length_are_patched_in_place() {
    let pdf_io = PdfIO::new("pdf");
    assert_eq!(
        pdf_io.write_cai::<FailingPdf>(b"r12345", b"ab").unwrap(),
        b"rab345"
    );
    let back = pdf_io.write_cai::<FailingPdf>(b"rab345", b"12").unwrap();
    assert_eq!(back, b"r12345");
}

#[test]
fn write_steps_follow_protection_and_length() {
    assert_eq!(choose_write_step(false, None, 7), Ok(WriteStep::Embed));
    assert_eq!(choose_write_step(false, Some((3, 6)), 7), Ok(WriteStep::Replace));
    assert_eq!(
        choose_write_step(false, Some((3, 7)), 7),
        Ok(WriteStep::Splice { offset: 3, length: 7 })
    );
    assert!(choose_write_step(true, None, 7).is_err());
    assert!(choose_write_step(true, Some((3, 7)), 7).is_err());
}

#[test]
fn manifests_are_picked_only_if_single() {
    assert_eq!(pick_manifest(Ok(Some(vec![b"one"]))), Ok(b"one".to_vec()));
    assert_eq!(
        pick_manifest(Ok(Some(vec![]))),
        Err(Error::NotImplemented(
            "c2pa-rs only supports reading PDFs with one manifest".to_string()
        ))
    );
    assert_eq!(pick_manifest(Ok(None)), Err(Error::JumbfNotFound));
    assert_eq!(pick_manifest(Err("broken".to_string())), Err(Error::PdfReadError));
}

#[test]
fn positions_are_listed_by_range() {
    assert_eq!(
        list_position(Some((5, 9))),
        Ok(vec![HashObjectPositions {
            offset: 5,
            length: 9,
            htype: HashBlockObjectType::Cai
        }])
    );
    assert_eq!(list_position(None), Err(Error::EmbeddingError));
}

#[test]
fn stores_of_another_length_are_replaced() {
    let pdf_io = PdfIO::new("pdf");
    let first = embed(b"a first store");
    let second = pdf_io
        .write_cai::<AssociatedFilePdf>(&first, b"a second, longer store")
        .unwrap();
    assert_eq!(
        pdf_io.read_cai::<AssociatedFilePdf>(&second).unwrap(),
        b"a second, longer store"
    );
    let cai = cai_location(&second);
    assert_eq!(&second[cai.offset..cai.offset + cai.length], b"a second, longer store");
}

#[test]
fn places_are_reserved_where_stores_come_to_lie() {
    let reserved = cai_location(&basic_pdf());
    assert_eq!(reserved.length, 64);
    let store = vec![0x11u8; 64];
    let located = cai_location(&embed(&store));
    assert_eq!(located, reserved);
}

#[test]
fn two_passes_bind() {
    let pdf_io = PdfIO::new("pdf");
    let first = embed(&vec![0u8; 100]);
    let store = vec![7u8; 100];
    let last = pdf_io.write_cai::<AssociatedFilePdf>(&first, &store).unwrap();
    let cai = cai_location(&first);
    assert_eq!(cai_location(&last), cai);
    assert_eq!(first[..cai.offset], last[..cai.offset]);
    assert_eq!(first[cai.offset + 100..], last[cai.offset + 100..]);
    assert_eq!(pdf_io.read_cai::<AssociatedFilePdf>(&last).unwrap(), store);
}

#[test]
fn removed_stores_are_gone() {
    let pdf_io = PdfIO::new("pdf");
    let signed = embed(b"a store");
    let cleared = pdf_io
        .remove_cai_store_from_stream::<AssociatedFilePdf>(&signed)
        .unwrap();
    assert_eq!(
        pdf_io.read_cai::<AssociatedFilePdf>(&cleared),
        Err(Error::JumbfNotFound)
    );
    assert_eq!(
        pdf_io
            .remove_cai_store_from_stream::<AssociatedFilePdf>(&cleared)
            .unwrap(),
        cleared
    );
    assert_eq!(
        pdf_io
            .remove_cai_store_from_stream::<FailingPdf>(b"n as it is")
            .unwrap(),
        b"n as it is"
    );
}

#[test]
fn handler_names_its_types_and_composes_stores() {
    let pdf_io = PdfIO::new("pdf");
    assert_eq!(pdf_io.supported_types(), ["pdf", "application/pdf"]);
    assert_eq!(
        pdf_io.compose_manifest(&[1, 2, 3], "pdf"),
        Ok(vec![1u8, 2, 3])
    );
}

#[test]
fn pdf_error_says_what_is_wrong() {
    let error = PdfError::InvalidFileSignature {
        reason: "no header".to_string(),
    };
    assert_eq!(error.message(), "invalid file signature: no header");
}

#[test]
fn writing_the_present_store_changes_nothing() {
    let pdf_io = PdfIO::new("pdf");
    let signed = embed(b"a store");
    assert_eq!(
        pdf_io.write_cai::<AssociatedFilePdf>(&signed, b"a store").unwrap(),
        signed
    );
    assert_eq!(
        pdf_io.write_cai::<FailingPdf>(b"r12345", b"12").unwrap(),
        b"r12345"
    );
}

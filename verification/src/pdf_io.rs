//! Reading and writing C2PA manifest stores in PDF assets.

use vstd::prelude::*;
use vstd::slice::slice_to_vec;
use crate::bytes::splice;
use crate::bytes::spliced;
use crate::error::outcome;
use crate::error::Error;
use crate::error::Failure;
use crate::pdf::manifest_bytes;
use crate::pdf::C2paPdf;
use crate::text::owned_text_of;

verus! {

/// How many bytes stand in for a manifest store that is not known yet.
pub const PLACEHOLDER_LEN: usize = 64;

/// The handler of PDF assets.
pub struct PdfIO {}

/// What a region of an asset holds that a data hash leaves out.
#[derive(Debug, Clone, Copy, PartialEq, Eq, Structural)]
pub enum HashBlockObjectType {
    /// The C2PA manifest store.
    Cai,
}

/// A region of an asset that a data hash leaves out.
#[derive(Debug, Clone, Copy, PartialEq, Eq, Structural)]
pub struct HashObjectPositions {
    /// Where the region starts.
    pub offset: usize,
    /// How many bytes it spans.
    pub length: usize,
    /// What it holds.
    pub htype: HashBlockObjectType,
}

/// How a manifest store is written into a PDF.
#[derive(Debug, Clone, Copy, PartialEq, Eq, Structural)]
pub enum WriteStep {
    /// The store's bytes are patched over those of the present one.
    Splice { offset: usize, length: usize },
    /// The present store is replaced in the document.
    Replace,
    /// The store is added to the document.
    Embed,
}

/// The one manifest store that was found, as far as it is the only one.
pub open spec fn only_manifest(found: Result<Option<Seq<Seq<u8>>>, Seq<char>>) -> Result<
    Seq<u8>,
    Failure,
> {
    match found {
        Err(_) => Err(Failure::PdfReadError),
        Ok(None) => Err(Failure::JumbfNotFound),
        Ok(Some(stores)) => if stores.len() == 1 {
            Ok(stores[0])
        } else {
            Err(Failure::NotImplemented("c2pa-rs only supports reading PDFs with one manifest"@))
        },
    }
}

/// What reading the manifest store of the asset `raw` gives.
pub open spec fn read<P: C2paPdf>(raw: Seq<u8>) -> Result<Seq<u8>, Failure> {
    match P::parsed(raw) {
        Err(reason) => Err(Failure::InvalidAsset(reason)),
        Ok(pdf) => only_manifest(pdf.manifests()),
    }
}

/// The XMP metadata of the asset `raw`.
pub open spec fn xmp_of<P: C2paPdf>(raw: Seq<u8>) -> Option<Seq<char>> {
    match P::parsed(raw) {
        Err(_) => None,
        Ok(pdf) => pdf.xmp(),
    }
}

/// How a manifest store of `store_len` bytes is to be written into a document,
/// by whether the document is encrypted and where its present store lies.
pub open spec fn write_step(
    protected: bool,
    range: Option<(usize, usize)>,
    store_len: int,
) -> Result<WriteStep, Failure> {
    if protected {
        Err(Failure::InvalidAsset("cannot embed a C2PA manifest into an encrypted PDF"@))
    } else {
        match range {
            None => Ok(WriteStep::Embed),
            Some((offset, length)) => if length == store_len {
                Ok(WriteStep::Splice { offset, length })
            } else {
                Ok(WriteStep::Replace)
            },
        }
    }
}

/// The serialized form of an edited document.
pub open spec fn saved<P: C2paPdf>(edited: Result<P, Seq<char>>) -> Result<Seq<u8>, Failure> {
    match edited {
        Err(reason) => Err(Failure::InvalidAsset(reason)),
        Ok(pdf) => match pdf.serialized() {
            Err(reason) => Err(Failure::InvalidAsset(reason)),
            Ok(bytes) => Ok(bytes),
        },
    }
}

/// What writing the manifest store `store` into the asset `raw` gives.
pub open spec fn written<P: C2paPdf>(raw: Seq<u8>, store: Seq<u8>) -> Result<Seq<u8>, Failure> {
    match P::parsed(raw) {
        Err(reason) => Err(Failure::InvalidAsset(reason)),
        Ok(pdf) => match write_step(
            pdf.protected(),
            pdf.content_range(raw),
            store.len() as int,
        ) {
            Err(failure) => Err(failure),
            Ok(WriteStep::Splice { offset, length }) => Ok(
                spliced(raw, offset as int, length as int, store),
            ),
            Ok(WriteStep::Replace) => saved(pdf.replacing(store)),
            Ok(WriteStep::Embed) => saved(pdf.embedding(store)),
        },
    }
}

/// The bytes that stand in for a manifest store that is not known yet.
pub open spec fn placeholder() -> Seq<u8> {
    Seq::new(PLACEHOLDER_LEN as nat, |i: int| 0u8)
}

/// Where a document's manifest store lies in its serialized form.
pub open spec fn position(range: Option<(usize, usize)>) -> Result<HashObjectPositions, Failure> {
    match range {
        None => Err(Failure::EmbeddingError),
        Some((offset, length)) => Ok(
            HashObjectPositions { offset, length, htype: HashBlockObjectType::Cai },
        ),
    }
}

/// Where the manifest store of the serialized document `raw` lies in it.
pub open spec fn position_in<P: C2paPdf>(raw: Seq<u8>) -> Result<HashObjectPositions, Failure> {
    match P::parsed(raw) {
        Err(reason) => Err(Failure::InvalidAsset(reason)),
        Ok(pdf) => position(pdf.content_range(raw)),
    }
}

/// Where the manifest store of the asset `raw` lies: in `raw` itself if it
/// holds one, and otherwise where a placeholder comes to lie.
pub open spec fn located<P: C2paPdf>(raw: Seq<u8>) -> Result<HashObjectPositions, Failure> {
    match P::parsed(raw) {
        Err(reason) => Err(Failure::InvalidAsset(reason)),
        Ok(pdf) => if pdf.content_range(raw) is Some {
            position(pdf.content_range(raw))
        } else {
            match saved(pdf.embedding(placeholder())) {
                Err(failure) => Err(failure),
                Ok(reserved) => position_in::<P>(reserved),
            }
        },
    }
}

/// The asset `raw` without its manifest store.
pub open spec fn removed<P: C2paPdf>(raw: Seq<u8>) -> Result<Seq<u8>, Failure> {
    match P::parsed(raw) {
        Err(reason) => Err(Failure::InvalidAsset(reason)),
        Ok(pdf) => if pdf.holds_manifest() {
            saved(pdf.removing())
        } else {
            Ok(raw)
        },
    }
}

/// Picks the manifest store among those that were found in a document.
pub fn pick_manifest(found: Result<Option<Vec<&[u8]>>, String>) -> (store: Result<Vec<u8>, Error>)
    ensures
        outcome(store) == only_manifest(manifest_bytes(found)),
{
    match found {
        Err(_) => Err(Error::PdfReadError),
        Ok(None) => Err(Error::JumbfNotFound),
        Ok(Some(stores)) => {
            if stores.len() == 1 {
                Ok(slice_to_vec(stores[0]))
            } else {
                Err(
                    Error::NotImplemented(
                        "c2pa-rs only supports reading PDFs with one manifest".to_string(),
                    ),
                )
            }
        },
    }
}

/// Decides how a manifest store of `store_len` bytes is written into a document.
///
/// An encrypted PDF is refused, as it cannot be saved without corrupting it. A
/// present store of the same length is patched in place, so that no byte outside
/// it changes.
pub fn choose_write_step(
    password_protected: bool,
    range: Option<(usize, usize)>,
    store_len: usize,
) -> (step: Result<WriteStep, Error>)
    ensures
        match step {
            Ok(step) => write_step(password_protected, range, store_len as int) == Ok::<
                WriteStep,
                Failure,
            >(step),
            Err(error) => write_step(password_protected, range, store_len as int) == Err::<
                WriteStep,
                Failure,
            >(error@),
        },
{
    if password_protected {
        return Err(
            Error::InvalidAsset("cannot embed a C2PA manifest into an encrypted PDF".to_string()),
        );
    }
    match range {
        None => Ok(WriteStep::Embed),
        Some((offset, length)) => {
            if length == store_len {
                Ok(WriteStep::Splice { offset, length })
            } else {
                Ok(WriteStep::Replace)
            }
        },
    }
}

/// Whether `locations` lists exactly the location given, or fails in the same
/// way.
pub open spec fn listed(
    locations: Result<Vec<HashObjectPositions>, Error>,
    location: Result<HashObjectPositions, Failure>,
) -> bool {
    match locations {
        Ok(locations) => location matches Ok(location) && locations@ == seq![location],
        Err(error) => location == Err::<HashObjectPositions, Failure>(error@),
    }
}

/// Lists the location of a manifest store by its content range; a store without
/// one cannot have been embedded.
pub fn list_position(range: Option<(usize, usize)>) -> (locations: Result<
    Vec<HashObjectPositions>,
    Error,
>)
    ensures
        listed(locations, position(range)),
{
    match range {
        Some((offset, length)) => {
            let location: HashObjectPositions = HashObjectPositions {
                offset,
                length,
                htype: HashBlockObjectType::Cai,
            };
            let locations: Vec<HashObjectPositions> = vec![location];
            assert(locations@ =~= seq![location]);
            Ok(locations)
        },
        None => Err(Error::EmbeddingError),
    }
}

/// Serializes a document.
fn save<P: C2paPdf>(pdf: P) -> (out: Result<Vec<u8>, Error>)
    ensures
        outcome(out) == saved::<P>(Ok(pdf)),
{
    let mut pdf: P = pdf;
    let mut buf: Vec<u8> = Vec::new();
    match pdf.save_to(&mut buf) {
        Ok(()) => Ok(buf),
        Err(reason) => Err(Error::InvalidAsset(reason)),
    }
}

impl PdfIO {
    /// Makes a handler; there is one for all kinds of PDF asset.
    pub fn new(_asset_type: &str) -> (handler: Self)
        ensures
            handler == (PdfIO {  }),
    {
        PdfIO {  }
    }

    /// Reads the manifest store of a document.
    pub fn read_manifest_bytes<P: C2paPdf>(&self, pdf: P) -> (store: Result<Vec<u8>, Error>)
        ensures
            outcome(store) == only_manifest(pdf.manifests()),
    {
        pick_manifest(pdf.read_manifest_bytes())
    }

    /// Reads the XMP metadata of a document.
    pub fn read_xmp_from_pdf<P: C2paPdf>(&self, pdf: P) -> (xmp: Option<String>)
        ensures
            owned_text_of(xmp) == pdf.xmp(),
    {
        pdf.read_xmp()
    }

    /// Reads the manifest store of the asset `raw`.
    pub fn read_cai<P: C2paPdf>(&self, raw: &[u8]) -> (store: Result<Vec<u8>, Error>)
        ensures
            outcome(store) == read::<P>(raw@),
    {
        match P::from_bytes(raw) {
            Ok(pdf) => self.read_manifest_bytes(pdf),
            Err(reason) => Err(Error::InvalidAsset(reason)),
        }
    }

    /// Reads the XMP metadata of the asset `raw`.
    pub fn read_xmp<P: C2paPdf>(&self, raw: &[u8]) -> (xmp: Option<String>)
        ensures
            owned_text_of(xmp) == xmp_of::<P>(raw@),
    {
        match P::from_bytes(raw) {
            Ok(pdf) => self.read_xmp_from_pdf(pdf),
            Err(_) => None,
        }
    }

    /// Writes the manifest store `store_bytes` into the asset `raw`.
    ///
    /// Saving a document does not give back every byte that was parsed. So where
    /// the asset already holds a store of the same length, its bytes are patched
    /// in place: a hash computed over the rest of the asset stays valid.
    pub fn write_cai<P: C2paPdf>(&self, raw: &[u8], store_bytes: &[u8]) -> (out: Result<
        Vec<u8>,
        Error,
    >)
        ensures
            outcome(out) == written::<P>(raw@, store_bytes@),
    {
        let mut pdf: P = match P::from_bytes(raw) {
            Ok(pdf) => pdf,
            Err(reason) => return Err(Error::InvalidAsset(reason)),
        };
        let protected: bool = pdf.is_password_protected();
        let range: Option<(usize, usize)> = if protected {
            None
        } else {
            pdf.c2pa_manifest_content_range(raw)
        };
        match choose_write_step(protected, range, store_bytes.len()) {
            Err(error) => Err(error),
            Ok(WriteStep::Splice { offset, length }) => Ok(
                splice(raw, offset, length, store_bytes),
            ),
            Ok(WriteStep::Replace) => match pdf.replace_manifest_bytes(slice_to_vec(store_bytes)) {
                Ok(()) => save(pdf),
                Err(reason) => Err(Error::InvalidAsset(reason)),
            },
            Ok(WriteStep::Embed) => match pdf.write_manifest_as_embedded_file(
                slice_to_vec(store_bytes),
            ) {
                Ok(()) => save(pdf),
                Err(reason) => Err(Error::InvalidAsset(reason)),
            },
        }
    }

    /// Tells where the manifest store of the asset `raw` lies, for a data hash to
    /// leave it out.
    ///
    /// Where the asset holds none yet, a placeholder is embedded to find out where
    /// a store would come to lie.
    pub fn get_object_locations_from_stream<P: C2paPdf>(&self, raw: &[u8]) -> (locations: Result<
        Vec<HashObjectPositions>,
        Error,
    >)
        ensures
            listed(locations, located::<P>(raw@)),
    {
        let mut pdf: P = match P::from_bytes(raw) {
            Ok(pdf) => pdf,
            Err(reason) => return Err(Error::InvalidAsset(reason)),
        };
        let present: Option<(usize, usize)> = pdf.c2pa_manifest_content_range(raw);
        if present.is_some() {
            return list_position(present);
        }
        let reserved: Vec<u8> = vec![0u8; PLACEHOLDER_LEN];
        assert(reserved@ =~= placeholder());
        if let Err(reason) = pdf.write_manifest_as_embedded_file(reserved) {
            return Err(Error::InvalidAsset(reason));
        }
        let buf: Vec<u8> = match save(pdf) {
            Ok(buf) => buf,
            Err(error) => return Err(error),
        };
        let reloaded: P = match P::from_bytes(buf.as_slice()) {
            Ok(reloaded) => reloaded,
            Err(reason) => return Err(Error::InvalidAsset(reason)),
        };
        list_position(reloaded.c2pa_manifest_content_range(buf.as_slice()))
    }

    /// Removes the manifest store from the asset `raw`; an asset without one is
    /// given back as it is.
    pub fn remove_cai_store_from_stream<P: C2paPdf>(&self, raw: &[u8]) -> (out: Result<
        Vec<u8>,
        Error,
    >)
        ensures
            outcome(out) == removed::<P>(raw@),
    {
        let mut pdf: P = match P::from_bytes(raw) {
            Ok(pdf) => pdf,
            Err(reason) => return Err(Error::InvalidAsset(reason)),
        };
        if !pdf.has_c2pa_manifest() {
            return Ok(slice_to_vec(raw));
        }
        match pdf.remove_manifest_bytes() {
            Ok(()) => save(pdf),
            Err(reason) => Err(Error::InvalidAsset(reason)),
        }
    }

    /// The asset types that this handler is for.
    pub fn supported_types(&self) -> (types: &'static [&'static str])
        ensures
            types@.map_values(|t: &'static str| t@) == seq!["pdf"@, "application/pdf"@],
    {
        let types: &'static [&'static str] = &["pdf", "application/pdf"];
        assert(types@.map_values(|t: &'static str| t@) =~= seq!["pdf"@, "application/pdf"@]);
        types
    }

    /// Composes a manifest store into the block that is embedded: the store as it
    /// is.
    pub fn compose_manifest(&self, manifest_data: &[u8], _format: &str) -> (block: Result<
        Vec<u8>,
        Error,
    >)
        ensures
            outcome(block) == Ok::<Seq<u8>, Failure>(manifest_data@),
    {
        Ok(slice_to_vec(manifest_data))
    }
}

/// What is wrong with a PDF file.
#[derive(Debug, PartialEq, Eq)]
pub enum PdfError {
    /// The file does not begin as a PDF does.
    InvalidFileSignature { reason: String },
}

impl PdfError {
    /// The error as a line of text.
    pub fn message(&self) -> (message: String)
        ensures
            match *self {
                PdfError::InvalidFileSignature { reason } => message@
                    == "invalid file signature: "@ + reason@,
            },
    {
        match self {
            PdfError::InvalidFileSignature { reason } => {
                let mut message: String = "invalid file signature: ".to_string();
                message.append(reason.as_str());
                message
            },
        }
    }
}

} // verus!

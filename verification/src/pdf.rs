//! The operations on PDF documents that embedding a manifest store rests on.

use vstd::pervasive::arbitrary;
use vstd::prelude::*;
use crate::text::owned_text_of;

verus! {

/// A parsed PDF document that can hold C2PA manifest stores.
///
/// An implementation answers for two things. Each method gives a result that
/// depends on the document and on its arguments alone: the spec functions name
/// these results. And a content range lies within the bytes that it is a range of.
///
/// An implementation in Verus must define every spec function: the default bodies
/// are one unknown value each, which no method can be shown to give. They are there
/// so that ordinary Rust, which has no spec functions, can implement the trait.
pub trait C2paPdf: Sized {
    /// The document that `raw` is the serialized form of, or why there is none.
    open spec fn parsed(raw: Seq<u8>) -> Result<Self, Seq<char>> {
        arbitrary()
    }

    /// Whether the document is encrypted.
    open spec fn protected(self) -> bool {
        arbitrary()
    }

    /// Whether the document holds a C2PA manifest.
    open spec fn holds_manifest(self) -> bool {
        arbitrary()
    }

    /// Offset and length of the manifest's bytes within `raw`, the serialized
    /// form of the document.
    open spec fn content_range(self, raw: Seq<u8>) -> Option<(usize, usize)> {
        arbitrary()
    }

    /// The bytes of each manifest store in the document, if it holds any.
    open spec fn manifests(self) -> Result<Option<Seq<Seq<u8>>>, Seq<char>> {
        arbitrary()
    }

    /// The XMP metadata of the document.
    open spec fn xmp(self) -> Option<Seq<char>> {
        arbitrary()
    }

    /// The document with `manifest` added as an embedded file.
    open spec fn embedding(self, manifest: Seq<u8>) -> Result<Self, Seq<char>> {
        arbitrary()
    }

    /// The document with its manifest replaced by `manifest`.
    open spec fn replacing(self, manifest: Seq<u8>) -> Result<Self, Seq<char>> {
        arbitrary()
    }

    /// The document without its manifest.
    open spec fn removing(self) -> Result<Self, Seq<char>> {
        arbitrary()
    }

    /// The serialized form of the document.
    open spec fn serialized(self) -> Result<Seq<u8>, Seq<char>> {
        arbitrary()
    }

    /// Parses a serialized document.
    fn from_bytes(raw: &[u8]) -> (pdf: Result<Self, String>)
        ensures
            match pdf {
                Ok(pdf) => Self::parsed(raw@) == Ok::<Self, Seq<char>>(pdf),
                Err(reason) => Self::parsed(raw@) == Err::<Self, Seq<char>>(reason@),
            },
    ;

    /// Whether the document is encrypted.
    fn is_password_protected(&self) -> (protected: bool)
        ensures
            protected == self.protected(),
    ;

    /// Whether the document holds a C2PA manifest.
    fn has_c2pa_manifest(&self) -> (found: bool)
        ensures
            found == self.holds_manifest(),
    ;

    /// Finds the manifest's bytes in the serialized form of the document.
    fn c2pa_manifest_content_range(&self, raw: &[u8]) -> (range: Option<(usize, usize)>)
        ensures
            range == self.content_range(raw@),
            range matches Some((offset, length)) ==> offset + length <= raw@.len(),
    ;

    /// Reads the bytes of each manifest store in the document.
    fn read_manifest_bytes(&self) -> (found: Result<Option<Vec<&[u8]>>, String>)
        ensures
            manifest_bytes(found) == self.manifests(),
    ;

    /// Reads the XMP metadata of the document.
    fn read_xmp(&self) -> (xmp: Option<String>)
        ensures
            owned_text_of(xmp) == self.xmp(),
    ;

    /// Adds a manifest store to the document as an embedded file.
    fn write_manifest_as_embedded_file(&mut self, bytes: Vec<u8>) -> (done: Result<(), String>)
        ensures
            edited(done, *final(self)) == old(self).embedding(bytes@),
    ;

    /// Replaces the manifest store in the document.
    fn replace_manifest_bytes(&mut self, bytes: Vec<u8>) -> (done: Result<(), String>)
        ensures
            edited(done, *final(self)) == old(self).replacing(bytes@),
    ;

    /// Removes the manifest store from the document.
    fn remove_manifest_bytes(&mut self) -> (done: Result<(), String>)
        ensures
            edited(done, *final(self)) == old(self).removing(),
    ;

    /// Appends the serialized form of the document to `writer`.
    fn save_to(&mut self, writer: &mut Vec<u8>) -> (done: Result<(), String>)
        ensures
            match done {
                Ok(()) => old(self).serialized() matches Ok(bytes) && final(writer)@ == old(
                    writer,
                )@ + bytes,
                Err(reason) => old(self).serialized() == Err::<Seq<u8>, Seq<char>>(reason@),
            },
    ;
}

/// The mathematical form of the manifest stores found in a document.
pub open spec fn manifest_bytes(found: Result<Option<Vec<&[u8]>>, String>) -> Result<
    Option<Seq<Seq<u8>>>,
    Seq<char>,
> {
    match found {
        Ok(Some(stores)) => Ok(Some(stores@.map_values(|store: &[u8]| store@))),
        Ok(None) => Ok(None),
        Err(reason) => Err(reason@),
    }
}

/// The mathematical form of an edit: the document after it, or why it failed.
pub open spec fn edited<P>(done: Result<(), String>, after: P) -> Result<P, Seq<char>> {
    match done {
        Ok(()) => Ok(after),
        Err(reason) => Err(reason@),
    }
}

} // verus!

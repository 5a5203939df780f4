//! What can go wrong when an asset is read or written.

use vstd::prelude::*;

verus! {

/// The ways in which an asset operation fails.
#[derive(Debug, PartialEq, Eq)]
pub enum Error {
    /// The asset cannot be parsed, or not edited, for the reason given.
    InvalidAsset(String),
    /// The manifests of a PDF cannot be read.
    PdfReadError,
    /// The asset holds no manifest store.
    JumbfNotFound,
    /// The operation is not supported, for the reason given.
    NotImplemented(String),
    /// An embedded manifest store cannot be found again.
    EmbeddingError,
}

/// The mathematical form of [`Error`], with texts as character sequences.
pub enum Failure {
    InvalidAsset(Seq<char>),
    PdfReadError,
    JumbfNotFound,
    NotImplemented(Seq<char>),
    EmbeddingError,
}

impl View for Error {
    type V = Failure;

    open spec fn view(&self) -> Failure {
        match *self {
            Error::InvalidAsset(reason) => Failure::InvalidAsset(reason@),
            Error::PdfReadError => Failure::PdfReadError,
            Error::JumbfNotFound => Failure::JumbfNotFound,
            Error::NotImplemented(reason) => Failure::NotImplemented(reason@),
            Error::EmbeddingError => Failure::EmbeddingError,
        }
    }
}

/// The mathematical form of an operation's outcome on bytes.
pub open spec fn outcome(result: Result<Vec<u8>, Error>) -> Result<Seq<u8>, Failure> {
    match result {
        Ok(bytes) => Ok(bytes@),
        Err(error) => Err(error@),
    }
}

} // verus!

//! Verified handling of C2PA manifest stores in PDF assets, and of the media
//! types by which assets are told apart.

pub mod bytes;
pub mod error;
pub mod mime;
pub mod mime_laws;
pub mod pdf;
pub mod pdf_io;
pub mod pdf_laws;
pub mod sniff;
pub mod sniff_laws;
pub mod text;

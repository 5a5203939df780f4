# c2pa

Verified handling of C2PA manifest stores in PDF assets, and of the media types
by which assets are told apart. Written in Verus.

- `src/mime.rs`: media types and file extensions by name, and files by extension
  and content.
- `src/sniff.rs`: media types by the first bytes of an asset.
- `src/mime_laws.rs`: how the tables and the detection agree with each other.
- `src/pdf.rs`: `C2paPdf`, the operations on PDF documents that the handler needs.
- `src/pdf_io.rs`: `PdfIO`, which reads, writes, locates and removes manifest
  stores.
- `src/pdf_laws.rs`: what holds of these operations together, such as that
  finalizing an asset changes no byte outside the manifest store.
- `src/text.rs`, `src/bytes.rs`, `src/error.rs`: text, bytes and errors.
- `app/`: streams, files and trait objects around the handler, for any
  implementation of `C2paPdf`.
- `tests/`: the library on concrete inputs, with PDF documents of `lopdf`.

The contracts of three functions of the standard library are taken on trust:
`str::to_lowercase`, `str::trim_start` and `core::str::from_utf8`. They stand in
`src/text.rs`. An implementation of `C2paPdf` answers for the contracts of that
trait.

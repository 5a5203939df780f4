//! Laws of writing, locating and reading manifest stores.

use vstd::prelude::*;
use crate::bytes::spliced;
use crate::error::outcome;
use crate::error::Error;
use crate::error::Failure;
use crate::pdf::edited;
use crate::pdf::manifest_bytes;
use crate::pdf::C2paPdf;
use crate::pdf_io::listed;
use crate::pdf_io::located;
use crate::pdf_io::only_manifest;
use crate::pdf_io::placeholder;
use crate::pdf_io::position;
use crate::pdf_io::position_in;
use crate::pdf_io::read;
use crate::pdf_io::removed;
use crate::pdf_io::saved;
use crate::pdf_io::write_step;
use crate::pdf_io::written;
use crate::pdf_io::xmp_of;
use crate::pdf_io::HashBlockObjectType;
use crate::pdf_io::HashObjectPositions;
use crate::pdf_io::WriteStep;
use crate::pdf_io::PLACEHOLDER_LEN;

verus! {

/// Whether the serialized document `bytes` holds `store` as its only manifest
/// store, and its content range covers exactly the bytes of `store`.
pub open spec fn carries<P: C2paPdf>(bytes: Seq<u8>, store: Seq<u8>) -> bool {
    &&& P::parsed(bytes) matches Ok(pdf)
    &&& pdf.manifests() == Ok::<Option<Seq<Seq<u8>>>, Seq<char>>(Some(seq![store]))
    &&& pdf.content_range(bytes) matches Some((offset, length))
    &&& offset + length <= bytes.len()
    &&& bytes.subrange(offset as int, offset + length) == store
}

/// Whether the document `pdf`, with the serialized form `raw`, holds at most one
/// manifest store: none, or one whose content range covers exactly its bytes.
pub open spec fn holds_at_most_one<P: C2paPdf>(raw: Seq<u8>, pdf: P) -> bool {
    match pdf.content_range(raw) {
        None => pdf.manifests() == Ok::<Option<Seq<Seq<u8>>>, Seq<char>>(None),
        Some((offset, length)) => carries::<P>(
            raw,
            raw.subrange(offset as int, offset + length),
        ),
    }
}

/// Whether unencrypted documents of the kind `P` keep what is stored in them: a
/// store that was embedded into a document without one, put in place of the only
/// one, or patched over the only one at the same length, is found in the
/// serialized document; and a patched store is found where the former one was.
/// Nothing is said of a store without bytes.
pub open spec fn keeps_stores<P: C2paPdf>() -> bool {
    &&& forall|raw: Seq<u8>, pdf: P, store: Seq<u8>|
        #![trigger pdf.content_range(raw), pdf.embedding(store)]
        P::parsed(raw) == Ok::<P, Seq<char>>(pdf) && !pdf.protected() && holds_at_most_one(raw, pdf)
            && pdf.content_range(raw) is None && store.len() > 0 ==> (saved(
            pdf.embedding(store),
        ) matches Ok(bytes) ==> carries::<P>(bytes, store))
    &&& forall|raw: Seq<u8>, pdf: P, store: Seq<u8>|
        #![trigger pdf.content_range(raw), pdf.replacing(store)]
        P::parsed(raw) == Ok::<P, Seq<char>>(pdf) && !pdf.protected() && holds_at_most_one(raw, pdf)
            && pdf.content_range(raw) is Some && store.len() > 0 ==> (saved(
            pdf.replacing(store),
        ) matches Ok(bytes) ==> carries::<P>(bytes, store))
    &&& forall|raw: Seq<u8>, pdf: P, offset: usize, length: usize, store: Seq<u8>|
        #![trigger pdf.content_range(raw), spliced(raw, offset as int, length as int, store)]
        P::parsed(raw) == Ok::<P, Seq<char>>(pdf) && !pdf.protected() && holds_at_most_one(raw, pdf)
            && pdf.content_range(raw) == Some((offset, length)) && store.len() == length
            && store.len() > 0 ==> {
            let patched = spliced(raw, offset as int, length as int, store);
            &&& carries::<P>(patched, store)
            &&& P::parsed(patched)->Ok_0.content_range(patched) == Some((offset, length))
        }
}

/// Whether the stores `a` and `b`, each embedded into `pdf`, come to lie at the
/// same offset, as far as both are found.
pub open spec fn places_alike<P: C2paPdf>(pdf: P, a: Seq<u8>, b: Seq<u8>) -> bool {
    saved(pdf.embedding(a)) matches Ok(with_a) ==> (saved(pdf.embedding(b)) matches Ok(with_b) ==> (
    position_in::<P>(with_a) matches Ok(at_a) ==> (position_in::<P>(with_b) matches Ok(at_b)
        ==> at_a.offset == at_b.offset)))
}

/// Whether `pdf` says that it holds a manifest exactly if there is one to be
/// read.
pub open spec fn knows_its_store<P: C2paPdf>(pdf: P) -> bool {
    pdf.holds_manifest() == (pdf.manifests() != Ok::<Option<Seq<Seq<u8>>>, Seq<char>>(None))
}

/// Whether the document `pdf` loses the store that is removed from it: none is
/// left in the document that is parsed from the serialized rest.
pub open spec fn drops_store<P: C2paPdf>(pdf: P) -> bool {
    saved(pdf.removing()) matches Ok(bytes) ==> P::parsed(bytes) matches Ok(after)
        && after.manifests() == Ok::<Option<Seq<Seq<u8>>>, Seq<char>>(None) && knows_its_store(after)
}

/// An encrypted PDF is refused, whatever store is to be written into it.
pub proof fn law_encrypted_is_refused<P: C2paPdf>(raw: Seq<u8>, pdf: P, store: Seq<u8>)
    requires
        P::parsed(raw) == Ok::<P, Seq<char>>(pdf),
        pdf.protected(),
    ensures
        written::<P>(raw, store) == Err::<Seq<u8>, Failure>(
            Failure::InvalidAsset("cannot embed a C2PA manifest into an encrypted PDF"@),
        ),
{
}

/// Bytes that cannot be parsed are neither read, written, searched nor edited:
/// each operation fails with the parser's reason, and there is no XMP metadata.
pub proof fn law_unparsable_is_refused<P: C2paPdf>(
    raw: Seq<u8>,
    reason: Seq<char>,
    store: Seq<u8>,
)
    requires
        P::parsed(raw) == Err::<P, Seq<char>>(reason),
    ensures
        read::<P>(raw) == Err::<Seq<u8>, Failure>(Failure::InvalidAsset(reason)),
        written::<P>(raw, store) == Err::<Seq<u8>, Failure>(
            Failure::InvalidAsset(reason),
        ),
        located::<P>(raw) == Err::<HashObjectPositions, Failure>(
            Failure::InvalidAsset(reason),
        ),
        removed::<P>(raw) == Err::<Seq<u8>, Failure>(
            Failure::InvalidAsset(reason),
        ),
        xmp_of::<P>(raw) is None,
{
}

/// A patch of the length that it replaces leaves every byte outside the patched
/// range as it was, and puts its own bytes into the range.
pub proof fn law_splice_changes_range_only(
    raw: Seq<u8>,
    offset: int,
    length: int,
    patch: Seq<u8>,
)
    requires
        0 <= offset,
        0 <= length,
        offset + length <= raw.len(),
        patch.len() == length,
    ensures
        spliced(raw, offset, length, patch).len() == raw.len(),
        spliced(raw, offset, length, patch).take(offset) == raw.take(offset),
        spliced(raw, offset, length, patch).skip(offset + length) == raw.skip(
            offset + length,
        ),
        spliced(raw, offset, length, patch).subrange(offset, offset + length)
            == patch,
{
    let out = spliced(raw, offset, length, patch);
    assert(out.take(offset) =~= raw.take(offset));
    assert(out.skip(offset + length) =~= raw.skip(offset + length));
    assert(out.subrange(offset, offset + length) =~= patch);
}

/// Of two patches over the same range the second one counts, and patching the
/// former bytes back restores the asset.
pub proof fn law_splice_overwrites(
    raw: Seq<u8>,
    offset: int,
    length: int,
    first: Seq<u8>,
    second: Seq<u8>,
)
    requires
        0 <= offset,
        0 <= length,
        offset + length <= raw.len(),
        first.len() == length,
    ensures
        spliced(
            spliced(raw, offset, length, first),
            offset,
            length,
            second,
        ) == spliced(raw, offset, length, second),
        spliced(
            spliced(raw, offset, length, first),
            offset,
            length,
            raw.subrange(offset, offset + length),
        ) == raw,
{
    let patched = spliced(raw, offset, length, first);
    assert(spliced(patched, offset, length, second) =~= spliced(
        raw,
        offset,
        length,
        second,
    ));
    assert(spliced(
        patched,
        offset,
        length,
        raw.subrange(offset, offset + length),
    ) =~= raw);
}

/// Finalizing an asset, that is writing a store of the length of the one that it
/// holds, keeps every byte outside the location reported for it. So a hash that
/// leaves the location out is the same before and after.
pub proof fn law_finalizing_is_byte_stable<P: C2paPdf>(
    raw: Seq<u8>,
    pdf: P,
    offset: usize,
    length: usize,
    store: Seq<u8>,
)
    requires
        P::parsed(raw) == Ok::<P, Seq<char>>(pdf),
        !pdf.protected(),
        pdf.content_range(raw) == Some((offset, length)),
        offset + length <= raw.len(),
        store.len() == length,
    ensures
        located::<P>(raw) == Ok::<HashObjectPositions, Failure>(
            HashObjectPositions { offset, length, htype: HashBlockObjectType::Cai },
        ),
        written::<P>(raw, store) matches Ok(out) && {
            &&& out.len() == raw.len()
            &&& out.take(offset as int) == raw.take(offset as int)
            &&& out.skip(offset + length) == raw.skip(offset + length)
            &&& out.subrange(offset as int, offset + length) == store
        },
{
    law_splice_changes_range_only(raw, offset as int, length as int, store);
}

/// Writing the store that an asset already holds gives the asset back unchanged.
pub proof fn law_rewriting_changes_nothing<P: C2paPdf>(
    raw: Seq<u8>,
    pdf: P,
    offset: usize,
    length: usize,
)
    requires
        P::parsed(raw) == Ok::<P, Seq<char>>(pdf),
        !pdf.protected(),
        pdf.content_range(raw) == Some((offset, length)),
        offset + length <= raw.len(),
    ensures
        written::<P>(raw, raw.subrange(offset as int, offset + length)) == Ok::<
            Seq<u8>,
            Failure,
        >(raw),
{
    let store = raw.subrange(offset as int, offset + length);
    assert(spliced(raw, offset as int, length as int, store) =~= raw);
}

/// A store that was written into an asset with at most one store is read back,
/// and the location reported for it covers exactly its bytes, for documents that
/// keep what is stored in them. The store may have any length but zero.
pub proof fn law_written_store_is_read_back<P: C2paPdf>(
    raw: Seq<u8>,
    pdf: P,
    store: Seq<u8>,
    out: Seq<u8>,
)
    requires
        keeps_stores::<P>(),
        P::parsed(raw) == Ok::<P, Seq<char>>(pdf),
        holds_at_most_one(raw, pdf),
        store.len() > 0,
        written::<P>(raw, store) == Ok::<Seq<u8>, Failure>(out),
    ensures
        carries::<P>(out, store),
        read::<P>(out) == Ok::<Seq<u8>, Failure>(store),
        located::<P>(out) matches Ok(location) && {
            &&& location.length == store.len()
            &&& location.offset + location.length <= out.len()
            &&& out.subrange(location.offset as int, location.offset + location.length) == store
        },
{
    match pdf.content_range(raw) {
        None => {
            assert(saved(pdf.embedding(store)) == Ok::<Seq<u8>, Failure>(out));
        },
        Some((offset, length)) => {
            if length == store.len() {
                assert(out == spliced(raw, offset as int, length as int, store));
            } else {
                assert(saved(pdf.replacing(store)) == Ok::<Seq<u8>, Failure>(out));
            }
        },
    }
}

/// Writing a store for a second time changes nothing, for documents that keep
/// what is stored in them and stay unencrypted.
pub proof fn law_writing_again_changes_nothing<P: C2paPdf>(
    raw: Seq<u8>,
    pdf: P,
    store: Seq<u8>,
    out: Seq<u8>,
)
    requires
        keeps_stores::<P>(),
        P::parsed(raw) == Ok::<P, Seq<char>>(pdf),
        holds_at_most_one(raw, pdf),
        store.len() > 0,
        written::<P>(raw, store) == Ok::<Seq<u8>, Failure>(out),
        P::parsed(out) matches Ok(with_store) && !with_store.protected(),
    ensures
        written::<P>(out, store) == Ok::<Seq<u8>, Failure>(out),
{
    law_written_store_is_read_back::<P>(raw, pdf, store, out);
    let with_store = P::parsed(out)->Ok_0;
    let (offset, length) = with_store.content_range(out)->Some_0;
    law_rewriting_changes_nothing::<P>(out, with_store, offset, length);
}

/// Finalizing an asset keeps the location of its store: what is reported before
/// and after is the same, every byte outside it is kept, and the new store is read
/// from it, for documents that keep what is stored in them. So a hash that leaves
/// the location out stays valid.
pub proof fn law_finalizing_keeps_location<P: C2paPdf>(
    raw: Seq<u8>,
    pdf: P,
    offset: usize,
    length: usize,
    store: Seq<u8>,
)
    requires
        keeps_stores::<P>(),
        P::parsed(raw) == Ok::<P, Seq<char>>(pdf),
        !pdf.protected(),
        holds_at_most_one(raw, pdf),
        pdf.content_range(raw) == Some((offset, length)),
        store.len() == length,
        store.len() > 0,
    ensures
        located::<P>(raw) == Ok::<HashObjectPositions, Failure>(
            HashObjectPositions { offset, length, htype: HashBlockObjectType::Cai },
        ),
        written::<P>(raw, store) matches Ok(out) && {
            &&& located::<P>(out) == located::<P>(raw)
            &&& out.len() == raw.len()
            &&& out.take(offset as int) == raw.take(offset as int)
            &&& out.skip(offset + length) == raw.skip(offset + length)
            &&& out.subrange(offset as int, offset + length) == store
            &&& read::<P>(out) == Ok::<Seq<u8>, Failure>(store)
        },
{
    law_finalizing_is_byte_stable::<P>(raw, pdf, offset, length, store);
    let out = spliced(raw, offset as int, length as int, store);
    law_written_store_is_read_back::<P>(raw, pdf, store, out);
}

/// Signing in two passes: after a store was written in the place of a later one
/// of the same length, writing the later one gives an asset with the same location
/// of the store, which differs from the first asset at that location only, and from
/// which the later store is read.
pub proof fn law_two_passes_bind<P: C2paPdf>(
    raw: Seq<u8>,
    pdf: P,
    reserved: Seq<u8>,
    first: Seq<u8>,
    store: Seq<u8>,
)
    requires
        keeps_stores::<P>(),
        P::parsed(raw) == Ok::<P, Seq<char>>(pdf),
        holds_at_most_one(raw, pdf),
        written::<P>(raw, reserved) == Ok::<Seq<u8>, Failure>(first),
        P::parsed(first) matches Ok(with_first) && !with_first.protected(),
        store.len() == reserved.len(),
        store.len() > 0,
    ensures
        located::<P>(first) matches Ok(location)
            && written::<P>(first, store) matches Ok(last) && {
            &&& last.len() == first.len()
            &&& last.take(location.offset as int) == first.take(location.offset as int)
            &&& last.skip(location.offset + location.length) == first.skip(
                location.offset + location.length,
            )
            &&& last.subrange(location.offset as int, location.offset + location.length) == store
            &&& located::<P>(last) == Ok::<HashObjectPositions, Failure>(location)
            &&& read::<P>(last) == Ok::<Seq<u8>, Failure>(store)
        },
{
    law_written_store_is_read_back::<P>(raw, pdf, reserved, first);
    let with_first = P::parsed(first)->Ok_0;
    let (offset, length) = with_first.content_range(first)->Some_0;
    law_finalizing_keeps_location::<P>(first, with_first, offset, length, store);
}

/// The offset that is reported for an asset without a store is that of a store
/// that is then written, where the document places the store like a placeholder.
/// For documents that keep what is stored in them, the length reported beforehand
/// is that of the placeholder, and afterwards the location covers exactly the
/// bytes of the store.
pub proof fn law_reserved_place_is_kept<P: C2paPdf>(
    raw: Seq<u8>,
    pdf: P,
    store: Seq<u8>,
    out: Seq<u8>,
    reserved: HashObjectPositions,
)
    requires
        P::parsed(raw) == Ok::<P, Seq<char>>(pdf),
        pdf.content_range(raw) is None,
        located::<P>(raw) == Ok::<HashObjectPositions, Failure>(reserved),
        written::<P>(raw, store) == Ok::<Seq<u8>, Failure>(out),
        places_alike(pdf, placeholder(), store),
    ensures
        position_in::<P>(out) matches Ok(location) ==> located::<P>(out) == Ok::<
            HashObjectPositions,
            Failure,
        >(location) && location.offset == reserved.offset,
        keeps_stores::<P>() && holds_at_most_one(raw, pdf) ==> reserved.length == PLACEHOLDER_LEN,
        keeps_stores::<P>() && holds_at_most_one(raw, pdf) && store.len() > 0 ==> (located::<P>(
            out,
        ) matches Ok(location) && {
            &&& location.offset == reserved.offset
            &&& location.length == store.len()
            &&& location.offset + location.length <= out.len()
            &&& out.subrange(location.offset as int, location.offset + location.length) == store
        }),
{
    assert(saved(pdf.embedding(store)) == Ok::<Seq<u8>, Failure>(out));
    if keeps_stores::<P>() && holds_at_most_one(raw, pdf) {
        let with_placeholder = saved(pdf.embedding(placeholder()))->Ok_0;
        assert(carries::<P>(with_placeholder, placeholder()));
        let (offset, length) = P::parsed(with_placeholder)->Ok_0.content_range(
            with_placeholder,
        )->Some_0;
        assert(with_placeholder.subrange(offset as int, offset + length).len() == length);
        assert(placeholder().len() == PLACEHOLDER_LEN);
        if store.len() > 0 {
            law_written_store_is_read_back::<P>(raw, pdf, store, out);
        }
    }
}

/// Removing the store of an asset that holds none changes nothing.
pub proof fn law_nothing_to_remove<P: C2paPdf>(raw: Seq<u8>, pdf: P)
    requires
        P::parsed(raw) == Ok::<P, Seq<char>>(pdf),
        !pdf.holds_manifest(),
    ensures
        removed::<P>(raw) == Ok::<Seq<u8>, Failure>(raw),
{
}

/// No store is read from an asset after it was removed, and removing it again
/// changes nothing, where the document loses the store that is removed from it.
pub proof fn law_removed_store_is_gone<P: C2paPdf>(raw: Seq<u8>, pdf: P, out: Seq<u8>)
    requires
        P::parsed(raw) == Ok::<P, Seq<char>>(pdf),
        knows_its_store(pdf),
        drops_store(pdf),
        removed::<P>(raw) == Ok::<Seq<u8>, Failure>(out),
    ensures
        read::<P>(out) == Err::<Seq<u8>, Failure>(Failure::JumbfNotFound),
        removed::<P>(out) == Ok::<Seq<u8>, Failure>(out),
{
    if pdf.holds_manifest() {
        assert(saved(pdf.removing()) == Ok::<Seq<u8>, Failure>(out));
    }
}

/// Writing succeeds where nothing stands against it: into an unencrypted asset
/// without a store, a store of any length is embedded, and the serialized document
/// with the store is what comes out.
pub proof fn law_writing_embeds<P: C2paPdf>(
    raw: Seq<u8>,
    pdf: P,
    store: Seq<u8>,
    with_store: P,
    bytes: Seq<u8>,
)
    requires
        P::parsed(raw) == Ok::<P, Seq<char>>(pdf),
        !pdf.protected(),
        pdf.content_range(raw) is None,
        pdf.embedding(store) == Ok::<P, Seq<char>>(with_store),
        with_store.serialized() == Ok::<Seq<u8>, Seq<char>>(bytes),
    ensures
        written::<P>(raw, store) == Ok::<Seq<u8>, Failure>(bytes),
{
}

/// Writing a store of another length than the present one succeeds where
/// replacing it does, whatever the two lengths: the serialized document with the
/// new store is what comes out.
pub proof fn law_writing_replaces<P: C2paPdf>(
    raw: Seq<u8>,
    pdf: P,
    offset: usize,
    length: usize,
    store: Seq<u8>,
    with_store: P,
    bytes: Seq<u8>,
)
    requires
        P::parsed(raw) == Ok::<P, Seq<char>>(pdf),
        !pdf.protected(),
        pdf.content_range(raw) == Some((offset, length)),
        store.len() != length,
        pdf.replacing(store) == Ok::<P, Seq<char>>(with_store),
        with_store.serialized() == Ok::<Seq<u8>, Seq<char>>(bytes),
    ensures
        written::<P>(raw, store) == Ok::<Seq<u8>, Failure>(bytes),
{
}

/// Where the document refuses to take a store, or cannot be serialized with it,
/// writing fails with the reason that the document gives.
pub proof fn law_failed_write_is_reported<P: C2paPdf>(
    raw: Seq<u8>,
    pdf: P,
    store: Seq<u8>,
    reason: Seq<char>,
)
    requires
        P::parsed(raw) == Ok::<P, Seq<char>>(pdf),
        !pdf.protected(),
        match pdf.content_range(raw) {
            None => pdf.embedding(store) == Err::<P, Seq<char>>(reason) || (pdf.embedding(
                store,
            ) matches Ok(after) && after.serialized() == Err::<Seq<u8>, Seq<char>>(reason)),
            Some((offset, length)) => length != store.len() && (pdf.replacing(store) == Err::<
                P,
                Seq<char>,
            >(reason) || (pdf.replacing(store) matches Ok(after) && after.serialized() == Err::<
                Seq<u8>,
                Seq<char>,
            >(reason))),
        },
    ensures
        written::<P>(raw, store) == Err::<Seq<u8>, Failure>(Failure::InvalidAsset(reason)),
{
}

/// The decision how to write rests on nothing but protection, presence and equal
/// length: lengths and offsets themselves rule nothing out.
pub proof fn law_write_step_is_decided(range: Option<(usize, usize)>, store_len: int)
    ensures
        range is None ==> write_step(false, range, store_len) == Ok::<WriteStep, Failure>(
            WriteStep::Embed,
        ),
        range matches Some((offset, length)) ==> (length != store_len ==> write_step(
            false,
            range,
            store_len,
        ) == Ok::<WriteStep, Failure>(WriteStep::Replace)),
        range matches Some((offset, length)) ==> (length == store_len ==> write_step(
            false,
            range,
            store_len,
        ) == Ok::<WriteStep, Failure>(WriteStep::Splice { offset, length })),
        write_step(true, range, store_len) == Err::<WriteStep, Failure>(
            Failure::InvalidAsset("cannot embed a C2PA manifest into an encrypted PDF"@),
        ),
{
}

/// A patch of any length stands between the bytes before and behind the range
/// that it replaces.
pub proof fn law_splice_joins(raw: Seq<u8>, offset: int, length: int, patch: Seq<u8>)
    requires
        0 <= offset,
        0 <= length,
        offset + length <= raw.len(),
    ensures
        spliced(raw, offset, length, patch).len() == raw.len() - length + patch.len(),
        forall|i: int|
            0 <= i < offset ==> #[trigger] spliced(raw, offset, length, patch)[i] == raw[i],
        forall|i: int|
            0 <= i < patch.len() ==> spliced(raw, offset, length, patch)[offset + i]
                == #[trigger] patch[i],
        forall|i: int|
            offset + length <= i < raw.len() ==> spliced(raw, offset, length, patch)[i - length
                + patch.len()] == #[trigger] raw[i],
{
}

/// The store that an asset holds is located where it lies, and there alone,
/// encrypted or not.
pub proof fn law_present_store_is_located<P: C2paPdf>(
    raw: Seq<u8>,
    pdf: P,
    offset: usize,
    length: usize,
)
    requires
        P::parsed(raw) == Ok::<P, Seq<char>>(pdf),
        pdf.content_range(raw) == Some((offset, length)),
    ensures
        located::<P>(raw) == Ok::<HashObjectPositions, Failure>(
            HashObjectPositions { offset, length, htype: HashBlockObjectType::Cai },
        ),
{
}

/// The reserve pass succeeds: where an asset of any size holds no store, the
/// location is that of a placeholder of zeros in the serialized document with the
/// placeholder.
pub proof fn law_place_is_reserved<P: C2paPdf>(
    raw: Seq<u8>,
    pdf: P,
    with_placeholder: P,
    bytes: Seq<u8>,
    reloaded: P,
    offset: usize,
    length: usize,
)
    requires
        P::parsed(raw) == Ok::<P, Seq<char>>(pdf),
        pdf.content_range(raw) is None,
        pdf.embedding(Seq::new(64, |i: int| 0u8)) == Ok::<P, Seq<char>>(with_placeholder),
        with_placeholder.serialized() == Ok::<Seq<u8>, Seq<char>>(bytes),
        P::parsed(bytes) == Ok::<P, Seq<char>>(reloaded),
        reloaded.content_range(bytes) == Some((offset, length)),
    ensures
        located::<P>(raw) == Ok::<HashObjectPositions, Failure>(
            HashObjectPositions { offset, length, htype: HashBlockObjectType::Cai },
        ),
{
    assert(placeholder() =~= Seq::new(64, |i: int| 0u8));
}

/// The reserve pass fails only where embedding the placeholder, serializing or
/// parsing the document fails, with the reason that is given there, or where the
/// placeholder is not found.
pub proof fn law_failed_reserve_is_reported<P: C2paPdf>(raw: Seq<u8>, pdf: P, reason: Seq<char>)
    requires
        P::parsed(raw) == Ok::<P, Seq<char>>(pdf),
        pdf.content_range(raw) is None,
    ensures
        pdf.embedding(Seq::new(64, |i: int| 0u8)) == Err::<P, Seq<char>>(reason) ==> located::<P>(
            raw,
        ) == Err::<HashObjectPositions, Failure>(Failure::InvalidAsset(reason)),
        pdf.embedding(Seq::new(64, |i: int| 0u8)) matches Ok(after) ==> {
            &&& after.serialized() == Err::<Seq<u8>, Seq<char>>(reason) ==> located::<P>(raw)
                == Err::<HashObjectPositions, Failure>(Failure::InvalidAsset(reason))
            &&& after.serialized() matches Ok(bytes) ==> {
                &&& P::parsed(bytes) == Err::<P, Seq<char>>(reason) ==> located::<P>(raw) == Err::<
                    HashObjectPositions,
                    Failure,
                >(Failure::InvalidAsset(reason))
                &&& P::parsed(bytes) matches Ok(reloaded) ==> (reloaded.content_range(bytes) is None
                    ==> located::<P>(raw) == Err::<HashObjectPositions, Failure>(
                    Failure::EmbeddingError,
                ))
            }
        },
{
    assert(placeholder() =~= Seq::new(64, |i: int| 0u8));
}

/// A content range is listed as one location of a manifest store; without one
/// there is nothing to list.
pub proof fn law_range_is_listed(
    range: Option<(usize, usize)>,
    locations: Result<Vec<HashObjectPositions>, Error>,
)
    requires
        listed(locations, position(range)),
    ensures
        range is None ==> locations is Err && locations->Err_0 is EmbeddingError,
        range matches Some((offset, length)) ==> {
            &&& locations matches Ok(list)
            &&& list@.len() == 1
            &&& list@[0].offset == offset
            &&& list@[0].length == length
            &&& list@[0].htype == HashBlockObjectType::Cai
        },
{
}

/// What is listed for an outcome is that outcome: its one location, or its failure.
pub proof fn law_listing_is_exact(
    locations: Result<Vec<HashObjectPositions>, Error>,
    location: Result<HashObjectPositions, Failure>,
)
    requires
        listed(locations, location),
    ensures
        location matches Ok(location) ==> {
            &&& locations matches Ok(list)
            &&& list@ == seq![location]
        },
        location matches Err(failure) ==> {
            &&& locations matches Err(error)
            &&& error@ == failure
        },
{
}

/// Removing succeeds where the document's own removal does, for assets of every
/// size: the serialized document without its manifest is what comes out.
pub proof fn law_removing_succeeds<P: C2paPdf>(
    raw: Seq<u8>,
    pdf: P,
    without_store: P,
    bytes: Seq<u8>,
)
    requires
        P::parsed(raw) == Ok::<P, Seq<char>>(pdf),
        pdf.holds_manifest(),
        pdf.removing() == Ok::<P, Seq<char>>(without_store),
        without_store.serialized() == Ok::<Seq<u8>, Seq<char>>(bytes),
    ensures
        removed::<P>(raw) == Ok::<Seq<u8>, Failure>(bytes),
{
}

/// Where the document cannot lose its manifest, or cannot be serialized without
/// it, removing fails with the reason that the document gives.
pub proof fn law_failed_removal_is_reported<P: C2paPdf>(raw: Seq<u8>, pdf: P, reason: Seq<char>)
    requires
        P::parsed(raw) == Ok::<P, Seq<char>>(pdf),
        pdf.holds_manifest(),
        pdf.removing() == Err::<P, Seq<char>>(reason) || (pdf.removing() matches Ok(after)
            && after.serialized() == Err::<Seq<u8>, Seq<char>>(reason)),
    ensures
        removed::<P>(raw) == Err::<Seq<u8>, Failure>(Failure::InvalidAsset(reason)),
{
}

/// The XMP metadata of an asset is that of its document, whatever else the
/// document holds: a manifest, a password, or neither.
pub proof fn law_xmp_is_the_documents<P: C2paPdf>(raw: Seq<u8>, pdf: P)
    requires
        P::parsed(raw) == Ok::<P, Seq<char>>(pdf),
    ensures
        xmp_of::<P>(raw) == pdf.xmp(),
{
}

/// Writing a store hides no metadata: where the document with the store has the
/// metadata of the one without, the same metadata is read before and after.
pub proof fn law_writing_hides_no_xmp<P: C2paPdf>(
    raw: Seq<u8>,
    pdf: P,
    store: Seq<u8>,
    out: Seq<u8>,
    with_store: P,
)
    requires
        P::parsed(raw) == Ok::<P, Seq<char>>(pdf),
        written::<P>(raw, store) == Ok::<Seq<u8>, Failure>(out),
        P::parsed(out) == Ok::<P, Seq<char>>(with_store),
        with_store.xmp() == pdf.xmp(),
    ensures
        xmp_of::<P>(out) == xmp_of::<P>(raw),
{
}

/// The only store of an asset is read, whatever its length and however the asset
/// is protected; none and several are told apart, and so is a document that cannot
/// be searched.
pub proof fn law_only_store_is_read<P: C2paPdf>(raw: Seq<u8>, pdf: P)
    requires
        P::parsed(raw) == Ok::<P, Seq<char>>(pdf),
    ensures
        forall|store: Seq<u8>|
            pdf.manifests() == Ok::<Option<Seq<Seq<u8>>>, Seq<char>>(Some(#[trigger] seq![store]))
                ==> read::<P>(raw) == Ok::<Seq<u8>, Failure>(store),
        pdf.manifests() == Ok::<Option<Seq<Seq<u8>>>, Seq<char>>(None) ==> read::<P>(raw) == Err::<
            Seq<u8>,
            Failure,
        >(Failure::JumbfNotFound),
        pdf.manifests() matches Ok(Some(stores)) ==> (stores.len() != 1 ==> read::<P>(raw) == Err::<
            Seq<u8>,
            Failure,
        >(Failure::NotImplemented("c2pa-rs only supports reading PDFs with one manifest"@))),
        pdf.manifests() is Err ==> read::<P>(raw) == Err::<Seq<u8>, Failure>(Failure::PdfReadError),
{
    law_only_store_is_picked(pdf.manifests());
}

/// Of the stores that were found, the only one is picked, whatever its length.
pub proof fn law_only_store_is_picked(found: Result<Option<Seq<Seq<u8>>>, Seq<char>>)
    ensures
        found matches Ok(Some(stores)) ==> (stores.len() == 1 ==> only_manifest(found) == Ok::<
            Seq<u8>,
            Failure,
        >(stores[0])),
        found matches Ok(Some(stores)) ==> (stores.len() != 1 ==> only_manifest(found) == Err::<
            Seq<u8>,
            Failure,
        >(Failure::NotImplemented("c2pa-rs only supports reading PDFs with one manifest"@))),
        found == Ok::<Option<Seq<Seq<u8>>>, Seq<char>>(None) ==> only_manifest(found) == Err::<
            Seq<u8>,
            Failure,
        >(Failure::JumbfNotFound),
        found is Err ==> only_manifest(found) == Err::<Seq<u8>, Failure>(Failure::PdfReadError),
{
}

/// An outcome in mathematical form is the outcome: the same bytes, or the same
/// error with the same text.
pub proof fn law_outcome_is_faithful(result: Result<Vec<u8>, Error>)
    ensures
        result matches Ok(bytes) ==> outcome(result) == Ok::<Seq<u8>, Failure>(bytes@),
        result matches Err(error) ==> outcome(result) is Err && match error {
            Error::InvalidAsset(reason) => outcome(result)->Err_0 == Failure::InvalidAsset(reason@),
            Error::PdfReadError => outcome(result)->Err_0 == Failure::PdfReadError,
            Error::JumbfNotFound => outcome(result)->Err_0 == Failure::JumbfNotFound,
            Error::NotImplemented(reason) => outcome(result)->Err_0 == Failure::NotImplemented(
                reason@,
            ),
            Error::EmbeddingError => outcome(result)->Err_0 == Failure::EmbeddingError,
        },
{
}

/// Stores in mathematical form are the stores that were found, byte by byte and in
/// their order.
pub proof fn law_found_stores_are_faithful(found: Result<Option<Vec<&[u8]>>, String>)
    ensures
        found matches Ok(Some(stores)) ==> {
            &&& manifest_bytes(found) matches Ok(Some(bytes))
            &&& bytes.len() == stores@.len()
            &&& forall|i: int| 0 <= i < bytes.len() ==> #[trigger] bytes[i] == stores@[i]@
        },
        found matches Ok(None) ==> manifest_bytes(found) == Ok::<
            Option<Seq<Seq<u8>>>,
            Seq<char>,
        >(None),
        found matches Err(reason) ==> manifest_bytes(found) == Err::<
            Option<Seq<Seq<u8>>>,
            Seq<char>,
        >(reason@),
{
}

/// An edit in mathematical form is the edit: the document after it, or the reason
/// why it failed.
pub proof fn law_edit_is_faithful<P: C2paPdf>(done: Result<(), String>, after: P)
    ensures
        done is Ok ==> edited(done, after) == Ok::<P, Seq<char>>(after),
        done matches Err(reason) ==> edited(done, after) == Err::<P, Seq<char>>(reason@),
{
}

} // verus!

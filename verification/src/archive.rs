use vstd::prelude::*;

use crate::protocol::ToolError;

verus! {

/// A `zip::ZipWriter` that builds its archive in memory, held in a private
/// field and known only through `zip_entries`.
#[verifier::external_body]
pub struct ArchiveWriter {
    inner: zip::ZipWriter<std::io::Cursor<Vec<u8>>>,
}

/// The name under which the handler source is stored in the archive.
pub const HANDLER_ENTRY: &'static str = "handler.py";

/// The largest handler source, in bytes, that is always packed: 1 GiB, well
/// below the 4 GiB that the zip crate allows an entry (compressed or not)
/// without the large-file option.
pub const ARCHIVE_LIMIT: usize = 0x4000_0000;

/// `zip::ZIP64_BYTES_THR`: the most bytes an entry may hold without the
/// large-file option.
pub const ZIP64_BYTES_LIMIT: u64 = 0xffff_ffff;

/// The entries that an in-memory `zip::ZipWriter` holds so far, in the order
/// they were started: its name and the data of each successful
/// `write_all` on it, in order.
pub uninterp spec fn zip_entries(w: ArchiveWriter) -> Seq<(Seq<char>, Seq<Seq<u8>>)>;

/// Whether the last entry of an in-memory `zip::ZipWriter` is still open for
/// writing (its `writing_to_file` flag).
pub uninterp spec fn zip_writing(w: ArchiveWriter) -> bool;

/// What `zip::ZipWriter::finish` leaves in memory for these entries, each
/// started with `SimpleFileOptions::default()` (deflate, the fixed
/// 1980-01-01 modification time of a build without the `time` feature) and
/// fed with these writes: the archive bytes, or `None` when it fails.
pub uninterp spec fn zip_archive_image(entries: Seq<(Seq<char>, Seq<Seq<u8>>)>) -> Option<Seq<u8>>;

/// How many bytes these writes hold in all.
pub open spec fn written_len(chunks: Seq<Seq<u8>>) -> nat
    decreases chunks.len(),
{
    if chunks.len() == 0 {
        0
    } else {
        written_len(chunks.drop_last()) + chunks.last().len()
    }
}

/// `zip::ZipWriter::new` over an empty `std::io::Cursor<Vec<u8>>`: an
/// archive under construction with no entries and none open.
#[verifier::external_body]
fn zip_writer_in_memory() -> (w: ArchiveWriter)
    ensures
        zip_entries(w) == Seq::<(Seq<char>, Seq<Seq<u8>>)>::empty(),
        !zip_writing(w),
{
    ArchiveWriter { inner: zip::ZipWriter::new(std::io::Cursor::new(Vec::new())) }
}

/// `zip::ZipWriter::start_file` with `SimpleFileOptions::default()`. A name
/// longer than 65535 bytes panics when its header is written, so names are
/// held to 16383 characters (at most 4 bytes each). On a writer with no
/// entries it succeeds: there is no file to finish, no name to clash with,
/// and the in-memory cursor accepts every write. When it succeeds, an entry of
/// that name with no data yet follows the earlier ones and is open for
/// writing. What an error leaves behind (a duplicate name leaves the earlier
/// entry closed) is not stated.
#[verifier::external_body]
fn zip_start_file(w: &mut ArchiveWriter, name: &str) -> (r: Result<(), zip::result::ZipError>)
    requires
        name@.len() <= 16383,
    ensures
        zip_entries(*old(w)).len() == 0 ==> r is Ok,
        r is Ok ==> zip_entries(*final(w)) == zip_entries(*old(w)).push(
            (name@, Seq::<Seq<u8>>::empty()),
        ),
        r is Ok ==> zip_writing(*final(w)),
{
    w.inner.start_file(name, zip::write::SimpleFileOptions::default())
}

/// `std::io::Write::write_all` on a `zip::ZipWriter`. Writing nothing
/// succeeds and changes nothing. Data is accepted only by an entry open for
/// writing ("No file has been started" otherwise); it then becomes the next
/// write of that entry, which stays open. With a single entry, open, the
/// write succeeds exactly when the entry's data stays within
/// `ZIP64_BYTES_LIMIT` bytes (beyond, "Large file option has not been set");
/// the in-memory cursor accepts every write. What an error leaves behind is
/// not stated.
#[verifier::external_body]
fn zip_write_all(w: &mut ArchiveWriter, data: &[u8]) -> (r: Result<(), std::io::Error>)
    ensures
        data@.len() == 0 ==> {
            &&& r is Ok
            &&& zip_entries(*final(w)) == zip_entries(*old(w))
            &&& zip_writing(*final(w)) == zip_writing(*old(w))
        },
        zip_writing(*old(w)) && zip_entries(*old(w)).len() == 1 && data@.len() > 0 ==> (r is Ok
            <==> written_len(zip_entries(*old(w))[0].1) + data@.len() <= ZIP64_BYTES_LIMIT),
        r is Ok && data@.len() > 0 ==> {
            let before = zip_entries(*old(w));
            &&& zip_writing(*old(w))
            &&& before.len() > 0
            &&& zip_writing(*final(w))
            &&& zip_entries(*final(w)) == before.drop_last().push(
                (before.last().0, before.last().1.push(data@)),
            )
        },
{
    std::io::Write::write_all(&mut w.inner, data)
}

/// `zip::ZipWriter::finish`, taking the bytes out of the cursor: when it
/// succeeds they are the archive image of the entries written, and with a
/// single entry it fails only when the image is `None`. The one check left
/// then is on the compressed size, so a single entry of at most
/// `ARCHIVE_LIMIT` bytes always succeeds: miniz_oxide, which deflates here,
/// falls back to a stored block (at most 5 bytes of overhead) whenever a block
/// would grow and otherwise spends at most 9 bits a byte, so the entry stays
/// far below `ZIP64_BYTES_LIMIT` bytes compressed; the in-memory cursor
/// accepts every write and seek.
#[verifier::external_body]
fn zip_finish(w: ArchiveWriter) -> (r: Result<Vec<u8>, zip::result::ZipError>)
    ensures
        r matches Ok(b) ==> zip_archive_image(zip_entries(w)) == Some(b@),
        zip_entries(w).len() == 1 && r is Err ==> zip_archive_image(zip_entries(w)) is None,
        zip_entries(w).len() == 1 && written_len(zip_entries(w)[0].1) <= ARCHIVE_LIMIT ==> r is Ok,
{
    match w.inner.finish() {
        Ok(c) => Ok(c.into_inner()),
        Err(e) => Err(e),
    }
}

/// The entries of the handler archive: `HANDLER_ENTRY`, written with the
/// source in one piece (no write at all when it is empty).
pub open spec fn handler_entries(source: Seq<u8>) -> Seq<(Seq<char>, Seq<Seq<u8>>)> {
    if source.len() == 0 {
        seq![(HANDLER_ENTRY@, Seq::<Seq<u8>>::empty())]
    } else {
        seq![(HANDLER_ENTRY@, seq![source])]
    }
}

/// The handler archive of `source`: the zip image of its single entry, or
/// `None` when the zip crate refuses it (more than `ZIP64_BYTES_LIMIT` bytes,
/// or too large once compressed).
pub open spec fn handler_archive_of(source: Seq<u8>) -> Option<Seq<u8>> {
    if source.len() <= ZIP64_BYTES_LIMIT {
        zip_archive_image(handler_entries(source))
    } else {
        None
    }
}

/// Packs the handler source into a ZIP archive with the single entry
/// `HANDLER_ENTRY`. It succeeds exactly when `handler_archive_of` has an
/// archive, which every source of at most `ARCHIVE_LIMIT` bytes has. A source
/// beyond `ZIP64_BYTES_LIMIT` bytes fails with the I/O error of the write;
/// one that does not fit once compressed, with the zip crate's error.
pub fn handler_archive(source: &[u8]) -> (r: Result<Vec<u8>, ToolError>)
    ensures
        match r {
            Ok(b) => handler_archive_of(source@) == Some(b@),
            Err(e) => {
                &&& handler_archive_of(source@) is None
                &&& if source@.len() > ZIP64_BYTES_LIMIT {
                    e is Io
                } else {
                    e is Zip
                }
            },
        },
        source@.len() <= ARCHIVE_LIMIT ==> r is Ok,
{
    let mut w = zip_writer_in_memory();
    proof {
        reveal_strlit("handler.py");
    }
    match zip_start_file(&mut w, HANDLER_ENTRY) {
        Ok(()) => {},
        Err(e) => return Err(ToolError::Zip(e)),
    }
    assert(written_len(Seq::<Seq<u8>>::empty()) == 0);
    match zip_write_all(&mut w, source) {
        Ok(()) => {},
        Err(e) => return Err(ToolError::Io(e)),
    }
    let ghost entries = zip_entries(w);
    assert(entries =~= handler_entries(source@)) by {
        if source@.len() > 0 {
            assert(Seq::<Seq<u8>>::empty().push(source@) =~= seq![source@]);
        }
    }
    proof {
        if source@.len() > 0 {
            assert(seq![source@].drop_last() =~= Seq::<Seq<u8>>::empty());
            assert(written_len(seq![source@]) == source@.len());
        }
    }
    match zip_finish(w) {
        Ok(b) => Ok(b),
        Err(e) => Err(ToolError::Zip(e)),
    }
}

} // verus!

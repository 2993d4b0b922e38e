//! Building the zip archive in memory.
//!
//! The archive is assembled in a `zip::ZipWriter` over an in-memory cursor:
//! one deflate-compressed entry per enumerated file, named by its relative
//! path, and a central directory written at the end. Entries are added one at
//! a time through [`ArchiveWriter::add_file`], so a caller holds at most one
//! file's contents while archiving; the embedding application writes the
//! finished bytes to the validated destination.
//!
//! The writer runs with fixed options over an infallible in-memory cursor, so
//! whether it accepts an entry, and what the finished bytes are, is a
//! function of the entries alone; the uninterpreted names below stand for
//! those functions.

use vstd::prelude::*;

use std::io::Cursor;
use std::io::Write;

use crate::errors::ExportError;

verus! {

/// The open archive writer of one export operation: a `zip::ZipWriter` over
/// an in-memory cursor. Opaque to the verifier; what it holds is spoken of
/// through [`archive_entries`] and [`writer_live`].
#[verifier::external_body]
pub struct ArchiveWriter {
    inner: zip::write::ZipWriter<Cursor<Vec<u8>>>,
}

/// The entries a writer holds so far, in the order they were started: for
/// each, its name and the bytes streamed into it.
pub uninterp spec fn archive_entries(w: ArchiveWriter) -> Seq<(Seq<char>, Seq<u8>)>;

/// A writer in the state that a succeeding history leaves it in: produced by
/// `new` and carried along by every operation that returned `Ok`. In such a
/// state everything the writer holds — the open entry, its counters, the
/// buffered bytes — is a function of [`archive_entries`] alone, so whether
/// the next operation succeeds is too.
pub uninterp spec fn writer_live(w: ArchiveWriter) -> bool;

/// Whether a live writer holding `entries` accepts a new entry under `name`
/// (the zip library rejects, for instance, a name already present or one
/// whose encoding overflows a header field).
pub uninterp spec fn start_ok(entries: Seq<(Seq<char>, Seq<u8>)>, name: Seq<char>) -> bool;

/// Whether a live writer holding `entries`, the last of them open, accepts
/// `data` streamed into that entry (the zip library rejects, for instance,
/// an entry growing past the plain format's size field).
pub uninterp spec fn append_ok(entries: Seq<(Seq<char>, Seq<u8>)>, data: Seq<u8>) -> bool;

/// Whether a live writer holding `entries` can be finalized: the central
/// directory and footer written out.
pub uninterp spec fn finish_ok(entries: Seq<(Seq<char>, Seq<u8>)>) -> bool;

/// The bytes of a finished archive holding exactly the given entries. The
/// writer is configured the same way for every export — deflate compression,
/// default options, no timestamp source — so the finished bytes are a
/// function of the entries alone.
pub uninterp spec fn zip_bytes(entries: Seq<(Seq<char>, Seq<u8>)>) -> Seq<u8>;

/// Relies on zip::ZipWriter::new: a writer over a fresh cursor holds no
/// entries, and its construction cannot fail.
#[verifier::external_body]
fn writer_new() -> (w: ArchiveWriter)
    ensures
        archive_entries(w) == Seq::<(Seq<char>, Seq<u8>)>::empty(),
        writer_live(w),
{
    ArchiveWriter { inner: zip::write::ZipWriter::new(Cursor::new(Vec::new())) }
}

/// Relies on zip::ZipWriter::start_file: on success it closes the entry
/// being written, if any, and opens a new, still empty entry under the given
/// name, with the deflate compression method of the supplied options. From a
/// live state its outcome is a function of the entries and the name.
#[verifier::external_body]
fn writer_start_entry(w: &mut ArchiveWriter, name: &str) -> (r: Result<(), String>)
    ensures
        writer_live(*old(w)) ==> (r is Ok <==> start_ok(archive_entries(*old(w)), name@)),
        writer_live(*old(w)) && r is Ok ==> archive_entries(*final(w)) == archive_entries(
            *old(w),
        ).push((name@, Seq::<u8>::empty())),
        writer_live(*old(w)) && r is Ok ==> writer_live(*final(w)),
{
    let options = zip::write::SimpleFileOptions::default().compression_method(
        zip::CompressionMethod::Deflated,
    );
    w.inner.start_file(name, options).map_err(|e| format!("Failed to add file to zip: {e}"))
}

/// Relies on the std::io::Write impl of zip::ZipWriter: writing succeeds only
/// while an entry is open — the last one started — and appends the bytes to
/// that entry's contents. From a live state its outcome is a function of the
/// entries and the data.
#[verifier::external_body]
fn writer_append(w: &mut ArchiveWriter, data: &[u8]) -> (r: Result<(), String>)
    requires
        archive_entries(*old(w)).len() > 0,
    ensures
        writer_live(*old(w)) ==> (r is Ok <==> append_ok(archive_entries(*old(w)), data@)),
        writer_live(*old(w)) && r is Ok ==> archive_entries(*final(w)) == archive_entries(
            *old(w),
        ).update(
            archive_entries(*old(w)).len() - 1,
            (
                archive_entries(*old(w)).last().0,
                archive_entries(*old(w)).last().1 + data@,
            ),
        ),
        writer_live(*old(w)) && r is Ok ==> writer_live(*final(w)),
{
    w.inner.write_all(data).map_err(|e| format!("Failed to write to zip: {e}"))
}

/// Relies on zip::ZipWriter::finish: it closes the entry being written, if
/// any, writes the central directory and returns the cursor with the bytes
/// of the whole archive. From a live state its outcome is a function of the
/// entries; for a writer that never held an entry there is nothing to close,
/// and the empty footer goes to an infallible cursor, so it succeeds.
#[verifier::external_body]
fn writer_finish(w: ArchiveWriter) -> (r: Result<Vec<u8>, String>)
    ensures
        writer_live(w) ==> (r is Ok <==> finish_ok(archive_entries(w))),
        writer_live(w) && archive_entries(w).len() == 0 ==> r is Ok,
        writer_live(w) && r is Ok ==> r.unwrap()@ == zip_bytes(archive_entries(w)),
{
    match w.inner.finish() {
        Ok(cursor) => Ok(cursor.into_inner()),
        Err(e) => Err(format!("Failed to finalize zip: {e}")),
    }
}

/// One file to archive: its forward-slash relative path and its contents.
pub struct FileData {
    pub rel_path: String,
    pub bytes: Vec<u8>,
}

/// The archive entries that a list of files stands for: one per file, in
/// order, named by the file's relative path and holding its bytes.
pub open spec fn entry_views(files: Seq<FileData>) -> Seq<(Seq<char>, Seq<u8>)> {
    files.map_values(|f: FileData| (f.rel_path@, f.bytes@))
}

/// The zip writer accepts this list of files, added in order into a fresh
/// archive: each entry can be started after the ones before it, each file's
/// bytes fit its entry, and the whole can be finalized.
pub open spec fn zip_accepts(files: Seq<FileData>) -> bool {
    &&& (forall|i: int|
        0 <= i < files.len() ==> start_ok(
            entry_views(files.take(i)),
            (#[trigger] files[i]).rel_path@,
        ))
    &&& (forall|i: int|
        0 <= i < files.len() ==> append_ok(
            entry_views(files.take(i)).push((files[i].rel_path@, Seq::<u8>::empty())),
            (#[trigger] files[i]).bytes@,
        ))
    &&& finish_ok(entry_views(files))
}

impl ArchiveWriter {
    /// A fresh writer over an empty in-memory archive.
    pub fn new() -> (w: ArchiveWriter)
        ensures
            archive_entries(w) == Seq::<(Seq<char>, Seq<u8>)>::empty(),
            writer_live(w),
    {
        writer_new()
    }

    /// Adds one file as the next archive entry: the entry is started under
    /// the file's relative path and the file's bytes are streamed into it.
    /// Succeeds exactly when the writer accepts both steps; on failure the
    /// error is an `ArchiveError` and the writer must not be used further.
    pub fn add_file(&mut self, file: &FileData) -> (r: Result<(), ExportError>)
        requires
            writer_live(*old(self)),
        ensures
            r is Ok <==> (start_ok(archive_entries(*old(self)), file.rel_path@) && append_ok(
                archive_entries(*old(self)).push((file.rel_path@, Seq::<u8>::empty())),
                file.bytes@,
            )),
            r is Ok ==> archive_entries(*final(self)) == archive_entries(*old(self)).push(
                (file.rel_path@, file.bytes@),
            ),
            r is Ok ==> writer_live(*final(self)),
            r is Err ==> r.unwrap_err() matches ExportError::ArchiveError { .. },
    {
        match writer_start_entry(self, file.rel_path.as_str()) {
            Ok(_) => (),
            Err(detail) => {
                return Err(ExportError::ArchiveError { detail });
            },
        }
        match writer_append(self, file.bytes.as_slice()) {
            Ok(_) => (),
            Err(detail) => {
                return Err(ExportError::ArchiveError { detail });
            },
        }
        proof {
            let opened = archive_entries(*old(self)).push((file.rel_path@, Seq::<u8>::empty()));
            assert(Seq::<u8>::empty() + file.bytes@ =~= file.bytes@);
            assert(opened.update(opened.len() - 1, (file.rel_path@, file.bytes@))
                =~= archive_entries(*old(self)).push((file.rel_path@, file.bytes@)));
        }
        Ok(())
    }

    /// Finalizes the archive — central directory and footer — and returns
    /// its bytes. Succeeds exactly when the writer accepts finalization, and
    /// always for an archive that holds no entry.
    pub fn finish(self) -> (r: Result<Vec<u8>, ExportError>)
        requires
            writer_live(self),
        ensures
            r is Ok <==> finish_ok(archive_entries(self)),
            archive_entries(self).len() == 0 ==> r is Ok,
            r matches Ok(bytes) ==> bytes@ == zip_bytes(archive_entries(self)),
            r is Err ==> r.unwrap_err() matches ExportError::ArchiveError { .. },
    {
        match writer_finish(self) {
            Ok(bytes) => Ok(bytes),
            Err(detail) => Err(ExportError::ArchiveError { detail }),
        }
    }
}

/// Packs the given files, in order, into a deflate-compressed zip archive
/// and returns its bytes. Succeeds if and only if the zip writer accepts
/// every entry and the finalization — in particular, an empty list always
/// yields a valid, empty archive; any refusal is surfaced as an
/// `ArchiveError` and the partial archive is discarded.
pub fn build_archive(files: &Vec<FileData>) -> (r: Result<Vec<u8>, ExportError>)
    ensures
        r is Ok <==> zip_accepts(files@),
        files@.len() == 0 ==> r is Ok,
        r matches Ok(bytes) ==> bytes@ == zip_bytes(entry_views(files@)),
        r is Err ==> r.unwrap_err() matches ExportError::ArchiveError { .. },
{
    let mut w = ArchiveWriter::new();
    proof {
        assert(entry_views(files@.take(0)) =~= archive_entries(w));
    }
    let mut i: usize = 0;
    while i < files.len()
        invariant
            i <= files@.len(),
            writer_live(w),
            archive_entries(w) == entry_views(files@.take(i as int)),
            forall|j: int|
                0 <= j < i ==> start_ok(
                    entry_views(files@.take(j)),
                    (#[trigger] files@[j]).rel_path@,
                ),
            forall|j: int|
                0 <= j < i ==> append_ok(
                    entry_views(files@.take(j)).push((files@[j].rel_path@, Seq::<u8>::empty())),
                    (#[trigger] files@[j]).bytes@,
                ),
        decreases files@.len() - i,
    {
        match w.add_file(&files[i]) {
            Ok(_) => (),
            Err(e) => {
                proof {
                    assert(!zip_accepts(files@));
                }
                return Err(e);
            },
        }
        proof {
            assert(files@.take(i + 1) =~= files@.take(i as int).push(files@[i as int]));
            assert(archive_entries(w) =~= entry_views(files@.take(i + 1)));
        }
        i += 1;
    }
    proof {
        assert(files@.take(files@.len() as int) =~= files@);
    }
    match w.finish() {
        Ok(bytes) => {
            proof {
                assert(zip_accepts(files@));
            }
            Ok(bytes)
        },
        Err(e) => {
            proof {
                assert(!zip_accepts(files@));
            }
            Err(e)
        },
    }
}

} // verus!

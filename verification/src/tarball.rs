//! Trusted boundary to the `tar` crate: an in-memory tar stream is modelled
//! by the sequence of entries appended to it, and its serialized form by the
//! name `tar_encoding`. Everything here is believed, not proved; each item's
//! doc comment names the `tar` function it relies on.

use vstd::prelude::*;

use crate::scan::EntryView;
use crate::scan::FileEntry;
use crate::scan::Repr;

verus! {

/// An in-memory tar stream under construction. Verus refuses the
/// declaration of `tar::Builder` itself (the `Write` bound on its type
/// parameter is a trait Verus has no specification for), so the builder is
/// held opaquely and described only through `tar_contents`.
#[verifier::external_body]
pub struct TarStream {
    builder: tar::Builder<std::io::Cursor<Vec<u8>>>,
}

/// The entries appended so far to an in-memory tar stream, in append order:
/// each with its relative path, modification time and contents.
pub uninterp spec fn tar_contents(s: TarStream) -> Seq<EntryView>;

/// The serialized tar stream holding exactly the given entries in order —
/// the bytes the builder's writer holds once the archive is finished.
pub uninterp spec fn tar_encoding(entries: Seq<EntryView>) -> Seq<u8>;

/// Relies on tar::Builder::new: a builder over a fresh in-memory cursor has
/// nothing appended.
#[verifier::external_body]
pub(crate) fn tar_stream_new() -> (s: TarStream)
    ensures
        tar_contents(s) == Seq::<EntryView>::empty(),
{
    TarStream { builder: tar::Builder::new(std::io::Cursor::new(Vec::new())) }
}

/// Relies on tar::Header (new_gnu, set_size, set_mtime, set_mode) and
/// tar::Builder::append_data: on success, exactly one entry with the given
/// path, modification time and bytes has been appended (append_data records
/// the path — through a GNU long-name extension entry when it is long — and
/// the header, then the bytes). The path must be normalized (`wf_path`):
/// append_data stores a path component by component, so repeated separators
/// and `.` components would be collapsed and a `..` component refused — a
/// normalized path alone is recorded verbatim. On an error the stream may
/// be torn and is not described further.
#[verifier::external_body]
pub(crate) fn tar_stream_append(
    s: &mut TarStream,
    rel_path: &String,
    mtime: u64,
    data: &Vec<u8>,
) -> (r: Result<(), String>)
    requires
        crate::scan::wf_path(rel_path@),
    ensures
        r is Ok ==> tar_contents(*final(s)) == tar_contents(*old(s)).push(
            (rel_path@, mtime, data@),
        ),
{
    let mut header = tar::Header::new_gnu();
    header.set_size(data.len() as u64);
    header.set_mtime(mtime);
    header.set_mode(0o644);
    s.builder.append_data(&mut header, rel_path.as_str(), data.as_slice()).map_err(
        |e| e.to_string(),
    )
}

/// Relies on tar::Builder::into_inner, which finishes the archive (appends
/// the trailing zero blocks) and hands back the cursor: the bytes are the
/// serialized form of exactly the appended entries.
#[verifier::external_body]
pub(crate) fn tar_stream_finish(s: TarStream) -> (r: Result<Vec<u8>, String>)
    ensures
        r matches Ok(v) ==> v@ == tar_encoding(tar_contents(s)),
{
    match s.builder.into_inner() {
        Ok(cursor) => Ok(cursor.into_inner()),
        Err(e) => Err(e.to_string()),
    }
}

/// Relies on tar::Archive: iterating `entries()` over the serialized form
/// of well-formed entries yields exactly those entries in order, each with
/// the path, modification time and contents it was appended with (the
/// serialized form determines them uniquely). On bytes that are no such
/// serialization nothing is promised beyond the result's own shape.
#[verifier::external_body]
pub(crate) fn tar_unpack(bytes: &Vec<u8>) -> (r: Result<Vec<FileEntry>, String>)
    ensures
        r matches Ok(v) ==> forall|es: Seq<EntryView>|
            crate::scan::wf_entries(es) && bytes@ == #[trigger] tar_encoding(es)
                ==> crate::scan::entries_view(v@) == es,
        r is Err ==> forall|es: Seq<EntryView>|
            crate::scan::wf_entries(es) ==> bytes@ != #[trigger] tar_encoding(es),
{
    let mut archive = tar::Archive::new(bytes.as_slice());
    let mut out: Vec<FileEntry> = Vec::new();
    for entry in archive.entries().map_err(|e| e.to_string())? {
        let mut entry = entry.map_err(|e| e.to_string())?;
        let rel_path = entry.path().map_err(|e| e.to_string())?.to_string_lossy().to_string();
        let mtime = entry.header().mtime().map_err(|e| e.to_string())?;
        let mut data = Vec::new();
        std::io::Read::read_to_end(&mut entry, &mut data).map_err(|e| e.to_string())?;
        out.push(FileEntry { rel_path, mtime, data, repr: Repr::Buffered });
    }
    Ok(out)
}

} // verus!

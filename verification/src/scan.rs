//! The data model of a scanned directory tree: one entry per regular file,
//! tagged with its relative path, size, modification time and payload
//! representation, plus the size-based policy that picks the representation.

use vstd::prelude::*;

verus! {

/// How a scanned file's payload travels through a compress pipeline.
///
/// A buffered entry was read fully into memory at scan time; a streamed
/// entry is kept as an open handle and read lazily at append time. The
/// representation is decided once at scan time and never changed afterwards.
#[derive(Debug, Copy, Clone, PartialEq, Eq, Structural)]
pub enum Repr {
    Buffered,
    Streamed,
}

/// One regular file under the archive root, as handed from the scanner to a
/// gather stage: its path relative to the root, its modification time in
/// seconds since the epoch, its contents, and the chosen representation.
pub struct FileEntry {
    pub rel_path: String,
    pub mtime: u64,
    pub data: Vec<u8>,
    pub repr: Repr,
}

/// The mathematical content of an entry: what a container records of it.
/// The representation is deliberately absent — it decides where the bytes
/// are read from, never what is archived.
pub type EntryView = (Seq<char>, u64, Seq<u8>);

impl FileEntry {
    pub open spec fn view(&self) -> EntryView {
        (self.rel_path@, self.mtime, self.data@)
    }
}

/// What the scanner reports for one filesystem object: either a complete
/// entry, or the record of a per-file failure (open, read or stat error)
/// that must not stop the other workers.
pub enum ScanOutcome {
    File(FileEntry),
    Failed(crate::failures::FailureRecord),
}

/// The views of a sequence of entries, in order.
pub open spec fn entries_view(v: Seq<FileEntry>) -> Seq<EntryView> {
    v.map_values(|e: FileEntry| e@)
}

/// Whether a separated component of `p` begins at position `i`.
pub open spec fn component_start(p: Seq<char>, i: int) -> bool {
    i == 0 || p[i - 1] == '/'
}

/// Whether a separated component of `p` ends at position `i`.
pub open spec fn component_end(p: Seq<char>, i: int) -> bool {
    i == p.len() - 1 || p[i + 1] == '/'
}

/// A normalized relative path, as the scanner produces them and as a
/// container can archive and reproduce verbatim: non-empty, free of the NUL
/// terminator, and every `/`-separated component non-empty and neither `.`
/// nor `..` — the tar format collapses repeated separators and `.`
/// components, and refuses `..`, so only normalized names survive a round
/// trip unchanged.
pub open spec fn wf_path(p: Seq<char>) -> bool {
    &&& 0 < p.len()
    &&& p[0] != '/'
    &&& p[p.len() - 1] != '/'
    &&& forall|i: int| 0 <= i < p.len() ==> p[i] != '\u{0}'
    &&& forall|i: int| 0 <= i < p.len() - 1 ==> !(#[trigger] p[i] == '/' && p[i + 1] == '/')
    &&& forall|i: int|
        0 <= i < p.len() ==> !(#[trigger] p[i] == '.' && component_start(p, i) && component_end(
            p,
            i,
        ))
    &&& forall|i: int|
        0 <= i < p.len() - 1 ==> !(#[trigger] p[i] == '.' && p[i + 1] == '.' && component_start(
            p,
            i,
        ) && component_end(p, i + 1))
}

/// An entry a container can archive and reproduce.
pub open spec fn wf_entry(e: EntryView) -> bool {
    wf_path(e.0)
}

pub open spec fn wf_entries(es: Seq<EntryView>) -> bool {
    forall|i: int| 0 <= i < es.len() ==> #[trigger] wf_entry(es[i])
}

/// The streaming threshold policy: a file is streamed exactly when the
/// threshold is enabled (non-zero) and the file's size is at or above it.
/// A size one below the threshold is buffered.
pub open spec fn streams(small_file_size: u64, size: u64) -> bool {
    small_file_size > 0 && size >= small_file_size
}

/// Decides the payload representation of one scanned file from the
/// configured threshold and the file's size, following `streams`.
pub fn plan_representation(small_file_size: u64, size: u64) -> (r: Repr)
    ensures
        r == Repr::Streamed <==> streams(small_file_size, size),
        r == Repr::Buffered <==> !streams(small_file_size, size),
{
    if small_file_size > 0 && size >= small_file_size {
        Repr::Streamed
    } else {
        Repr::Buffered
    }
}

/// What a container records of an entry does not depend on the chosen
/// representation: a buffered and a streamed entry with the same path,
/// modification time and bytes are archived identically, so both sides of
/// the threshold round-trip alike.
pub proof fn lemma_view_ignores_repr(a: FileEntry, b: FileEntry)
    requires
        a.rel_path@ == b.rel_path@,
        a.mtime == b.mtime,
        a.data@ == b.data@,
    ensures
        a@ == b@,
{
}

/// The threshold boundary: with any enabled threshold, a file of exactly the
/// threshold size is streamed, and one a single byte smaller is buffered.
pub proof fn lemma_threshold_boundary(small_file_size: u64)
    requires
        small_file_size > 0,
    ensures
        streams(small_file_size, small_file_size),
        !streams(small_file_size, (small_file_size - 1) as u64),
{
}

} // verus!

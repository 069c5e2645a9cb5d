//! The tar-mode pipelines. Compressing gathers scanned entries, in arrival
//! order, into a single sequential tar stream — the container format has no
//! random access and must be written in one linear pass — and wraps it in
//! the zstd block compressor. Decompressing decodes the stream and hands the
//! entries back for the parallel disk writers. Per-file scan failures are
//! aggregated, never fatal to siblings; an append or stream error is fatal.

use vstd::prelude::*;

use crate::block::zstd_compress;
use crate::block::zstd_decoding;
use crate::block::zstd_decompress;
use crate::failures::FailureLog;
use crate::scan::entries_view;
use crate::scan::wf_entries;
use crate::scan::wf_entry;
use crate::scan::wf_path;
use crate::scan::EntryView;
use crate::scan::FileEntry;
use crate::scan::ScanOutcome;
use crate::tarball::tar_contents;
use crate::tarball::tar_encoding;
use crate::tarball::tar_stream_append;
use crate::tarball::tar_stream_finish;
use crate::tarball::tar_stream_new;
use crate::tarball::tar_unpack;
use crate::tarball::TarStream;

verus! {

/// The views of the complete entries among the scanner's outcomes, in order.
pub open spec fn file_views(items: Seq<ScanOutcome>) -> Seq<EntryView>
    decreases items.len(),
{
    if items.len() == 0 {
        Seq::<EntryView>::empty()
    } else {
        file_views(items.drop_last()) + (match items.last() {
            ScanOutcome::File(e) => seq![e@],
            ScanOutcome::Failed(_) => Seq::<EntryView>::empty(),
        })
    }
}

/// What the tar container asks of a scan stream: every complete entry's
/// relative path normalized, per `wf_path`.
pub open spec fn wf_tar_items(items: Seq<ScanOutcome>) -> bool {
    forall|i: int|
        0 <= i < items.len() ==> ((#[trigger] items[i]) matches ScanOutcome::File(e) ==> wf_path(
            e.rel_path@,
        ))
}

/// Normalized paths item by item give well-formed entry views as a whole.
pub proof fn lemma_wf_file_views(items: Seq<ScanOutcome>)
    requires
        wf_tar_items(items),
    ensures
        wf_entries(file_views(items)),
    decreases items.len(),
{
    if items.len() > 0 {
        let prefix = items.drop_last();
        assert(wf_tar_items(prefix)) by {
            assert forall|i: int| 0 <= i < prefix.len() implies ((#[trigger] prefix[i]) matches
                ScanOutcome::File(e) ==> wf_path(e.rel_path@)) by {
                assert(prefix[i] == items[i]);
            }
        }
        lemma_wf_file_views(prefix);
        assert(items[items.len() - 1] == items.last());
        assert forall|i: int| 0 <= i < file_views(items).len() implies #[trigger] wf_entry(
            file_views(items)[i],
        ) by {
            if i < file_views(prefix).len() {
                assert(file_views(items)[i] == file_views(prefix)[i]);
                assert(wf_entry(file_views(prefix)[i]));
            }
        }
    } else {
        assert(file_views(items).len() == 0);
    }
}

/// The views of the failure records among the scanner's outcomes, in order.
pub open spec fn failed_views(items: Seq<ScanOutcome>) -> Seq<(Seq<char>, Seq<char>)>
    decreases items.len(),
{
    if items.len() == 0 {
        Seq::<(Seq<char>, Seq<char>)>::empty()
    } else {
        failed_views(items.drop_last()) + (match items.last() {
            ScanOutcome::File(_) => Seq::<(Seq<char>, Seq<char>)>::empty(),
            ScanOutcome::Failed(rec) => seq![rec@],
        })
    }
}

/// The single sequential writer of the tar-mode compress pipeline: entries
/// are appended one at a time, in receipt order, into one linear tar
/// stream, and the finished stream is handed whole to the block compressor.
pub struct TarGather {
    stream: TarStream,
}

impl TarGather {
    /// The entries appended so far, in order.
    pub closed spec fn entries(&self) -> Seq<EntryView> {
        tar_contents(self.stream)
    }

    pub fn new() -> (r: TarGather)
        ensures
            r.entries() == Seq::<EntryView>::empty(),
    {
        TarGather { stream: tar_stream_new() }
    }

    /// Appends one entry to the tar stream; its path must be normalized,
    /// per `wf_path`. An error means the stream is torn and the gather must
    /// be abandoned — a partially written container cannot be repaired.
    pub fn append(&mut self, e: &FileEntry) -> (r: Result<(), String>)
        requires
            wf_path(e.rel_path@),
        ensures
            r is Ok ==> final(self).entries() == old(self).entries().push(e@),
    {
        tar_stream_append(&mut self.stream, &e.rel_path, e.mtime, &e.data)
    }

    /// Finishes the tar stream and wraps it in the block compressor, which
    /// is handed the worker count so it can compress frames in parallel. On
    /// success the container decodes back to the tar serialization of
    /// exactly the appended entries.
    pub fn finish(self, level: u8, long_distance: bool, workers: u32) -> (r: Result<
        Vec<u8>,
        String,
    >)
        requires
            1 <= level <= 22,
        ensures
            r matches Ok(c) ==> zstd_decoding(c@) == Some(tar_encoding(self.entries())),
    {
        let tar_bytes = tar_stream_finish(self.stream)?;
        zstd_compress(&tar_bytes, level, long_distance, workers)
    }
}

/// The tar-mode compress pipeline over a stream of scan outcomes: every
/// complete entry is appended, in order, to one sequential tar stream, which
/// the block compressor then wraps; every scan failure is aggregated and
/// fatal to nothing but the operation's final verdict. On success the
/// container decodes to the tar serialization of exactly the scanned
/// entries, and the log holds exactly the scan failures — the operation as
/// a whole is to be reported failed whenever that log is non-empty, even
/// though the container is complete and valid.
pub fn tar_compress_pipeline(
    items: &Vec<ScanOutcome>,
    level: u8,
    long_distance: bool,
    workers: u32,
) -> (r: Result<(Vec<u8>, FailureLog), String>)
    requires
        1 <= level <= 22,
        wf_tar_items(items@),
    ensures
        r matches Ok(p) ==> {
            &&& zstd_decoding(p.0@) == Some(tar_encoding(file_views(items@)))
            &&& p.1@ == failed_views(items@)
            &&& p.1.spec_ok() <==> failed_views(items@).len() == 0
        },
{
    let mut gather = TarGather::new();
    let mut log = FailureLog::new();
    let mut i: usize = 0;
    while i < items.len()
        invariant
            i <= items.len(),
            wf_tar_items(items@),
            gather.entries() == file_views(items@.take(i as int)),
            log@ == failed_views(items@.take(i as int)),
        decreases items.len() - i,
    {
        match &items[i] {
            ScanOutcome::File(e) => {
                proof {
                    assert(items@[i as int] matches ScanOutcome::File(e2) ==> wf_path(
                        e2.rel_path@,
                    ));
                }
                if let Err(m) = gather.append(e) {
                    return Err(m);
                }
                log.record_success();
            },
            ScanOutcome::Failed(rec) => {
                log.record_failure(rec.clone());
            },
        }
        proof {
            assert(items@.take(i + 1).drop_last() =~= items@.take(i as int));
            assert(items@.take(i + 1).last() == items@[i as int]);
            assert(gather.entries() =~= file_views(items@.take(i + 1)));
            assert(log@ =~= failed_views(items@.take(i + 1)));
        }
        i = i + 1;
    }
    proof {
        assert(items@.take(items@.len() as int) =~= items@);
    }
    let container = gather.finish(level, long_distance, workers)?;
    Ok((container, log))
}

/// The tar-mode decompress pipeline: decodes the block-compressed stream
/// sequentially — the decoder supports only one forward pass — and
/// materializes the container's entries in stored order, for dispatch to
/// the parallel disk writers. A corrupt stream is fatal. Whenever the
/// container came from the compress pipeline over well-formed entries, the
/// result is exactly those entries, paths, modification times and contents
/// alike.
pub fn untar_extract(container: &Vec<u8>) -> (r: Result<Vec<FileEntry>, String>)
    ensures
        r is Ok ==> zstd_decoding(container@) is Some,
        r matches Ok(v) ==> forall|es: Seq<EntryView>|
            wf_entries(es) && zstd_decoding(container@) == Some(#[trigger] tar_encoding(es))
                ==> entries_view(v@) == es,
        r is Err ==> forall|es: Seq<EntryView>|
            wf_entries(es) ==> zstd_decoding(container@) != Some(#[trigger] tar_encoding(es)),
{
    let tar_bytes = zstd_decompress(container)?;
    tar_unpack(&tar_bytes)
}

/// Round trip, tar mode: compressing any scan stream whose complete entries
/// carry normalized paths and then extracting the container reproduces exactly
/// those entries — same relative paths, same modification times, same bytes,
/// in append order. `None` only reports an I/O or encoder failure; it never
/// stands for a wrong reconstruction.
pub fn compress_then_extract_tar(
    items: &Vec<ScanOutcome>,
    level: u8,
    long_distance: bool,
    workers: u32,
) -> (r: Option<Vec<FileEntry>>)
    requires
        1 <= level <= 22,
        wf_tar_items(items@),
    ensures
        r matches Some(v) ==> entries_view(v@) == file_views(items@),
{
    proof {
        lemma_wf_file_views(items@);
    }
    match tar_compress_pipeline(items, level, long_distance, workers) {
        Ok((container, _log)) => match untar_extract(&container) {
            Ok(v) => Some(v),
            Err(_) => None,
        },
        Err(_) => None,
    }
}

} // verus!

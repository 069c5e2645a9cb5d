//! The per-entry-mode pipelines. Compressing encodes each scanned entry
//! independently into a self-contained compressed record (a scratch
//! container around just that entry) and a single sequential splice writer
//! copies each record, unmodified, into the final container — no per-file
//! compression work on the sequential path. Decompressing enumerates the
//! container by index and hands the records back for the parallel disk
//! writers. A per-entry encode failure is aggregated, never fatal to
//! siblings; a splice or stream error is fatal.

use vstd::prelude::*;
use vstd::utf8::encode_utf8;

use crate::failures::failure_paths;
use crate::failures::FailureLog;
use crate::failures::FailureRecord;
use crate::scan::FileEntry;
use crate::scan::ScanOutcome;
use crate::zipstore::records_view;
use crate::zipstore::zip_contents;
use crate::zipstore::zip_decoding;
use crate::zipstore::zip_encode_entry;
use crate::zipstore::zip_splice;
use crate::zipstore::zip_store_finish;
use crate::zipstore::zip_store_new;
use crate::zipstore::zip_unpack;
use crate::zipstore::RecordView;
use crate::zipstore::ZipStore;

verus! {

/// The record the container stores for a scanned file, when the scan
/// produced one.
pub open spec fn item_file_name(it: ScanOutcome) -> Option<Seq<char>> {
    match it {
        ScanOutcome::File(e) => Some(e.rel_path@),
        ScanOutcome::Failed(_) => None,
    }
}

/// What the per-entry container asks of a scan stream: names the format can
/// store (the name length field holds 16 bits of UTF-8 bytes) and — since
/// the container keys records by name — no two entries with the same name.
pub open spec fn wf_zip_items(items: Seq<ScanOutcome>) -> bool {
    &&& forall|i: int|
        0 <= i < items.len() ==> (match #[trigger] item_file_name(items[i]) {
            Some(n) => encode_utf8(n).len() <= 0xFFFF,
            None => true,
        })
    &&& forall|i: int, j: int|
        0 <= i < j < items.len() && item_file_name(items[i]) is Some
            ==> #[trigger] item_file_name(items[i]) != #[trigger] item_file_name(items[j])
}

/// The records of the complete entries among the scanner's outcomes, in
/// order: name and contents — the modification time is not carried by this
/// format.
pub open spec fn file_pairs(items: Seq<ScanOutcome>) -> Seq<RecordView>
    decreases items.len(),
{
    if items.len() == 0 {
        Seq::<RecordView>::empty()
    } else {
        file_pairs(items.drop_last()) + (match items.last() {
            ScanOutcome::File(e) => seq![(e.rel_path@, e.data@)],
            ScanOutcome::Failed(_) => Seq::<RecordView>::empty(),
        })
    }
}

/// How a finished per-entry container and a failure list together account
/// for a scan stream: walking the stream from the back, a failed scan item
/// put its record at the back of the failures; a complete entry either was
/// spliced as the container's last record, or its encoding failed and its
/// path stands at the back of the failures. Every item is accounted for
/// exactly once.
pub open spec fn splice_split(
    items: Seq<ScanOutcome>,
    fails: Seq<(Seq<char>, Seq<char>)>,
    recs: Seq<RecordView>,
) -> bool
    decreases items.len(),
{
    if items.len() == 0 {
        fails.len() == 0 && recs.len() == 0
    } else {
        match items.last() {
            ScanOutcome::Failed(rec) => fails.len() > 0 && fails.last() == rec@ && splice_split(
                items.drop_last(),
                fails.drop_last(),
                recs,
            ),
            ScanOutcome::File(e) => (recs.len() > 0 && recs.last() == (e.rel_path@, e.data@)
                && splice_split(items.drop_last(), fails, recs.drop_last())) || (fails.len() > 0
                && fails.last().0 == e.rel_path@ && splice_split(
                items.drop_last(),
                fails.drop_last(),
                recs,
            )),
        }
    }
}

/// Why appending one entry to the splice writer failed: the parallel
/// per-entry encode failed (non-fatal, the container is untouched), or the
/// sequential splice itself failed (fatal, the container may be torn).
pub enum ZipAppendError {
    Encode(String),
    Splice(String),
}

/// The single sequential splice writer of the per-entry compress pipeline:
/// each entry is first encoded into a self-contained compressed record, then
/// raw-copied into the final container.
pub struct ZipGather {
    store: ZipStore,
}

impl ZipGather {
    /// The records spliced so far, in order.
    pub closed spec fn records(&self) -> Seq<RecordView> {
        zip_contents(self.store)
    }

    pub fn new() -> (r: ZipGather)
        ensures
            r.records() == Seq::<RecordView>::empty(),
    {
        ZipGather { store: zip_store_new() }
    }

    /// Encodes one entry into a self-contained compressed record and splices
    /// that record into the container. An encode error leaves the container
    /// untouched; a splice error means it is torn and the gather must be
    /// abandoned.
    pub fn append(&mut self, e: &FileEntry) -> (r: Result<(), ZipAppendError>)
        requires
            encode_utf8(e.rel_path@).len() <= 0xFFFF,
            forall|j: int|
                0 <= j < old(self).records().len() ==> (#[trigger] old(self).records()[j]).0
                    != e.rel_path@,
        ensures
            r is Ok ==> final(self).records() == old(self).records().push((e.rel_path@, e.data@)),
            r matches Err(ZipAppendError::Encode(_)) ==> final(self).records() == old(
                self,
            ).records(),
    {
        let record = match zip_encode_entry(&e.rel_path, &e.data) {
            Ok(rec) => rec,
            Err(m) => {
                return Err(ZipAppendError::Encode(m));
            },
        };
        proof {
            assert(zip_decoding(record@)->0[0].0 == e.rel_path@);
            assert(encode_utf8(zip_decoding(record@)->0[0].0).len() <= 0xFFFF);
            assert forall|j: int| 0 <= j < zip_contents(self.store).len() implies (
            #[trigger] zip_contents(self.store)[j]).0 != e.rel_path@ by {
                assert(self.records()[j].0 != e.rel_path@);
            };
        }
        match zip_splice(&mut self.store, &record) {
            Ok(()) => Ok(()),
            Err(m) => Err(ZipAppendError::Splice(m)),
        }
    }

    /// Finishes the container. On success the bytes decode back to exactly
    /// the spliced records, in splice order.
    pub fn finish(self) -> (r: Result<Vec<u8>, String>)
        ensures
            r matches Ok(c) ==> zip_decoding(c@) == Some(self.records()),
    {
        zip_store_finish(self.store)
    }
}

/// The per-entry compress pipeline over a stream of scan outcomes: each
/// complete entry is independently encoded into a self-contained compressed
/// record and raw-copied, in arrival order, into the final container; scan
/// failures and per-entry encode failures are aggregated and fatal to
/// nothing but the operation's final verdict. On success the container and
/// the log together account for every scanned item, per `splice_split` —
/// the operation as a whole is to be reported failed whenever the log is
/// non-empty, even though the container is complete and valid.
pub fn zip_compress_pipeline(items: &Vec<ScanOutcome>) -> (r: Result<(Vec<u8>, FailureLog), String>)
    requires
        wf_zip_items(items@),
    ensures
        r matches Ok(p) ==> (zip_decoding(p.0@) matches Some(recs) && splice_split(
            items@,
            p.1@,
            recs,
        )),
{
    let mut gather = ZipGather::new();
    let mut log = FailureLog::new();
    let mut i: usize = 0;
    while i < items.len()
        invariant
            i <= items.len(),
            wf_zip_items(items@),
            splice_split(items@.take(i as int), log@, gather.records()),
            forall|k: int|
                0 <= k < gather.records().len() ==> exists|i0: int|
                    0 <= i0 < i && item_file_name(items@[i0]) == Some(
                        (#[trigger] gather.records()[k]).0,
                    ),
        decreases items.len() - i,
    {
        let ghost prev_recs = gather.records();
        let ghost prev_log = log@;
        match &items[i] {
            ScanOutcome::File(e) => {
                proof {
                    assert(item_file_name(items@[i as int]) == Some(e.rel_path@));
                    assert forall|j: int| 0 <= j < gather.records().len() implies (
                    #[trigger] gather.records()[j]).0 != e.rel_path@ by {
                        let i0 = choose|i0: int|
                            0 <= i0 < i && item_file_name(items@[i0]) == Some(
                                gather.records()[j].0,
                            );
                        assert(item_file_name(items@[i0]) != item_file_name(items@[i as int]));
                    };
                }
                match gather.append(e) {
                    Ok(()) => {
                        log.record_success();
                        proof {
                            assert forall|k: int| 0 <= k < gather.records().len() implies exists|
                                i0: int,
                            |
                                0 <= i0 < i + 1 && item_file_name(items@[i0]) == Some(
                                    (#[trigger] gather.records()[k]).0,
                                ) by {
                                if k < prev_recs.len() {
                                    let i0 = choose|i0: int|
                                        0 <= i0 < i && item_file_name(items@[i0]) == Some(
                                            prev_recs[k].0,
                                        );
                                    assert(0 <= i0 < i + 1 && item_file_name(items@[i0]) == Some(
                                        gather.records()[k].0,
                                    ));
                                } else {
                                    assert(item_file_name(items@[i as int]) == Some(
                                        gather.records()[k].0,
                                    ));
                                }
                            };
                        }
                    },
                    Err(ZipAppendError::Encode(m)) => {
                        log.record_failure(FailureRecord { path: e.rel_path.clone(), cause: m });
                    },
                    Err(ZipAppendError::Splice(m)) => {
                        return Err(m);
                    },
                }
            },
            ScanOutcome::Failed(rec) => {
                log.record_failure(rec.clone());
            },
        }
        proof {
            assert(items@.take(i + 1).drop_last() =~= items@.take(i as int));
            assert(items@.take(i + 1).last() == items@[i as int]);
            if log@ != prev_log {
                assert(log@.drop_last() =~= prev_log);
            }
            if gather.records() != prev_recs {
                assert(gather.records().drop_last() =~= prev_recs);
            }
            assert(splice_split(items@.take(i + 1), log@, gather.records()));
        }
        i = i + 1;
    }
    proof {
        assert(items@.take(items@.len() as int) =~= items@);
    }
    let container = gather.finish()?;
    Ok((container, log))
}

/// The per-entry decompress pipeline: enumerates the container's records in
/// stored index order — the format permits random access, and index order
/// keeps memory bounded — for dispatch to the parallel disk writers. An
/// unreadable container is fatal.
pub fn unzip_extract(container: &Vec<u8>) -> (r: Result<Vec<(String, Vec<u8>)>, String>)
    ensures
        r matches Ok(v) ==> zip_decoding(container@) == Some(records_view(v@)),
        r is Err ==> zip_decoding(container@) is None,
{
    zip_unpack(container)
}

/// With nothing failed, the accounting of `splice_split` pins the container
/// down completely: its records are exactly the scanned entries, in order.
pub proof fn lemma_splice_split_no_failures(items: Seq<ScanOutcome>, recs: Seq<RecordView>)
    requires
        splice_split(items, Seq::<(Seq<char>, Seq<char>)>::empty(), recs),
    ensures
        recs == file_pairs(items),
    decreases items.len(),
{
    if items.len() == 0 {
        assert(recs =~= file_pairs(items));
    } else {
        match items.last() {
            ScanOutcome::Failed(_) => {
                assert(false);
            },
            ScanOutcome::File(e) => {
                lemma_splice_split_no_failures(items.drop_last(), recs.drop_last());
                assert(recs =~= file_pairs(items));
            },
        }
    }
}

/// Partial failure leaves no item unaccounted for: under `splice_split`,
/// every complete entry either stands in the container or its path stands
/// among the failures, and every scan failure's record stands among the
/// failures — one unreadable file among many costs exactly that file.
pub proof fn lemma_splice_split_complete(
    items: Seq<ScanOutcome>,
    fails: Seq<(Seq<char>, Seq<char>)>,
    recs: Seq<RecordView>,
)
    requires
        splice_split(items, fails, recs),
    ensures
        forall|i: int|
            0 <= i < items.len() ==> ((#[trigger] items[i]) matches ScanOutcome::File(e)
                ==> recs.contains((e.rel_path@, e.data@)) || failure_paths(fails).contains(
                e.rel_path@,
            )),
        forall|i: int|
            0 <= i < items.len() ==> ((#[trigger] items[i]) matches ScanOutcome::Failed(rec)
                ==> fails.contains(rec@)),
    decreases items.len(),
{
    if items.len() > 0 {
        let prefix = items.drop_last();
        match items.last() {
            ScanOutcome::Failed(rec) => {
                lemma_splice_split_complete(prefix, fails.drop_last(), recs);
                lemma_contains_drop_last(fails);
                assert(failure_paths(fails).drop_last() =~= failure_paths(fails.drop_last()));
                lemma_contains_drop_last(failure_paths(fails));
                assert(fails.contains(rec@)) by {
                    assert(fails[fails.len() - 1] == rec@);
                }
            },
            ScanOutcome::File(e) => {
                if recs.len() > 0 && recs.last() == (e.rel_path@, e.data@) && splice_split(
                    prefix,
                    fails,
                    recs.drop_last(),
                ) {
                    lemma_splice_split_complete(prefix, fails, recs.drop_last());
                    lemma_contains_drop_last(recs);
                    assert(recs.contains((e.rel_path@, e.data@))) by {
                        assert(recs[recs.len() - 1] == (e.rel_path@, e.data@));
                    }
                } else {
                    lemma_splice_split_complete(prefix, fails.drop_last(), recs);
                    lemma_contains_drop_last(fails);
                    assert(failure_paths(fails).drop_last() =~= failure_paths(fails.drop_last()));
                    lemma_contains_drop_last(failure_paths(fails));
                    assert(failure_paths(fails).contains(e.rel_path@)) by {
                        assert(failure_paths(fails)[fails.len() - 1] == e.rel_path@);
                    }
                }
            },
        }
        assert forall|i: int| 0 <= i < items.len() implies ((#[trigger] items[i]) matches
            ScanOutcome::File(e2) ==> recs.contains((e2.rel_path@, e2.data@)) || failure_paths(
            fails,
        ).contains(e2.rel_path@)) by {
            if i < items.len() - 1 {
                assert(prefix[i] == items[i]);
            }
        }
        assert forall|i: int| 0 <= i < items.len() implies ((#[trigger] items[i]) matches
            ScanOutcome::Failed(r2) ==> fails.contains(r2@)) by {
            if i < items.len() - 1 {
                assert(prefix[i] == items[i]);
            }
        }
    }
}

/// Containment survives putting a dropped last element back.
proof fn lemma_contains_drop_last<T>(s: Seq<T>)
    requires
        s.len() > 0,
    ensures
        forall|x: T| #[trigger] s.drop_last().contains(x) ==> s.contains(x),
{
    assert forall|x: T| #[trigger] s.drop_last().contains(x) implies s.contains(x) by {
        let ix = choose|ix: int| 0 <= ix < s.drop_last().len() && s.drop_last()[ix] == x;
        assert(s[ix] == x);
    }
}

/// Round trip, per-entry mode: compressing any well-formed scan stream and
/// reading the container back accounts for every item per `splice_split`;
/// and when nothing failed, the container holds exactly the scanned entries
/// — same names, byte-identical contents, in splice order. `None` only
/// reports an I/O or encoder failure on the sequential path; it never
/// stands for a wrong reconstruction.
pub fn compress_then_extract_zip(items: &Vec<ScanOutcome>) -> (r: Option<
    (Vec<(String, Vec<u8>)>, FailureLog),
>)
    requires
        wf_zip_items(items@),
    ensures
        r matches Some(p) ==> splice_split(items@, p.1@, records_view(p.0@)),
        r matches Some(p) ==> (p.1@.len() == 0 ==> records_view(p.0@) == file_pairs(items@)),
{
    match zip_compress_pipeline(items) {
        Ok((container, log)) => match unzip_extract(&container) {
            Ok(v) => {
                proof {
                    if log@.len() == 0 {
                        assert(log@ =~= Seq::<(Seq<char>, Seq<char>)>::empty());
                        lemma_splice_split_no_failures(items@, records_view(v@));
                    }
                }
                Some((v, log))
            },
            Err(_) => None,
        },
        Err(_) => None,
    }
}

} // verus!

//! Trusted boundary to the `zip` crate: a zip container under construction
//! is modelled by the sequence of records spliced into it, and what a
//! finished container's bytes hold by the name `zip_decoding`. Everything
//! here is believed, not proved; each item's doc comment names the `zip`
//! function it relies on.

use vstd::prelude::*;
use vstd::utf8::encode_utf8;

verus! {

/// One archived record as the per-entry container stores it: a name and the
/// file's (uncompressed) contents. This format carries no modification time
/// that the pipelines preserve.
pub type RecordView = (Seq<char>, Seq<u8>);

/// A zip container under construction. Verus refuses the declaration of
/// `zip::ZipWriter` itself (the `Write + Seek` bounds on its type parameter
/// are traits Verus has no specification for), so the writer is held
/// opaquely and described only through `zip_contents`.
#[verifier::external_body]
pub struct ZipStore {
    writer: zip::ZipWriter<std::io::Cursor<Vec<u8>>>,
}

/// The records spliced so far into a zip container, in splice order: each
/// with its name and its uncompressed contents.
pub uninterp spec fn zip_contents(s: ZipStore) -> Seq<RecordView>;

/// What a finished zip container's bytes hold: the records in stored index
/// order, each with its name and its decompressed contents — or nothing
/// when the bytes are not a readable container.
pub uninterp spec fn zip_decoding(bytes: Seq<u8>) -> Option<Seq<RecordView>>;

/// Relies on zip::ZipWriter::new: a writer over a fresh in-memory cursor
/// holds no records.
#[verifier::external_body]
pub(crate) fn zip_store_new() -> (s: ZipStore)
    ensures
        zip_contents(s) == Seq::<RecordView>::empty(),
{
    ZipStore { writer: zip::ZipWriter::new(std::io::Cursor::new(Vec::new())) }
}

/// Relies on zip::ZipWriter (new, start_file with deflate, finish): the
/// scratch container built around one record decodes back to exactly that
/// single name and contents. The name's UTF-8 encoding must fit the
/// format's 16-bit name length field, which start_file fills without a
/// range check.
#[verifier::external_body]
pub(crate) fn zip_encode_entry(rel_path: &String, data: &Vec<u8>) -> (r: Result<Vec<u8>, String>)
    requires
        encode_utf8(rel_path@).len() <= 0xFFFF,
    ensures
        r matches Ok(rec) ==> zip_decoding(rec@) == Some(seq![(rel_path@, data@)]),
{
    let options = zip::write::SimpleFileOptions::default().compression_method(
        zip::CompressionMethod::Deflated,
    );
    let mut writer = zip::ZipWriter::new(std::io::Cursor::new(Vec::new()));
    if let Err(e) = writer.start_file(rel_path.as_str(), options) {
        return Err(e.to_string());
    }
    if let Err(e) = std::io::Write::write_all(&mut writer, data.as_slice()) {
        return Err(e.to_string());
    }
    match writer.finish() {
        Ok(cursor) => Ok(cursor.into_inner()),
        Err(e) => Err(e.to_string()),
    }
}

/// Relies on zip::ZipArchive::by_index and zip::ZipWriter::raw_copy_file:
/// the single record of a scratch container is copied into the container
/// verbatim, compressed bytes untouched, so the container gains exactly
/// that record. The writer keys records by name, so the incoming name must
/// not collide with a stored one; and raw_copy_file re-encodes the name it
/// read into the 16-bit name length field without a range check, so the
/// name's UTF-8 encoding must fit it. On an error the container may be
/// torn and is not described further.
#[verifier::external_body]
pub(crate) fn zip_splice(s: &mut ZipStore, record: &Vec<u8>) -> (r: Result<(), String>)
    requires
        zip_decoding(record@) matches Some(rs) && rs.len() == 1,
        encode_utf8(zip_decoding(record@)->0[0].0).len() <= 0xFFFF,
        forall|j: int|
            0 <= j < zip_contents(*old(s)).len() ==> #[trigger] zip_contents(*old(s))[j].0
                != zip_decoding(record@)->0[0].0,
    ensures
        r is Ok ==> zip_contents(*final(s)) == zip_contents(*old(s)).push(
            zip_decoding(record@)->0[0],
        ),
{
    let mut archive = match zip::ZipArchive::new(std::io::Cursor::new(record.as_slice())) {
        Ok(a) => a,
        Err(e) => return Err(e.to_string()),
    };
    let file = match archive.by_index(0) {
        Ok(f) => f,
        Err(e) => return Err(e.to_string()),
    };
    s.writer.raw_copy_file(file).map_err(|e| e.to_string())
}

/// Relies on zip::ZipWriter::finish, which writes the central directory:
/// the bytes decode back to exactly the spliced records, in splice order.
#[verifier::external_body]
pub(crate) fn zip_store_finish(s: ZipStore) -> (r: Result<Vec<u8>, String>)
    ensures
        r matches Ok(bytes) ==> zip_decoding(bytes@) == Some(zip_contents(s)),
{
    match s.writer.finish() {
        Ok(cursor) => Ok(cursor.into_inner()),
        Err(e) => Err(e.to_string()),
    }
}

/// The records read out of a container, as executable values.
pub open spec fn records_view(v: Seq<(String, Vec<u8>)>) -> Seq<RecordView> {
    v.map_values(|p: (String, Vec<u8>)| (p.0@, p.1@))
}

/// Relies on zip::ZipArchive (new, len, by_index) and std::io::Read: the
/// container is enumerated by index and each record's name and decompressed
/// bytes are read out — the reading that `zip_decoding` names, a function
/// of the bytes alone.
#[verifier::external_body]
pub(crate) fn zip_unpack(bytes: &Vec<u8>) -> (r: Result<Vec<(String, Vec<u8>)>, String>)
    ensures
        r matches Ok(v) ==> zip_decoding(bytes@) == Some(records_view(v@)),
        r is Err ==> zip_decoding(bytes@) is None,
{
    let mut archive = match zip::ZipArchive::new(std::io::Cursor::new(bytes.as_slice())) {
        Ok(a) => a,
        Err(e) => return Err(e.to_string()),
    };
    let mut out: Vec<(String, Vec<u8>)> = Vec::new();
    for i in 0..archive.len() {
        let mut file = archive.by_index(i).map_err(|e| e.to_string())?;
        let name = file.name().to_string();
        let mut data = Vec::new();
        std::io::Read::read_to_end(&mut file, &mut data).map_err(|e| e.to_string())?;
        out.push((name, data));
    }
    Ok(out)
}

} // verus!

//! Trusted boundary to the `zstd` crate, the block compressor wrapped
//! around the tar stream. Decoding is deterministic in the bytes alone, so
//! it carries the name `zstd_decoding`; encoding is not (the stream may be
//! split into frames by worker count), so an encoder's output is described
//! only by what it decodes back to.

use vstd::prelude::*;

verus! {

/// What a compressed stream decodes to: the original bytes, or nothing when
/// the stream is not a valid zstd stream.
pub uninterp spec fn zstd_decoding(bytes: Seq<u8>) -> Option<Seq<u8>>;

/// Relies on zstd::stream::write::Encoder (new, long_distance_matching,
/// multithread, write_all, finish): zstd is lossless, so on success the
/// compressed stream decodes back to exactly the input bytes.
#[verifier::external_body]
pub(crate) fn zstd_compress(data: &Vec<u8>, level: u8, long_distance: bool, workers: u32) -> (r:
    Result<Vec<u8>, String>)
    requires
        1 <= level <= 22,
    ensures
        r matches Ok(c) ==> zstd_decoding(c@) == Some(data@),
{
    let mut enc = zstd::stream::write::Encoder::new(Vec::new(), level as i32).map_err(
        |e| e.to_string(),
    )?;
    if long_distance {
        enc.long_distance_matching(true).map_err(|e| e.to_string())?;
    }
    enc.multithread(workers).map_err(|e| e.to_string())?;
    std::io::Write::write_all(&mut enc, data.as_slice()).map_err(|e| e.to_string())?;
    enc.finish().map_err(|e| e.to_string())
}

/// Relies on zstd::stream::decode_all: decoding is a function of the bytes
/// alone and succeeds exactly when they form a valid stream.
#[verifier::external_body]
pub(crate) fn zstd_decompress(bytes: &Vec<u8>) -> (r: Result<Vec<u8>, String>)
    ensures
        r matches Ok(d) ==> zstd_decoding(bytes@) == Some(d@),
        r is Err ==> zstd_decoding(bytes@) is None,
{
    zstd::stream::decode_all(bytes.as_slice()).map_err(|e| e.to_string())
}

} // verus!

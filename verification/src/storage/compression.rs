//! zstd cluster-level compression: each cluster is compressed on its own so
//! that any cluster can be read without the others.
use vstd::prelude::*;
use crate::storage::StorageError;

verus! {

/// Default zstd compression level (1–22).
pub const DEFAULT_COMPRESSION_LEVEL: i32 = 3;

/// The frame zstd produces for `data` at `level`.
pub uninterp spec fn zstd_frame(data: Seq<u8>, level: i32) -> Seq<u8>;

/// Calls `zstd::bulk::compress`; on success the result is the zstd frame of
/// `data` at `level`. The output buffer is sized by `compress_bound` and the
/// level is clamped to zstd's range, so it succeeds for any input below
/// zstd's largest input size (`0xFF00_FF00` bytes on 32-bit targets, more
/// on 64-bit ones). The error text is the `io::Error`'s display.
#[verifier::external_body]
fn zstd_compress(data: &[u8], level: i32) -> (r: Result<Vec<u8>, String>)
    ensures
        data@.len() < 0xFF00_FF00 ==> r is Ok,
        r matches Ok(v) ==> v@ == zstd_frame(data@, level),
{
    match zstd::bulk::compress(data, level) {
        Ok(v) => Ok(v),
        Err(e) => Err(e.to_string()),
    }
}

/// Calls `zstd::bulk::decompress`: zstd is lossless, so a frame of some
/// data no longer than `capacity` decompresses to that data. Nothing is
/// claimed of other inputs.
#[verifier::external_body]
fn zstd_decompress(data: &[u8], capacity: usize) -> (r: Result<Vec<u8>, String>)
    ensures
        r is Err ==> forall|d: Seq<u8>, level: i32| #[trigger] zstd_frame(d, level) != data@ || d.len() > capacity,
        r matches Ok(v) ==> forall|d: Seq<u8>, level: i32| #[trigger] zstd_frame(d, level) == data@ && d.len() <= capacity
            ==> v@ == d,
{
    match zstd::bulk::decompress(data, capacity) {
        Ok(v) => Ok(v),
        Err(e) => Err(e.to_string()),
    }
}

/// Compress a cluster payload; any payload below `0xFF00_FF00` bytes is
/// compressed.
pub fn compress_cluster(data: &[u8], level: i32) -> (r: Result<Vec<u8>, StorageError>)
    ensures
        data@.len() < 0xFF00_FF00 ==> r is Ok,
        r matches Ok(v) ==> v@ == zstd_frame(data@, level),
        r matches Err(e) ==> e is Compression,
{
    match zstd_compress(data, level) {
        Ok(v) => Ok(v),
        Err(e) => Err(StorageError::Compression(e)),
    }
}

/// Decompress a cluster payload of at most `max_output_size` bytes.
pub fn decompress_cluster(compressed: &[u8], max_output_size: usize) -> (r: Result<Vec<u8>, StorageError>)
    ensures
        forall|d: Seq<u8>, level: i32| #[trigger] zstd_frame(d, level) == compressed@ && d.len() <= max_output_size
            ==> (r matches Ok(v) && v@ == d),
        r matches Err(e) ==> e is Compression,
{
    match zstd_decompress(compressed, max_output_size) {
        Ok(v) => Ok(v),
        Err(e) => Err(StorageError::Compression(e)),
    }
}

/// Decompressing a compressed cluster with room for the original gives the
/// original back: `c` is what `compress_cluster(data, level)` returned and
/// `r` what `decompress_cluster(c, max)` returned.
pub proof fn law_compress_round_trip(data: Seq<u8>, level: i32, c: Seq<u8>, max: usize, r: Result<Vec<u8>, StorageError>)
    requires
        c == zstd_frame(data, level),
        data.len() <= max,
        forall|d: Seq<u8>, l: i32| #[trigger] zstd_frame(d, l) == c && d.len() <= max ==> (r matches Ok(v) && v@ == d),
    ensures
        r matches Ok(v) && v@ == data,
{
    assert(zstd_frame(data, level) == c);
}

} // verus!

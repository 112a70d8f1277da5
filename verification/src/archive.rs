//! Packing and unpacking bytes with the `bzip2` crate.

use crate::error::ParseError;
use std::io::Read;
use vstd::prelude::*;

verus! {

/// How hard the packing tries: the greatest level.
pub const COMPRESSION_LEVEL: u32 = 9;

/// The bytes packed at a level: what a `bzip2::bufread::BzEncoder` of that
/// level hands out when it is read to the end.
pub uninterp spec fn bzip2_compressed(input: Seq<u8>, level: u32) -> Seq<u8>;

/// The bytes unpacked, or `None` where the bytes are no packed stream: what a
/// `bzip2::bufread::BzDecoder` hands out when it is read to the end.
pub uninterp spec fn bzip2_decompressed(input: Seq<u8>) -> Option<Seq<u8>>;

/// `BzEncoder::new` over a slice with `Compression::new(level)`, read to the
/// end. Reading fails only where the reader below fails, and a slice never
/// does, so the packed bytes always come back.
#[verifier::external_body]
fn compress_bytes(input: &[u8], level: u32) -> (r: Option<Vec<u8>>)
    requires
        1 <= level <= 9,
    ensures
        match r {
            Some(packed) => packed@ == bzip2_compressed(input@, level),
            None => false,
        },
{
    let mut encoder = bzip2::bufread::BzEncoder::new(input, bzip2::Compression::new(level));
    let mut out = Vec::new();
    encoder.read_to_end(&mut out).ok().map(|_| out)
}

/// `BzDecoder::new` over a slice, read to the end. Reading fails where the
/// bytes are no packed stream or end too early.
#[verifier::external_body]
fn decompress_bytes(input: &[u8]) -> (r: Option<Vec<u8>>)
    ensures
        match bzip2_decompressed(input@) {
            Some(bytes) => r matches Some(unpacked) && unpacked@ == bytes,
            None => r is None,
        },
{
    let mut decoder = bzip2::bufread::BzDecoder::new(input);
    let mut out = Vec::new();
    decoder.read_to_end(&mut out).ok().map(|_| out)
}

/// Unpacks bytes that were packed with bzip2. Bytes that are no packed
/// stream are refused.
pub fn bzip2_decompress(input: &[u8]) -> (r: Result<Vec<u8>, ParseError>)
    ensures
        match bzip2_decompressed(input@) {
            Some(bytes) => r matches Ok(unpacked) && unpacked@ == bytes,
            None => r matches Err(ParseError::InvalidArchive),
        },
{
    match decompress_bytes(input) {
        Some(unpacked) => Ok(unpacked),
        None => Err(ParseError::InvalidArchive),
    }
}

/// Packs bytes with bzip2, at [`COMPRESSION_LEVEL`].
pub fn bzip2_compress(input: &[u8]) -> (r: Result<Vec<u8>, ParseError>)
    ensures
        r matches Ok(packed) && packed@ == bzip2_compressed(input@, COMPRESSION_LEVEL),
{
    match compress_bytes(input, COMPRESSION_LEVEL) {
        Some(packed) => Ok(packed),
        None => Err(ParseError::InvalidArchive),
    }
}

} // verus!

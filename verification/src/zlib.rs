//! Inflation of zlib streams.

use vstd::prelude::*;
use crate::error::SectionError;

verus! {

/// The bytes that a zlib stream inflates to, or `None` where the stream is
/// corrupt or ends before it is complete.
pub uninterp spec fn zlib_inflated(stream: Seq<u8>) -> Option<Seq<u8>>;

/// Runs `flate2::read::ZlibDecoder` over `stream` until it reports the end.
///
/// Trusted: the decoder returns for every input, and its output depends on
/// the stream alone, so its result is given the name [`zlib_inflated`]. A
/// read error of the decoder (a corrupt or incomplete stream) is `None`.
#[verifier::external_body]
fn inflate(stream: &[u8]) -> (r: Option<Vec<u8>>)
    ensures
        match r {
            Some(bytes) => zlib_inflated(stream@) == Some(bytes@),
            None => zlib_inflated(stream@) is None,
        },
{
    let mut inflated = Vec::new();
    let mut decoder = flate2::read::ZlibDecoder::new(stream);
    match std::io::Read::read_to_end(&mut decoder, &mut inflated) {
        Ok(_) => Some(inflated),
        Err(_) => None,
    }
}

/// Inflates a zlib stream in full.
pub fn decompress(stream: &[u8]) -> (r: Result<Vec<u8>, SectionError>)
    ensures
        match r {
            Ok(bytes) => zlib_inflated(stream@) == Some(bytes@),
            Err(e) => e == SectionError::DecompressionFailure && zlib_inflated(stream@) is None,
        },
{
    match inflate(stream) {
        Some(bytes) => Ok(bytes),
        None => Err(SectionError::DecompressionFailure),
    }
}

} // verus!

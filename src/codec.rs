use brotli::enc::BrotliEncoderParams;
use brotli::{BrotliCompress, BrotliDecompress};
use vstd::prelude::*;

verus! {

/// The Brotli quality that sidecars are encoded with: the highest, which
/// favours ratio over speed.
pub const QUALITY: i32 = 11;

/// The Brotli stream that the encoder produces for `data` at `quality`,
/// told that the input is `size_hint` bytes long (with target-independent
/// cost estimates).
pub uninterp spec fn brotli_encoded(quality: int, size_hint: int, data: Seq<u8>) -> Seq<u8>;

/// What the Brotli decoder yields for `data`: the decoded bytes, or `None`
/// where `data` is not a valid Brotli stream.
pub uninterp spec fn brotli_decoded(data: Seq<u8>) -> Option<Seq<u8>>;

/// The sidecar bytes for a source: its encoding at the highest quality, with
/// the source's length as the size hint.
pub open spec fn encoded(data: Seq<u8>) -> Seq<u8> {
    brotli_encoded(QUALITY as int, data.len() as int, data)
}

/// Why an encode or a decode failed, in the underlying codec's words.
#[derive(Clone, Debug, PartialEq, Eq)]
pub struct CodecError {
    pub cause: String,
}

/// Relies on brotli's `BrotliCompress` with `quality` and `size_hint` set
/// and the other parameters at their defaults, built with `portable-float`
/// so that the stream is the same on every target. Reading a slice and
/// writing a vector never fail, so it succeeds; the output is the encoder's
/// stream for `data`, which Brotli, a lossless format, decodes back to
/// `data`.
#[verifier::external_body]
fn brotli_compress(data: &[u8], quality: i32, size_hint: usize) -> (r: Result<Vec<u8>, String>)
    requires
        0 <= quality <= 11,
    ensures
        r is Ok,
        r matches Ok(c) ==> c@ == brotli_encoded(quality as int, size_hint as int, data@),
        r matches Ok(c) ==> brotli_decoded(c@) == Some(data@),
{
    let params = BrotliEncoderParams { quality, size_hint, ..BrotliEncoderParams::default() };
    let mut input: &[u8] = data;
    let mut out: Vec<u8> = Vec::new();
    BrotliCompress(&mut input, &mut out, &params).map(|_| out).map_err(|e| format!("{e:?}"))
}

/// Relies on brotli's `BrotliDecompress` into a vector: it succeeds exactly
/// on a valid stream, and then the vector holds the decoded bytes.
#[verifier::external_body]
fn brotli_decompress(data: &[u8]) -> (r: Result<Vec<u8>, String>)
    ensures
        r is Ok <==> brotli_decoded(data@) is Some,
        r matches Ok(d) ==> brotli_decoded(data@) == Some(d@),
{
    let mut input: &[u8] = data;
    let mut out: Vec<u8> = Vec::new();
    BrotliDecompress(&mut input, &mut out).map(|_| out).map_err(|e| format!("{e:?}"))
}

/// Encodes `data` as a sidecar. It always succeeds, and what comes out
/// decodes back to `data`.
pub fn encode(data: &[u8]) -> (r: Result<Vec<u8>, CodecError>)
    ensures
        r is Ok,
        r matches Ok(c) ==> c@ == encoded(data@),
        r matches Ok(c) ==> brotli_decoded(c@) == Some(data@),
{
    match brotli_compress(data, QUALITY, data.len()) {
        Ok(c) => Ok(c),
        Err(cause) => Err(CodecError { cause }),
    }
}

/// Decodes the bytes of a sidecar; fails exactly where they are not a valid
/// Brotli stream.
pub fn decode(data: &[u8]) -> (r: Result<Vec<u8>, CodecError>)
    ensures
        r is Ok <==> brotli_decoded(data@) is Some,
        r matches Ok(d) ==> brotli_decoded(data@) == Some(d@),
{
    match brotli_decompress(data) {
        Ok(d) => Ok(d),
        Err(cause) => Err(CodecError { cause }),
    }
}

} // verus!

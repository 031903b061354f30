//! Log codec: gzip compression and decompression of captured build logs.
//!
//! The worker compresses every log before submitting it; the collector
//! decompresses an uploaded payload before writing the plain blob. A
//! truncated or corrupt payload must surface as an error, never as a
//! silently truncated result, so decompression drains the whole stream.

use vstd::prelude::*;

verus! {

/// What flate2's gzip decoder returns on a byte sequence: `Some` of the
/// decoded payload when the bytes form a well-formed gzip stream, `None`
/// when the decoder reports the stream corrupt or truncated. The decoder
/// is a function of the input bytes alone.
pub uninterp spec fn gunzip_of(b: Seq<u8>) -> Option<Seq<u8>>;

/// Why an encode or decode of a log failed.
#[derive(Debug)]
pub enum CodecError {
    /// The compressor reported an error while the stream was written out.
    CompressFailed,
    /// The payload is not a complete, well-formed gzip stream.
    InvalidStream,
}

impl CodecError {
    /// A human-readable description, for the transport layer's error body.
    pub fn message(&self) -> (r: String)
        ensures
            *self is CompressFailed ==> r@ == "failed to compress log"@,
            *self is InvalidStream ==> r@ == "log payload is not a valid gzip stream"@,
    {
        match self {
            CodecError::CompressFailed => "failed to compress log".to_owned(),
            CodecError::InvalidStream => "log payload is not a valid gzip stream".to_owned(),
        }
    }
}

/// Relies on flate2's gzip encoder (`write::GzEncoder`: `new`, `write_all`,
/// `finish`): the finished output is one complete gzip member whose decoding
/// yields exactly the bytes that were written in. Encoding into an in-memory
/// `Vec` has no failure path — the encoder's errors come only from the
/// underlying writer, and a `Vec` never errors and never writes zero — so
/// the call returns the stream on every input.
#[verifier::external_body]
fn gzip_compress(data: &[u8]) -> (r: Option<Vec<u8>>)
    ensures
        r is Some,
        r matches Some(c) ==> gunzip_of(c@) == Some(data@),
{
    let mut enc = flate2::write::GzEncoder::new(Vec::new(), flate2::Compression::default());
    match std::io::Write::write_all(&mut enc, data) {
        Ok(()) => enc.finish().ok(),
        Err(_) => None,
    }
}

/// Relies on flate2's gzip decoder (`read::GzDecoder`: `new`, `read_to_end`):
/// it drains the whole stream, returning the decoded payload, and reports an
/// error on a corrupt or truncated stream; the outcome depends on the input
/// bytes alone.
#[verifier::external_body]
fn gzip_decompress(data: &[u8]) -> (r: Option<Vec<u8>>)
    ensures
        r matches Some(v) ==> gunzip_of(data@) == Some(v@),
        r is None ==> gunzip_of(data@) is None,
{
    let mut dec = flate2::read::GzDecoder::new(data);
    let mut out = Vec::new();
    match std::io::Read::read_to_end(&mut dec, &mut out) {
        Ok(_) => Some(out),
        Err(_) => None,
    }
}

/// Compress a log into one complete gzip stream. Compression succeeds on
/// every input, and the output decodes back to exactly the input, so
/// `decompress(compress(x))` returns `Ok` of `x` for every byte sequence
/// `x`, the empty one included.
pub fn compress(log: &Vec<u8>) -> (r: Result<Vec<u8>, CodecError>)
    ensures
        r is Ok,
        r matches Ok(c) ==> gunzip_of(c@) == Some(log@),
{
    match gzip_compress(log.as_slice()) {
        Some(c) => Ok(c),
        None => Err(CodecError::CompressFailed),
    }
}

/// Decompress a gzip payload, draining the whole stream. Returns `Ok`
/// exactly on the payloads the gzip decoder accepts, and an error on a
/// corrupt or truncated stream.
pub fn decompress(data: &Vec<u8>) -> (r: Result<Vec<u8>, CodecError>)
    ensures
        r matches Ok(v) ==> gunzip_of(data@) == Some(v@),
        r matches Err(e) ==> gunzip_of(data@) is None && e == CodecError::InvalidStream,
        (r is Ok) <==> (gunzip_of(data@) is Some),
{
    match gzip_decompress(data.as_slice()) {
        Some(v) => Ok(v),
        None => Err(CodecError::InvalidStream),
    }
}

} // verus!

//! Transport-level error taxonomy and the decompression stage: every chunk
//! and every compressed metadata body is a zlib stream that must inflate in
//! full before it is trusted.

use vstd::prelude::*;
use vstd::string::*;
use crate::strings::{spec_dec, u64_to_dec};

verus! {

/// What can go wrong between issuing a request and handing bytes or a
/// decoded value back: a non-success HTTP status (with its code), a
/// connection or read failure, a body of the wrong shape, a malformed
/// zlib stream, or the exhaustion of every retrieval candidate.
#[derive(Debug)]
pub enum SessionError {
    HttpError(u16),
    NetworkError(String),
    DeserializationError(String),
    DecompressionError(String),
    DownloadError(String),
}

/// The description `SessionError::message` renders: the error's kind and
/// its status code or upstream detail.
pub open spec fn spec_session_message(e: SessionError) -> Seq<char> {
    match e {
        SessionError::HttpError(status) => "HTTP error: "@ + spec_dec(status as nat),
        SessionError::NetworkError(m) => "Network error: "@ + m@,
        SessionError::DeserializationError(m) => "Deserialization error: "@ + m@,
        SessionError::DecompressionError(m) => "Decompression error: "@ + m@,
        SessionError::DownloadError(m) => "Download error: "@ + m@,
    }
}

impl SessionError {
    /// A human-readable description of the error.
    pub fn message(&self) -> (r: String)
        ensures
            r@ == spec_session_message(*self),
    {
        match self {
            SessionError::HttpError(status) => {
                let mut out = "HTTP error: ".to_owned();
                let d = u64_to_dec(*status as u64);
                out.append(d.as_str());
                out
            },
            SessionError::NetworkError(m) => {
                let mut out = "Network error: ".to_owned();
                out.append(m.as_str());
                out
            },
            SessionError::DeserializationError(m) => {
                let mut out = "Deserialization error: ".to_owned();
                out.append(m.as_str());
                out
            },
            SessionError::DecompressionError(m) => {
                let mut out = "Decompression error: ".to_owned();
                out.append(m.as_str());
                out
            },
            SessionError::DownloadError(m) => {
                let mut out = "Download error: ".to_owned();
                out.append(m.as_str());
                out
            },
        }
    }
}

/// The bytes a zlib stream inflates to, or nothing when the stream is
/// malformed or truncated. Inflation depends on the bytes alone.
pub uninterp spec fn zlib_inflate(data: Seq<u8>) -> Option<Seq<u8>>;

/// Relies on flate2's `ZlibDecoder` driven by `Read::read_to_end`:
/// inflates the whole stream, and fails on a malformed or truncated one.
#[verifier::external_body]
fn zlib_inflate_bytes(data: &Vec<u8>) -> (r: Result<Vec<u8>, String>)
    ensures
        r is Ok <==> zlib_inflate(data@) is Some,
        r matches Ok(out) ==> zlib_inflate(data@) == Some(out@),
{
    let mut out: Vec<u8> = Vec::new();
    let mut decoder = flate2::read::ZlibDecoder::new(data.as_slice());
    match std::io::Read::read_to_end(&mut decoder, &mut out) {
        Ok(_) => Ok(out),
        Err(e) => Err(e.to_string()),
    }
}

/// Inflates a zlib-compressed payload in full. A malformed or truncated
/// stream is a `DecompressionError`, never a partial result.
pub fn decompress(data: &Vec<u8>) -> (r: Result<Vec<u8>, SessionError>)
    ensures
        r is Ok <==> zlib_inflate(data@) is Some,
        r matches Ok(out) ==> zlib_inflate(data@) == Some(out@),
        r matches Err(e) ==> e is DecompressionError,
{
    match zlib_inflate_bytes(data) {
        Ok(out) => Ok(out),
        Err(msg) => Err(SessionError::DecompressionError(msg)),
    }
}

} // verus!

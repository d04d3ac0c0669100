//! Packing bytes into text that the store can hold: xz compression, then
//! base64.

use vstd::prelude::*;
use std::io::Read;
use std::io::Write;

verus! {

/// The base64 text of a sequence of bytes, by the standard alphabet and with
/// padding.
pub uninterp spec fn base64_text(data: Seq<u8>) -> Seq<char>;

/// The bytes that a text stands for in base64, by the standard alphabet and
/// with padding, if it stands for any.
pub uninterp spec fn base64_bytes(text: Seq<char>) -> Option<Seq<u8>>;

/// The bytes that an xz decoder reads out of a sequence of bytes, if it
/// accepts them.
pub uninterp spec fn xz_content(packed: Seq<u8>) -> Option<Seq<u8>>;

/// The bytes that a packed text stands for: its base64 decoding, unpacked
/// as an xz stream.
pub open spec fn unpacked(text: Seq<char>) -> Option<Seq<u8>> {
    match base64_bytes(text) {
        Some(stream) => xz_content(stream),
        None => None,
    }
}

/// Whether a text is a packing of bytes: the base64 text of a stream that
/// an xz decoder reads the bytes out of.
pub open spec fn packs(text: Seq<char>, data: Seq<u8>) -> bool {
    exists|stream: Seq<u8>|
        text == #[trigger] base64_text(stream) && xz_content(stream) == Some(data)
}

/// Why a packed text could not be unpacked.
#[derive(Debug, Clone, Copy, PartialEq, Eq, Structural)]
pub enum UnpackError {
    /// The text is not base64.
    Encoding,
    /// The bytes are not an xz stream.
    Compression,
}

/// Calls `base64::encode`, which writes the bytes in the standard alphabet
/// with padding.  The text depends on the bytes alone, and decodes to them.
#[verifier::external_body]
fn base64_encode(data: &[u8]) -> (text: String)
    ensures
        text@ == base64_text(data@),
        base64_bytes(text@) == Some(data@),
{
    base64::encode(data)
}

/// Calls `base64::decode`, which reads text in the standard alphabet with
/// padding and fails on anything else.
#[verifier::external_body]
fn base64_decode(text: &str) -> (data: Option<Vec<u8>>)
    ensures
        data is Some <==> base64_bytes(text@) is Some,
        data is Some ==> data->0@ == base64_bytes(text@)->0,
{
    base64::decode(text).ok()
}

/// The level at which bytes are compressed: the highest.
pub const LEVEL: u32 = 9;

/// Runs the bytes through `xz2::write::XzEncoder` at a level from 0 to 9 and
/// finishes the stream.  Where that succeeds, the result is an xz stream that
/// a decoder reads the bytes out of.
#[verifier::external_body]
fn xz_compress(data: &[u8], level: u32) -> (packed: Option<Vec<u8>>)
    requires
        level <= 9,
    ensures
        packed is Some ==> xz_content(packed->0@) == Some(data@),
{
    let mut encoder = xz2::write::XzEncoder::new(Vec::new(), level);
    match encoder.write_all(data) {
        Ok(()) => encoder.finish().ok(),
        Err(_) => None,
    }
}

/// Reads the bytes through `xz2::read::XzDecoder` to the end.  Whether that
/// succeeds, and what it gives, depends on the bytes alone.
#[verifier::external_body]
fn xz_decompress(packed: &[u8]) -> (data: Option<Vec<u8>>)
    ensures
        data is Some <==> xz_content(packed@) is Some,
        data is Some ==> data->0@ == xz_content(packed@)->0,
{
    let mut data = Vec::new();
    match xz2::read::XzDecoder::new(packed).read_to_end(&mut data) {
        Ok(_) => Some(data),
        Err(_) => None,
    }
}

/// Writes out what the compressor gave: the base64 text of the stream,
/// where it gave one, and nothing where it failed.
pub fn pack_stream(stream: Option<Vec<u8>>) -> (text: Option<String>)
    ensures
        text is Some <==> stream is Some,
        text is Some ==> text->0@ == base64_text(stream->0@),
        text is Some ==> base64_bytes(text->0@) == Some(stream->0@),
{
    match stream {
        Some(stream) => Some(base64_encode(stream.as_slice())),
        None => None,
    }
}

/// Packs bytes into text: the bytes are compressed at the highest level, and
/// the stream is written in base64.  Whether the compressor succeeds is for
/// the compressor to say; where it does not, there is no text.
pub fn pack(data: &[u8]) -> (text: Option<String>)
    ensures
        text is Some ==> packs(text->0@, data@),
        text is Some ==> unpacked(text->0@) == Some(data@),
{
    pack_stream(xz_compress(data, LEVEL))
}

/// Unpacks a text into the bytes it stands for.
pub fn unpack(text: &str) -> (data: Result<Vec<u8>, UnpackError>)
    ensures
        data is Ok <==> unpacked(text@) is Some,
        data is Ok ==> data->Ok_0@ == unpacked(text@)->0,
        data is Err ==> (data->Err_0 == UnpackError::Encoding <==> base64_bytes(text@) is None),
{
    match base64_decode(text) {
        None => Err(UnpackError::Encoding),
        Some(stream) => match xz_decompress(stream.as_slice()) {
            Some(data) => Ok(data),
            None => Err(UnpackError::Compression),
        },
    }
}

} // verus!

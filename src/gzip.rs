use vstd::prelude::*;
use crate::error::DecodeError;
use std::io::Read;
use std::io::Write;

verus! {

/// The modification time written into the header by `compress`.
pub const DEFAULT_MTIME: u32 = 0;

/// The operating-system byte written into the header by `compress`.
pub const DEFAULT_OS: u8 = 3;

/// The gzip member that flate2 writes for `payload` at the default level,
/// with the given modification time and operating-system byte.
pub uninterp spec fn gzip_member(payload: Seq<u8>, mtime: u32, os: u8) -> Seq<u8>;

/// What flate2 reads out of `b` as a sequence of gzip members: the joined
/// payloads, or how it failed.
pub uninterp spec fn gunzip_result(b: Seq<u8>) -> Result<Seq<u8>, DecodeError>;

/// The ten header bytes that flate2 writes at the default level with no
/// optional fields: magic number, deflate method, no flags, the modification
/// time little-endian, extra flags 0, then the operating-system byte.
pub open spec fn gzip_header(mtime: u32, os: u8) -> Seq<u8> {
    seq![
        31u8, 139, 8, 0, (mtime % 256) as u8, (mtime / 256 % 256) as u8, (mtime / 65536 % 256) as u8,
        (mtime / 16777216) as u8, 0, os,
    ]
}

/// Whether flate2's decoder reads `member` back as exactly `payload`.
pub open spec fn read_back(member: Seq<u8>, payload: Seq<u8>) -> bool {
    gunzip_result(member) == Ok::<Seq<u8>, DecodeError>(payload)
}

/// Relies on flate2::GzBuilder (mtime, operating_system, write) and
/// GzEncoder::finish: one gzip member holding `payload`, determined by the
/// bytes and the two header fields, starting with the header that
/// GzBuilder::into_header lays out, and read back by flate2's decoder as
/// `payload`. Writing into a `Vec` does not fail.
#[verifier::external_body]
fn gzip_encode(payload: &[u8], mtime: u32, os: u8) -> (r: Vec<u8>)
    ensures
        r@ == gzip_member(payload@, mtime, os),
        10 <= r@.len(),
        r@.subrange(0, 10) == gzip_header(mtime, os),
        read_back(r@, payload@),
{
    let mut enc = flate2::GzBuilder::new().mtime(mtime).operating_system(os).write(
        Vec::new(),
        flate2::Compression::default(),
    );
    let _ = enc.write_all(payload);
    enc.finish().unwrap_or_default()
}

/// Relies on flate2::read::MultiGzDecoder with read_to_end: the joined
/// payloads of all members; input that ends early is reported by an
/// `UnexpectedEof` error, any other failure is a corrupt stream.
#[verifier::external_body]
fn gunzip(b: &[u8]) -> (r: Result<Vec<u8>, DecodeError>)
    ensures
        match r {
            Ok(v) => gunzip_result(b@) == Ok::<Seq<u8>, DecodeError>(v@),
            Err(e) => gunzip_result(b@) == Err::<Seq<u8>, DecodeError>(e) && (e
                == DecodeError::TruncatedInput || e == DecodeError::CorruptStream),
        },
{
    let mut out = Vec::new();
    match flate2::read::MultiGzDecoder::new(b).read_to_end(&mut out) {
        Ok(_) => Ok(out),
        Err(e) if e.kind() == std::io::ErrorKind::UnexpectedEof => Err(DecodeError::TruncatedInput),
        Err(_) => Err(DecodeError::CorruptStream),
    }
}

/// The verdict on the fixed ten-byte header prefix: a wrong magic number or
/// method byte among the bytes present, else too few bytes for a header.
pub open spec fn header_verdict(b: Seq<u8>) -> Option<DecodeError> {
    if (b.len() >= 1 && b[0] != 31) || (b.len() >= 2 && b[1] != 139) || (b.len() >= 3 && b[2]
        != 8) {
        Some(DecodeError::InvalidHeader)
    } else if b.len() < 10 {
        Some(DecodeError::TruncatedInput)
    } else {
        None
    }
}

/// What `decompress` returns for `b`, as bytes.
pub open spec fn decompress_result(b: Seq<u8>) -> Result<Seq<u8>, DecodeError> {
    match header_verdict(b) {
        Some(e) => Err(e),
        None => gunzip_result(b),
    }
}

/// Compresses `payload` into one gzip member with the given header fields;
/// decompressing the result gives `payload` back.
pub fn compress_with(payload: &[u8], mtime: u32, os: u8) -> (r: Vec<u8>)
    ensures
        r@ == gzip_member(payload@, mtime, os),
        r@.subrange(0, 10) == gzip_header(mtime, os),
        decompress_result(r@) == Ok::<Seq<u8>, DecodeError>(payload@),
{
    let r = gzip_encode(payload, mtime, os);
    assert(r@[0] == r@.subrange(0, 10)[0]);
    assert(r@[1] == r@.subrange(0, 10)[1]);
    assert(r@[2] == r@.subrange(0, 10)[2]);
    r
}

/// Compresses `payload` into one gzip member with modification time 0 and
/// operating-system byte 3, so that equal payloads give equal bytes.
pub fn compress(payload: &[u8]) -> (r: Vec<u8>)
    ensures
        r@ == gzip_member(payload@, DEFAULT_MTIME, DEFAULT_OS),
        r@.subrange(0, 10) == gzip_header(DEFAULT_MTIME, DEFAULT_OS),
        decompress_result(r@) == Ok::<Seq<u8>, DecodeError>(payload@),
{
    compress_with(payload, DEFAULT_MTIME, DEFAULT_OS)
}

/// Decompresses one or more chained gzip members.
pub fn decompress(b: &[u8]) -> (r: Result<Vec<u8>, DecodeError>)
    ensures
        match r {
            Ok(v) => decompress_result(b@) == Ok::<Seq<u8>, DecodeError>(v@),
            Err(e) => decompress_result(b@) == Err::<Seq<u8>, DecodeError>(e),
        },
        b@.len() < 10 ==> (r == Err::<Vec<u8>, DecodeError>(DecodeError::InvalidHeader) || r
            == Err::<Vec<u8>, DecodeError>(DecodeError::TruncatedInput)),
{
    let n = b.len();
    if (n >= 1 && b[0] != 31) || (n >= 2 && b[1] != 139) || (n >= 3 && b[2] != 8) {
        Err(DecodeError::InvalidHeader)
    } else if n < 10 {
        Err(DecodeError::TruncatedInput)
    } else {
        gunzip(b)
    }
}

} // verus!

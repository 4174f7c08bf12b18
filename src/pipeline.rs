use vstd::prelude::*;
use crate::error::DecodeError;
use crate::gzip::{compress, decompress, decompress_result, gzip_member, DEFAULT_MTIME, DEFAULT_OS};
use crate::record::TestJson;
use crate::text::{canonical_text, decode_verdict, outcome_is};

verus! {

/// The gzip member of the zero record's canonical text, with modification
/// time 0 and operating-system byte 3.
pub open spec fn reference_member() -> Seq<u8> {
    seq![
        31u8, 139, 8, 0, 0, 0, 0, 0, 0, 3, 171, 230, 82, 80, 80, 202, 173, 140, 207, 43, 205, 85,
        178, 82, 48, 208, 129, 114, 139, 75, 138, 128, 92, 37, 37, 174, 90, 0, 147, 5, 104, 9,
        33, 0, 0, 0,
    ]
}

/// The compressed canonical text of the zero record, as bytes.
pub fn basic_gzip_str() -> (r: Vec<u8>)
    ensures
        r@ == reference_member(),
{
    let r: Vec<u8> = vec![
        31u8, 139, 8, 0, 0, 0, 0, 0, 0, 3, 171, 230, 82, 80, 80, 202, 173, 140, 207, 43, 205, 85,
        178, 82, 48, 208, 129, 114, 139, 75, 138, 128, 92, 37, 37, 174, 90, 0, 147, 5, 104, 9,
        33, 0, 0, 0,
    ];
    assert(r@ == reference_member());
    r
}

impl TestJson {
    /// The canonical text of the record, compressed into one gzip member,
    /// which decompresses to that text.
    pub fn to_json_gz(&self) -> (r: Vec<u8>)
        ensures
            r@ == gzip_member(canonical_text(*self), DEFAULT_MTIME, DEFAULT_OS),
            decompress_result(r@) == Ok::<Seq<u8>, DecodeError>(canonical_text(*self)),
    {
        let text = self.to_json_bytes();
        compress(text.as_slice())
    }

    /// Decompresses `buf` and reads a record out of the text; the first
    /// failure of either step is returned.
    pub fn from_gz_bytes(buf: &[u8]) -> (r: Result<TestJson, DecodeError>)
        ensures
            match decompress_result(buf@) {
                Err(e) => r == Err::<TestJson, DecodeError>(e),
                Ok(text) => outcome_is(r, decode_verdict(text)),
            },
    {
        match decompress(buf) {
            Err(e) => Err(e),
            Ok(text) => TestJson::from_json_bytes(text.as_slice()),
        }
    }
}

} // verus!

use vstd::prelude::*;
use crate::error::DecodeError;
use crate::gzip::{decompress_result, gzip_member, DEFAULT_MTIME, DEFAULT_OS};
use crate::record::TestJson;
use crate::text::{canonical_text, decimal, escape_chars, json_string_bytes};

verus! {

/// Encoding is a function of the record's value: equal records give
/// byte-identical text, and byte-identical compressed buffers.
pub proof fn encoding_is_deterministic(a: TestJson, b: TestJson)
    requires
        a.same_as(&b),
    ensures
        canonical_text(a) == canonical_text(b),
        gzip_member(canonical_text(a), DEFAULT_MTIME, DEFAULT_OS) == gzip_member(
            canonical_text(b),
            DEFAULT_MTIME,
            DEFAULT_OS,
        ),
{
}

/// A buffer shorter than a gzip header is refused, either for a wrong
/// magic number or method byte, or as truncated input.
pub proof fn short_buffer_is_refused(b: Seq<u8>)
    requires
        b.len() < 10,
    ensures
        decompress_result(b) == Err::<Seq<u8>, DecodeError>(DecodeError::InvalidHeader)
            || decompress_result(b) == Err::<Seq<u8>, DecodeError>(DecodeError::TruncatedInput),
{
}

/// The zero record's text is exactly
/// `{\n  "my_num": 0,\n  "my_str": ""\n}`, with no trailing line feed.
pub proof fn zero_record_text(r: TestJson)
    requires
        r.is_zero(),
    ensures
        canonical_text(r) == seq![
            123u8, 10, 32, 32, 34, 109, 121, 95, 110, 117, 109, 34, 58, 32, 48, 44, 10, 32, 32, 34,
            109, 121, 95, 115, 116, 114, 34, 58, 32, 34, 34, 10, 125,
        ],
{
    assert(decimal(0) == seq![48u8]);
    assert(escape_chars(r.my_str@) == Seq::<u8>::empty());
    assert(json_string_bytes(r.my_str@) == seq![34u8, 34u8]);
    assert(canonical_text(r) == seq![
        123u8, 10, 32, 32, 34, 109, 121, 95, 110, 117, 109, 34, 58, 32, 48, 44, 10, 32, 32, 34,
        109, 121, 95, 115, 116, 114, 34, 58, 32, 34, 34, 10, 125,
    ]);
}

} // verus!

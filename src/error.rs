use vstd::prelude::*;

verus! {

/// Why a text or a compressed buffer could not be turned back into a record.
#[derive(Debug, Clone, Copy, PartialEq, Eq, Structural)]
pub enum DecodeError {
    /// The text is not well-formed JSON.
    MalformedText,
    /// The JSON lacks a field, or holds one of the wrong type or range.
    SchemaMismatch,
    /// The buffer does not start with a gzip magic number and deflate method.
    InvalidHeader,
    /// A checksum does not match, or the deflate data is invalid.
    CorruptStream,
    /// The buffer ends before a complete member has been read.
    TruncatedInput,
}

} // verus!

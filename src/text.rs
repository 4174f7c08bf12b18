use vstd::prelude::*;
use vstd::utf8::encode_utf8;
use crate::error::DecodeError;
use crate::record::TestJson;

verus! {

/// A lowercase hexadecimal digit.
pub open spec fn hex_digit(d: u32) -> u8 {
    if d < 10 {
        (48 + d) as u8
    } else {
        (87 + d) as u8
    }
}

/// How serde_json writes one character inside a string literal: a quote and
/// a backslash get a backslash, backspace, tab, line feed, form feed and
/// carriage return their short escapes, other control characters `\u00`
/// and two hex digits, everything else its UTF-8 bytes.
pub open spec fn escape_char(c: char) -> Seq<u8> {
    if c == '"' {
        seq![92u8, 34]
    } else if c == '\\' {
        seq![92u8, 92]
    } else if c == '\x08' {
        seq![92u8, 98]
    } else if c == '\t' {
        seq![92u8, 116]
    } else if c == '\n' {
        seq![92u8, 110]
    } else if c == '\x0c' {
        seq![92u8, 102]
    } else if c == '\r' {
        seq![92u8, 114]
    } else if (c as u32) < 32 {
        seq![92u8, 117, 48, 48, hex_digit(c as u32 / 16), hex_digit(c as u32 % 16)]
    } else {
        encode_utf8(seq![c])
    }
}

/// The escaped characters of `s`, in order.
pub open spec fn escape_chars(s: Seq<char>) -> Seq<u8>
    decreases s.len(),
{
    if s.len() == 0 {
        Seq::empty()
    } else {
        escape_chars(s.drop_last()) + escape_char(s.last())
    }
}

/// The JSON string literal of `s`: its escaped characters between quotes.
pub open spec fn json_string_bytes(s: Seq<char>) -> Seq<u8> {
    seq![34u8] + escape_chars(s) + seq![34u8]
}

/// Relies on serde_json::to_vec on a `str`, which writes the string through
/// its escape table. Serialising a `str` into a `Vec` cannot fail.
#[verifier::external_body]
fn quote_json(s: &str) -> (r: Vec<u8>)
    ensures
        r@ == json_string_bytes(s@),
{
    serde_json::to_vec(s).unwrap_or_default()
}

/// The decimal digits of `n`, most significant first, without leading zeros.
pub open spec fn decimal(n: nat) -> Seq<u8>
    decreases n,
{
    if n < 10 {
        seq![(48 + n) as u8]
    } else {
        decimal(n / 10).push((48 + n % 10) as u8)
    }
}

/// `{`, a line feed, two spaces and the first key with its colon and space.
pub open spec fn text_head() -> Seq<u8> {
    seq![123u8, 10, 32, 32, 34, 109, 121, 95, 110, 117, 109, 34, 58, 32]
}

/// The comma after the number, a line feed, two spaces, the second key.
pub open spec fn text_mid() -> Seq<u8> {
    seq![44u8, 10, 32, 32, 34, 109, 121, 95, 115, 116, 114, 34, 58, 32]
}

/// A line feed and the closing brace.
pub open spec fn text_tail() -> Seq<u8> {
    seq![10u8, 125]
}

/// The canonical text of a record: both keys in order, two-space indent,
/// no trailing line feed.
pub open spec fn canonical_text(r: TestJson) -> Seq<u8> {
    text_head() + decimal(r.my_num as nat) + text_mid() + json_string_bytes(r.my_str@)
        + text_tail()
}

fn append_bytes(out: &mut Vec<u8>, b: &[u8])
    ensures
        final(out)@ == old(out)@ + b@,
{
    let mut i: usize = 0;
    while i < b.len()
        invariant
            i <= b@.len(),
            out@ == old(out)@ + b@.subrange(0, i as int),
        decreases b@.len() - i,
    {
        out.push(b[i]);
        i = i + 1;
        assert(b@.subrange(0, i as int) == b@.subrange(0, i - 1) + seq![b@[i - 1]]);
    }
    assert(b@.subrange(0, b@.len() as int) == b@);
}

fn append_decimal(out: &mut Vec<u8>, n: u64)
    ensures
        final(out)@ == old(out)@ + decimal(n as nat),
    decreases n,
{
    if n >= 10 {
        append_decimal(out, n / 10);
    }
    out.push((48 + n % 10) as u8);
    assert(final(out)@ == old(out)@ + decimal(n as nat));
}

impl TestJson {
    /// The record as canonical pretty-printed JSON text.
    pub fn to_json_bytes(&self) -> (r: Vec<u8>)
        ensures
            r@ == canonical_text(*self),
    {
        let mut out: Vec<u8> = vec![123u8, 10, 32, 32, 34, 109, 121, 95, 110, 117, 109, 34, 58, 32];
        append_decimal(&mut out, self.my_num);
        let mid: Vec<u8> = vec![44u8, 10, 32, 32, 34, 109, 121, 95, 115, 116, 114, 34, 58, 32];
        append_bytes(&mut out, mid.as_slice());
        let quoted = quote_json(self.my_str.as_str());
        append_bytes(&mut out, quoted.as_slice());
        out.push(10u8);
        out.push(125u8);
        assert(out@ == canonical_text(*self));
        out
    }
}

} // verus!

verus! {

/// Whether serde_json reads `b` as one well-formed JSON value.
pub uninterp spec fn json_accepts(b: Seq<u8>) -> bool;

/// The member under `key` of the JSON object in `b`, as serde_json reads
/// it, where it is an integer in the range of `u64`.
pub uninterp spec fn json_u64_member(b: Seq<u8>, key: Seq<char>) -> Option<u64>;

/// The member under `key` of the JSON object in `b`, as serde_json reads
/// it, where it is a string: its unescaped characters.
pub uninterp spec fn json_str_member(b: Seq<u8>, key: Seq<char>) -> Option<Seq<char>>;

/// Relies on serde_json::from_slice into a `Value`: it succeeds exactly on
/// well-formed JSON, a property of the bytes alone.
#[verifier::external_body]
fn json_is_valid(b: &[u8]) -> (r: bool)
    ensures
        r == json_accepts(b@),
{
    serde_json::from_slice::<serde_json::Value>(b).is_ok()
}

/// Relies on serde_json::from_slice into a `Value`, Value::get with a string
/// key (a member of an object, `None` for any other value) and
/// Value::as_u64 (a non-negative integer that fits).
#[verifier::external_body]
fn read_u64_member(b: &[u8], key: &str) -> (r: Option<u64>)
    ensures
        r == json_u64_member(b@, key@),
{
    match serde_json::from_slice::<serde_json::Value>(b) {
        Ok(v) => v.get(key).and_then(serde_json::Value::as_u64),
        Err(_) => None,
    }
}

/// Relies on serde_json::from_slice into a `Value`, Value::get with a string
/// key and Value::as_str (the contents of a JSON string).
#[verifier::external_body]
fn read_str_member(b: &[u8], key: &str) -> (r: Option<String>)
    ensures
        match r {
            Some(s) => json_str_member(b@, key@) == Some(s@),
            None => json_str_member(b@, key@) is None,
        },
{
    match serde_json::from_slice::<serde_json::Value>(b) {
        Ok(v) => v.get(key).and_then(serde_json::Value::as_str).map(String::from),
        Err(_) => None,
    }
}

/// The key of the number field.
pub open spec fn num_key() -> Seq<char> {
    seq!['m', 'y', '_', 'n', 'u', 'm']
}

/// The key of the string field.
pub open spec fn str_key() -> Seq<char> {
    seq!['m', 'y', '_', 's', 't', 'r']
}

/// The fields that decoding `b` gives, or why it fails: malformed JSON, else
/// both fields present with the right types, else a schema mismatch.
pub open spec fn decode_verdict(b: Seq<u8>) -> Result<(u64, Seq<char>), DecodeError> {
    if !json_accepts(b) {
        Err(DecodeError::MalformedText)
    } else {
        match (json_u64_member(b, num_key()), json_str_member(b, str_key())) {
            (Some(n), Some(s)) => Ok((n, s)),
            _ => Err(DecodeError::SchemaMismatch),
        }
    }
}

/// `r` is the record with the fields of `v`, or the error of `v`.
pub open spec fn outcome_is(r: Result<TestJson, DecodeError>, v: Result<(u64, Seq<char>), DecodeError>) -> bool {
    match v {
        Ok((n, s)) => r matches Ok(t) && t.my_num == n && t.my_str@ == s,
        Err(e) => r == Err::<TestJson, DecodeError>(e),
    }
}

/// Builds a record from the two fields as read out of the JSON text; a
/// missing or mistyped field is a schema mismatch.
pub fn record_from_fields(num: Option<u64>, text: Option<String>) -> (r: Result<TestJson, DecodeError>)
    ensures
        num is Some && text is Some ==> (r matches Ok(t) && t.my_num == num->0 && t.my_str@ == text->0@),
        !(num is Some && text is Some) ==> r == Err::<TestJson, DecodeError>(DecodeError::SchemaMismatch),
{
    match (num, text) {
        (Some(n), Some(s)) => Ok(TestJson::new(n, s)),
        _ => Err(DecodeError::SchemaMismatch),
    }
}

impl TestJson {
    /// Reads a record out of JSON text. Unknown members are ignored.
    pub fn from_json_bytes(b: &[u8]) -> (r: Result<TestJson, DecodeError>)
        ensures
            outcome_is(r, decode_verdict(b@)),
    {
        if !json_is_valid(b) {
            return Err(DecodeError::MalformedText);
        }
        let num_name = "my_num";
        let str_name = "my_str";
        proof {
            reveal_strlit("my_num");
            reveal_strlit("my_str");
        }
        assert(num_name@ == num_key());
        assert(str_name@ == str_key());
        let num = read_u64_member(b, num_name);
        let text = read_str_member(b, str_name);
        record_from_fields(num, text)
    }
}

} // verus!

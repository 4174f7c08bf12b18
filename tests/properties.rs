use gzjson::gzip::{compress, compress_with, decompress};
use gzjson::text::record_from_fields;
use gzjson::{basic_gzip_str, DecodeError, TestJson};
use std::cmp::Ordering;
use std::io::Read;

fn samples() -> Vec<TestJson> {
    vec![
        TestJson::default(),
        TestJson::new(42, String::from("hello")),
        TestJson::new(u64::MAX, String::from("quote \" backslash \\ newline \n tab \t")),
        TestJson::new(7, String::from("\u{1}\u{1f} control")),
        TestJson::new(1234567890, String::from("h\u{e9}llo w\u{f6}rld \u{1F600}")),
    ]
}

#[test]
fn text_round_trip() {
    for r in samples() {
        let text = r.to_json_bytes();
        assert_eq!(TestJson::from_json_bytes(&text), Ok(r));
    }
}

#[test]
fn compressed_round_trip() {
    for r in samples() {
        let buf = r.to_json_gz();
        assert_eq!(TestJson::from_gz_bytes(&buf), Ok(r));
    }
}

#[test]
fn encoding_repeats_byte_for_byte() {
    for r in samples() {
        let copy = r.clone();
        assert_eq!(r.to_json_bytes(), copy.to_json_bytes());
        assert_eq!(r.to_json_gz(), copy.to_json_gz());
    }
}

#[test]
fn number_and_escapes_in_text() {
    let r = TestJson::new(18446744073709551615, String::from("a\"b"));
    let s = String::from_utf8(r.to_json_bytes()).unwrap();
    assert_eq!(s, "{\n  \"my_num\": 18446744073709551615,\n  \"my_str\": \"a\\\"b\"\n}");
    let r = TestJson::new(105, String::from("x\ny"));
    let s = String::from_utf8(r.to_json_bytes()).unwrap();
    assert_eq!(s, "{\n  \"my_num\": 105,\n  \"my_str\": \"x\\ny\"\n}");
}

#[test]
fn control_characters_are_escaped() {
    let r = TestJson::new(0, String::from("\u{1}\u{8}\u{c}\r\t\\/\u{1f}\u{7f}\u{e9}"));
    let s = String::from_utf8(r.to_json_bytes()).unwrap();
    assert_eq!(
        s,
        "{\n  \"my_num\": 0,\n  \"my_str\": \"\\u0001\\b\\f\\r\\t\\\\/\\u001f\u{7f}\u{e9}\"\n}"
    );
}

#[test]
fn default_text_literal() {
    let s = String::from_utf8(TestJson::default().to_json_bytes()).unwrap();
    assert_eq!(s, "{\n  \"my_num\": 0,\n  \"my_str\": \"\"\n}");
}

#[test]
fn default_compressed_reference() {
    let text = TestJson::default().to_json_bytes();
    assert_eq!(compress(&text), basic_gzip_str());
    assert_eq!(compress(&text).len(), 46);
}

#[test]
fn header_fields_follow_configuration() {
    let buf = compress_with(b"abc", 0x01020304, 255);
    assert_eq!(&buf[0..10], &[31, 139, 8, 0, 4, 3, 2, 1, 0, 255]);
    assert_eq!(decompress(&buf), Ok(b"abc".to_vec()));
    assert_ne!(compress(b"abc"), b"abc".to_vec());
}

#[test]
fn flipped_crc_byte_is_corrupt() {
    let buf = basic_gzip_str();
    let n = buf.len();
    for k in (n - 8)..(n - 4) {
        let mut bad = buf.clone();
        bad[k] ^= 0xff;
        assert_eq!(decompress(&bad), Err(DecodeError::CorruptStream));
        assert_eq!(TestJson::from_gz_bytes(&bad), Err(DecodeError::CorruptStream));
    }
}

#[test]
fn short_buffer_is_refused() {
    let buf = basic_gzip_str();
    for k in 0..10 {
        let r = decompress(&buf[0..k]);
        assert!(r == Err(DecodeError::InvalidHeader) || r == Err(DecodeError::TruncatedInput));
    }
    assert_eq!(decompress(&[]), Err(DecodeError::TruncatedInput));
    assert_eq!(decompress(&buf[0..5]), Err(DecodeError::TruncatedInput));
}

#[test]
fn cut_trailer_is_truncated() {
    let buf = basic_gzip_str();
    assert_eq!(decompress(&buf[0..40]), Err(DecodeError::TruncatedInput));
    assert_eq!(TestJson::from_gz_bytes(&buf[0..44]), Err(DecodeError::TruncatedInput));
}

#[test]
fn wrong_magic_or_method_is_invalid_header() {
    let mut buf = basic_gzip_str();
    buf[0] = 0;
    assert_eq!(decompress(&buf), Err(DecodeError::InvalidHeader));
    let mut buf = basic_gzip_str();
    buf[2] = 7;
    assert_eq!(TestJson::from_gz_bytes(&buf), Err(DecodeError::InvalidHeader));
    assert_eq!(decompress(&[0x50, 0x4b]), Err(DecodeError::InvalidHeader));
}

#[test]
fn garbled_deflate_body_is_corrupt() {
    let mut buf = basic_gzip_str();
    buf[10] = 0xff;
    buf[11] = 0xff;
    assert_eq!(decompress(&buf), Err(DecodeError::CorruptStream));
}

#[test]
fn chained_members_are_joined() {
    let mut buf = compress(b"ab");
    buf.extend(compress(b"cd"));
    assert_eq!(decompress(&buf), Ok(b"abcd".to_vec()));
}

#[test]
fn unknown_member_is_ignored() {
    let text = "{\"extra\": [1, {\"a\": null}], \"my_num\": 9, \"my_str\": \"z\", \"more\": true}";
    assert_eq!(
        TestJson::from_json_bytes(text.as_bytes()),
        Ok(TestJson::new(9, String::from("z")))
    );
    let buf = compress(text.as_bytes());
    assert_eq!(TestJson::from_gz_bytes(&buf), Ok(TestJson::new(9, String::from("z"))));
}

#[test]
fn malformed_text_is_reported() {
    assert_eq!(TestJson::from_json_bytes(b"{\"my_num\": 0,"), Err(DecodeError::MalformedText));
    assert_eq!(TestJson::from_json_bytes(b""), Err(DecodeError::MalformedText));
    let buf = compress(b"not json");
    assert_eq!(TestJson::from_gz_bytes(&buf), Err(DecodeError::MalformedText));
}

#[test]
fn schema_mismatch_is_reported() {
    let cases: Vec<&str> = vec![
        "{\"my_num\": 0}",
        "{\"my_str\": \"\"}",
        "{\"my_num\": -1, \"my_str\": \"\"}",
        "{\"my_num\": 18446744073709551616, \"my_str\": \"\"}",
        "{\"my_num\": 1.5, \"my_str\": \"\"}",
        "{\"my_num\": \"0\", \"my_str\": \"\"}",
        "{\"my_num\": 0, \"my_str\": 5}",
        "[0, \"\"]",
        "17",
    ];
    for c in cases {
        assert_eq!(TestJson::from_json_bytes(c.as_bytes()), Err(DecodeError::SchemaMismatch));
    }
}

#[test]
fn fields_build_a_record() {
    assert_eq!(
        record_from_fields(Some(3), Some(String::from("q"))),
        Ok(TestJson::new(3, String::from("q")))
    );
    assert_eq!(record_from_fields(None, Some(String::new())), Err(DecodeError::SchemaMismatch));
    assert_eq!(record_from_fields(Some(3), None), Err(DecodeError::SchemaMismatch));
}

struct Trickle<'a> {
    data: &'a [u8],
}

impl<'a> Read for Trickle<'a> {
    fn read(&mut self, out: &mut [u8]) -> std::io::Result<usize> {
        if self.data.is_empty() || out.is_empty() {
            return Ok(0);
        }
        out[0] = self.data[0];
        self.data = &self.data[1..];
        Ok(1)
    }
}

#[test]
fn incremental_source_matches_buffer() {
    for r in samples() {
        let buf = r.to_json_gz();
        let mut text: Vec<u8> = Vec::new();
        flate2::read::MultiGzDecoder::new(Trickle { data: &buf })
            .read_to_end(&mut text)
            .unwrap();
        let streamed = TestJson::from_json_bytes(&text);
        assert_eq!(streamed, TestJson::from_gz_bytes(&buf));
        assert_eq!(streamed, Ok(r));
    }
}

#[test]
fn records_order_by_number_then_string() {
    let a = TestJson::new(1, String::from("b"));
    let b = TestJson::new(2, String::from("a"));
    let c = TestJson::new(2, String::from("ab"));
    assert!(a < b);
    assert!(b < c);
    assert_eq!(c.partial_cmp(&c.clone()), Some(Ordering::Equal));
    assert_eq!(TestJson::new(0, String::from("\u{e9}")).partial_cmp(&TestJson::new(0, String::from("z"))), Some(Ordering::Greater));
    assert_ne!(a, b);
}

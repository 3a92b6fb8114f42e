//! Feeding the reassembler byte streams in assorted chunkings.

use capi_core::stream::StreamerCallback;
use capi_core::stream::utf8_prefix_len;

fn feed_in_chunks(input: &str, chunk_len: usize) -> (String, usize) {
    let bytes = input.as_bytes();
    let mut cb = StreamerCallback::new();
    let mut out = String::new();
    let mut emitted_chunks = 0usize;
    let mut start = 0usize;
    while start < bytes.len() {
        let end = (start + chunk_len).min(bytes.len());
        if let Some(s) = cb.on_token(&bytes[start..end]) {
            assert!(std::str::from_utf8(s.as_bytes()).is_ok());
            out.push_str(&s);
            emitted_chunks += 1;
        }
        start = end;
    }
    (out, emitted_chunks)
}

#[test]
fn reassembles_byte_at_a_time() {
    let input = "h\u{e9}llo w\u{f6}rld \u{4f60}\u{597d} \u{1f30d}!";
    let (out, _) = feed_in_chunks(input, 1);
    assert_eq!(out, input);
}

#[test]
fn reassembles_various_chunk_sizes() {
    let input = "a\u{e9}\u{4f60}\u{1f30d}z repeated \u{1f30d}\u{1f30d}\u{1f30d} end";
    for chunk_len in 1..=7 {
        let (out, _) = feed_in_chunks(input, chunk_len);
        assert_eq!(out, input, "chunk length {}", chunk_len);
    }
}

#[test]
fn ascii_chunk_emitted_immediately() {
    let mut cb = StreamerCallback::new();
    let got = cb.on_token(b"hello");
    assert_eq!(got.as_deref(), Some("hello"));
}

#[test]
fn split_multibyte_char_held_back() {
    // U+4F60 is encoded as e4 bd a0.
    let mut cb = StreamerCallback::new();
    assert_eq!(cb.on_token(&[0xe4]), None);
    assert_eq!(cb.on_token(&[0xbd]), None);
    let got = cb.on_token(&[0xa0]);
    assert_eq!(got.as_deref(), Some("\u{4f60}"));
}

#[test]
fn valid_prefix_emitted_invalid_suffix_buffered() {
    let mut cb = StreamerCallback::new();
    // "ab" followed by the first byte of a three-byte encoding.
    let got = cb.on_token(&[b'a', b'b', 0xe4]);
    assert_eq!(got.as_deref(), Some("ab"));
    let got = cb.on_token(&[0xbd, 0xa0, b'c']);
    assert_eq!(got.as_deref(), Some("\u{4f60}c"));
}

#[test]
fn ill_formed_byte_blocks_emission() {
    let mut cb = StreamerCallback::new();
    assert_eq!(cb.on_token(&[0xff]), None);
    assert_eq!(cb.on_token(b"ab"), None);
}

#[test]
fn prefix_len_cases() {
    assert_eq!(utf8_prefix_len(b"plain ascii"), 11);
    assert_eq!(utf8_prefix_len(&[0xe4, 0xbd, 0xa0]), 3);
    assert_eq!(utf8_prefix_len(&[0xe4, 0xbd]), 0);
    assert_eq!(utf8_prefix_len(&[b'a', 0xe4, 0xbd]), 1);
    assert_eq!(utf8_prefix_len(&[0x80]), 0);
    // Overlong two-byte encoding of '/'.
    assert_eq!(utf8_prefix_len(&[0xc0, 0xaf]), 0);
    // A surrogate encoded in three bytes.
    assert_eq!(utf8_prefix_len(&[0xed, 0xa0, 0x80]), 0);
    // Beyond the scalar range.
    assert_eq!(utf8_prefix_len(&[0xf5, 0x80, 0x80, 0x80]), 0);
    // Four-byte emoji.
    assert_eq!(utf8_prefix_len(&[0xf0, 0x9f, 0x8c, 0x8d]), 4);
}

use tars::lines::LineBuffer;
use tars::text::{parse_u32_text, trimmed, u32_text, is_whitespace, trim_start_repeats};

#[test]
fn line_buffer_keeps_the_unfinished_line() {
    let mut b = LineBuffer::new();
    let first = b.push_chunk(b"ab\ncd");
    assert_eq!(first, vec![b"ab".to_vec()]);
    let second = b.push_chunk(b"e\n\nf");
    assert_eq!(second, vec![b"cde".to_vec(), Vec::new()]);
    let third = b.push_chunk(b"");
    assert!(third.is_empty());
    let fourth = b.push_chunk(b"\n");
    assert_eq!(fourth, vec![b"f".to_vec()]);
}

#[test]
fn line_buffer_does_not_depend_on_chunking() {
    let data: &[u8] = b"one\ntwo\nthree\nfo";
    let mut whole = LineBuffer::new();
    let all = whole.push_chunk(data);
    for cut in 0..=data.len() {
        let mut split = LineBuffer::new();
        let mut got = split.push_chunk(&data[..cut]);
        got.extend(split.push_chunk(&data[cut..]));
        assert_eq!(got, all, "cut at {cut}");
    }
    assert_eq!(all, vec![b"one".to_vec(), b"two".to_vec(), b"three".to_vec()]);
}

#[test]
fn trimmed_removes_unicode_white_space_at_both_ends() {
    assert_eq!(trimmed("  x y \t\n"), "x y");
    assert_eq!(trimmed("\u{3000}\u{a0}z\u{2028}"), "z");
    assert_eq!(trimmed("   "), "");
    assert_eq!(trimmed(""), "");
    let s = " \u{85}mixed\u{200a} ";
    assert_eq!(trimmed(s), s.trim());
}

#[test]
fn whitespace_matches_char_is_whitespace() {
    for u in 0u32..0x3100 {
        if let Some(c) = char::from_u32(u) {
            assert_eq!(is_whitespace(c), c.is_whitespace(), "U+{u:04X}");
        }
    }
}

#[test]
fn parse_u32_text_follows_str_parse() {
    for s in ["0", "42", "+42", "007", "4294967295", "4294967296", "", "+", "-1", "-0", "1 ", "a1", "99999999999"] {
        assert_eq!(parse_u32_text(s), s.parse::<u32>().ok(), "{s:?}");
    }
}

#[test]
fn u32_text_writes_decimal() {
    for v in [0u32, 7, 10, 109, 4294967295] {
        assert_eq!(u32_text(v), v.to_string());
    }
}

#[test]
fn trim_start_repeats_removes_every_leading_copy() {
    assert_eq!(trim_start_repeats("----model", "--"), "model");
    assert_eq!(trim_start_repeats("---x", "--"), "-x");
    assert_eq!(trim_start_repeats("abc", "--"), "abc");
}

#[test]
fn json_strings_are_written_as_serde_json_writes_them() {
    let mut all = String::new();
    for u in 0u32..0x80 {
        all.push(char::from_u32(u).unwrap());
    }
    all.push_str("é€😀\u{2028}");
    for s in [all.as_str(), "", "plain", "q\"b\\s/", "\u{1}\u{1f}\u{7f}"] {
        assert_eq!(tars::text::json_string(s), serde_json::to_string(s).unwrap());
    }
    assert_eq!(tars::text::json_string("a\u{8}\t\n\u{c}\r\u{1b}"), "\"a\\b\\t\\n\\f\\r\\u001b\"");
}

use parallel_invocation::invocation::{summarize, EXCERPT_LIMIT};
use parallel_invocation::text::{
    chars_of, decimal_text, decode_trimmed, occurs_within, response_text, trimmed_bounds,
    trimmed_text, white_space,
};

#[test]
fn summary_of_success_without_space() {
    assert_eq!(summarize("{\"statusCode\":200,\"body\":\"done\"}"), "成功");
}

#[test]
fn summary_of_success_with_space() {
    assert_eq!(summarize("  {\"statusCode\": 200}\n"), "成功");
}

#[test]
fn summary_of_throttling_exception() {
    assert_eq!(
        summarize("{\"errorType\":\"TooManyRequestsException\"}"),
        "スロットリング"
    );
}

#[test]
fn summary_of_rate_exceeded() {
    assert_eq!(summarize("Rate exceeded"), "スロットリング");
}

#[test]
fn throttling_outranks_success() {
    assert_eq!(
        summarize("{\"statusCode\":200} TooManyRequestsException"),
        "スロットリング"
    );
}

#[test]
fn summary_quotes_short_body_trimmed() {
    assert_eq!(summarize("  {\"statusCode\":500}  \n"), "{\"statusCode\":500}");
}

#[test]
fn summary_cuts_long_body_at_eighty_characters() {
    let body = "x".repeat(200);
    let s = summarize(&body);
    assert_eq!(s.chars().count(), EXCERPT_LIMIT);
    assert_eq!(s, "x".repeat(80));
}

#[test]
fn summary_counts_characters_not_bytes() {
    let body = format!("\u{3000}{}\u{3000}", "あ".repeat(90));
    assert_eq!(summarize(&body), "あ".repeat(80));
}

#[test]
fn summary_of_blank_body_is_empty() {
    assert_eq!(summarize(" \t\n "), "");
    assert_eq!(summarize(""), "");
}

#[test]
fn summary_ignores_surrounding_white_space_example() {
    let body = "\n  {\"statusCode\": 404, \"message\": \"missing\"}\t";
    assert_eq!(summarize(body), summarize(body.trim()));
}

#[test]
fn trimming_uses_unicode_white_space() {
    assert_eq!(trimmed_text("\u{3000}\u{2028} arn:aws:iam::1:role/r \u{85}\u{a0}"), "arn:aws:iam::1:role/r");
    assert_eq!(trimmed_text("a b"), "a b");
    let s = "\u{2009}x\u{200a}";
    assert_eq!(trimmed_text(s), s.trim());
}

#[test]
fn white_space_agrees_with_std() {
    for c in ['\t', '\n', '\u{b}', '\u{c}', '\r', ' ', '\u{85}', '\u{a0}', '\u{1680}', '\u{2000}', '\u{200a}', '\u{2028}', '\u{2029}', '\u{202f}', '\u{205f}', '\u{3000}', 'a', '\u{200b}', '\u{180e}', 'あ'] {
        assert_eq!(white_space(c), c.is_whitespace(), "{:?}", c);
    }
}

#[test]
fn bounds_of_trimmed_window() {
    let v = chars_of("  ab c ");
    assert_eq!(trimmed_bounds(&v), (2, 6));
}

#[test]
fn occurrence_inside_window_only() {
    let hay = chars_of("abcXYZabc");
    let needle = chars_of("XYZ");
    assert!(occurs_within(&hay, 0, 9, &needle));
    assert!(occurs_within(&hay, 3, 6, &needle));
    assert!(!occurs_within(&hay, 4, 9, &needle));
    assert!(occurs_within(&hay, 2, 2, &chars_of("")));
}

#[test]
fn decimal_numerals() {
    assert_eq!(decimal_text(0), "0");
    assert_eq!(decimal_text(7), "7");
    assert_eq!(decimal_text(42), "42");
    assert_eq!(decimal_text(1234567890), "1234567890");
    assert_eq!(decimal_text(usize::MAX), usize::MAX.to_string());
}

#[test]
fn decoding_trims_output() {
    let r = decode_trimmed(b"  arn:aws:sts::123:assumed-role/x \r\n".to_vec());
    assert_eq!(r.unwrap(), "arn:aws:sts::123:assumed-role/x");
}

#[test]
fn decoding_rejects_invalid_utf8() {
    let r = decode_trimmed(vec![0x61, 0xff, 0x62]);
    let e = r.unwrap_err();
    assert_eq!(e.utf8_error().valid_up_to(), 1);
}

#[test]
fn decoding_keeps_multibyte_text() {
    assert_eq!(decode_trimmed("ロール\n".as_bytes().to_vec()).unwrap(), "ロール");
}

#[test]
fn response_text_falls_back_to_empty() {
    assert_eq!(response_text(None), "");
    assert_eq!(response_text(Some(vec![0xc3])), "");
    assert_eq!(response_text(Some(b" body ".to_vec())), " body ");
}

#[test]
fn white_space_agrees_with_std_everywhere() {
    for v in 0u32..=0x10ffff {
        if let Some(c) = char::from_u32(v) {
            assert_eq!(white_space(c), c.is_whitespace(), "U+{:04X}", v);
        }
    }
}

#[test]
fn decimal_numerals_agree_with_to_string() {
    for n in (0usize..2000).chain([9999, 10000, 65535, 1 << 40]) {
        assert_eq!(decimal_text(n), n.to_string());
    }
}

#[test]
fn trimming_agrees_with_std_on_samples() {
    for s in ["", " ", "\u{3000}", "a", " a ", "\t\u{2029}x y\u{205f}\n", "\u{200b}x\u{200b}", "  あ い  "] {
        assert_eq!(trimmed_text(s), s.trim(), "{:?}", s);
    }
}

#[test]
fn summary_ignores_white_space_padding_example() {
    let body = "{\"statusCode\":500,\"body\":\"boom\"}";
    let padded = format!("\u{3000}\t \n{body}\r\n\u{a0} ");
    assert_eq!(summarize(&padded), summarize(body));
    assert_eq!(summarize(&padded), body);
}

use yeet::classify::{create_text_preview, detect_text_type, looks_like_code};
use yeet::hashing::{compute_hash, image_data_hash, to_hex_lower};
use yeet::text::{chars_of, contains_chars, str_equals, trim_chars};

#[test]
fn compute_hash_of_abc_is_sha256_hex() {
    assert_eq!(
        compute_hash("abc"),
        "ba7816bf8f01cfea414140de5dae2223b00361a396177a9cb410ff61f20015ad"
    );
}

#[test]
fn compute_hash_of_empty_text() {
    assert_eq!(
        compute_hash(""),
        "e3b0c44298fc1c149afbf4c8996fb92427ae41e4649b934ca495991b7852b855"
    );
}

#[test]
fn compute_hash_hashes_utf8_bytes() {
    // "é" is two bytes in UTF-8: c3 a9.
    assert_eq!(compute_hash("é"), image_data_hash(&[0xc3, 0xa9]));
    assert_eq!(compute_hash("hello").len(), 64);
}

#[test]
fn image_hash_differs_from_its_input() {
    let h = image_data_hash(b"hello");
    assert_eq!(h, "2cf24dba5fb0a30e26e83b2ac5b9e29e1b161e5c1fa7425e73043362938b9824");
    assert_ne!(h, "hello");
}

#[test]
fn hex_is_lower_case_two_digits_per_byte() {
    assert_eq!(to_hex_lower(&[0x00, 0x0f, 0xa0, 0xff]), "000fa0ff");
    assert_eq!(to_hex_lower(&[]), "");
}

#[test]
fn detects_urls_after_trimming() {
    assert_eq!(detect_text_type("  https://example.com  "), "url");
    assert_eq!(detect_text_type("http://a"), "url");
    assert_eq!(detect_text_type("\u{3000}ftp://files"), "url");
    assert_eq!(detect_text_type("see https://example.com"), "text");
    assert_eq!(detect_text_type("HTTPS://EXAMPLE.COM"), "text");
}

#[test]
fn detects_code_by_two_indicators() {
    assert_eq!(detect_text_type("const x = 1;\nlet y = 2;"), "code");
    assert_eq!(detect_text_type("fn main() -> i32"), "code");
    assert_eq!(detect_text_type("const x = 1"), "text");
    assert_eq!(detect_text_type("hello world"), "text");
    assert_eq!(detect_text_type(""), "text");
}

#[test]
fn code_indicators_ignore_case() {
    assert!(looks_like_code("CONST A = 1; RETURN A"));
    assert!(!looks_like_code("CONSTANT"));
    assert!(looks_like_code("x => y -> z"));
}

#[test]
fn preview_keeps_short_text() {
    assert_eq!(create_text_preview("hello"), "hello");
    assert_eq!(create_text_preview(""), "");
}

#[test]
fn preview_drops_control_characters_but_keeps_newline_and_tab() {
    assert_eq!(create_text_preview("a\u{0}b\nc\td\u{7f}e\u{85}f"), "ab\nc\tdef");
}

#[test]
fn preview_cuts_to_500_characters() {
    let text = "x".repeat(600);
    let p = create_text_preview(&text);
    assert_eq!(p, format!("{}...", "x".repeat(500)));
}

#[test]
fn preview_ellipsis_counts_bytes_not_characters() {
    // 300 two-byte characters: 600 bytes, so "..." is added though all
    // characters are kept.
    let text = "é".repeat(300);
    assert_eq!(create_text_preview(&text), format!("{}...", text));
    let exact = "y".repeat(500);
    assert_eq!(create_text_preview(&exact), exact);
}

#[test]
fn trim_removes_unicode_white_space() {
    let t = trim_chars(&chars_of("\u{2000} a b \t\n"));
    assert_eq!(t.iter().collect::<String>(), "a b");
    assert!(trim_chars(&chars_of("   ")).is_empty());
}

#[test]
fn substring_search() {
    assert!(contains_chars(&chars_of("hello"), &chars_of("ll")));
    assert!(contains_chars(&chars_of("hello"), &chars_of("")));
    assert!(!contains_chars(&chars_of("hel"), &chars_of("hello")));
    assert!(str_equals("a", "a"));
    assert!(!str_equals("a", "b"));
}

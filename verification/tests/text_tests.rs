use community_agent::text::{
    contains, decimal, decimal_u64, mask_key, sanitize, short_addr, starts_with, str_eq, trim,
    truncate, truncate_code, urlencoding,
};

#[test]
fn mask_key_long_key_shows_head_and_tail() {
    assert_eq!(mask_key("abcdefghijklmnopqrstuvwxyz"), "abcdefgh...wxyz");
}

#[test]
fn mask_key_thirteen_bytes() {
    assert_eq!(mask_key("0123456789abc"), "01234567...9abc");
}

#[test]
fn mask_key_short_key_is_all_stars() {
    assert_eq!(mask_key("abcdefghijkl"), "************");
    assert_eq!(mask_key("abc"), "***");
    assert_eq!(mask_key(""), "");
}

#[test]
fn mask_key_counts_bytes_not_chars() {
    // four 3-byte characters: 12 bytes, so all stars, one per byte
    assert_eq!(mask_key("ééé"), "******");
}

#[test]
fn mask_key_never_contains_long_key() {
    let k = "SECRET-REDACTED";
    let m = mask_key(k);
    assert_eq!(m.len(), 15);
    assert!(!m.contains(k));
}

#[test]
fn short_addr_long_and_short() {
    assert_eq!(
        short_addr("0x1234567890abcdef1234567890abcdef12345678"),
        "0x1234\u{2026}5678"
    );
    assert_eq!(short_addr("0x12345678ab"), "0x12345678ab");
}

#[test]
fn truncate_code_over_twenty_bytes() {
    assert_eq!(truncate_code("abcdefghijklmnopqrstuvwxyz"), "abcdefghijklmnopqrst\u{2026}");
    assert_eq!(truncate_code("abcdefghijklmnopqrst"), "abcdefghijklmnopqrst");
}

#[test]
fn truncate_counts_characters() {
    assert_eq!(truncate("hello", 5), "hello");
    assert_eq!(truncate("hello world", 5), "hello\u{2026}");
    assert_eq!(truncate("ééééé", 3), "ééé\u{2026}");
    assert_eq!(truncate("", 0), "");
}

#[test]
fn truncate_result_is_at_most_max_plus_one_chars() {
    let long: String = std::iter::repeat('x').take(500).collect();
    let t = truncate(&long, 240);
    assert_eq!(t.chars().count(), 241);
}

#[test]
fn sanitize_replaces_unsafe_characters() {
    assert_eq!(sanitize("my agent/../x"), "my_agent____x");
    assert_eq!(sanitize("Alice_01-b"), "Alice_01-b");
    assert_eq!(sanitize("é"), "_");
}

#[test]
fn sanitize_is_idempotent() {
    let once = sanitize("we!rd name.json");
    assert_eq!(sanitize(&once), once);
}

#[test]
fn urlencoding_keeps_unreserved() {
    assert_eq!(urlencoding("Abc-123_x.y"), "Abc-123_x.y");
}

#[test]
fn urlencoding_percent_encodes_utf8_bytes() {
    assert_eq!(urlencoding("a b&c"), "a%20b%26c");
    assert_eq!(urlencoding("é"), "%C3%A9");
    assert_eq!(urlencoding("€"), "%E2%82%AC");
    assert_eq!(urlencoding("😀"), "%F0%9F%98%80");
}

#[test]
fn trim_removes_unicode_white_space() {
    assert_eq!(trim("  x y \n"), "x y");
    assert_eq!(trim("\u{3000}z\u{a0}"), "z");
    assert_eq!(trim("   "), "");
}

#[test]
fn decimal_formats_like_display() {
    assert_eq!(decimal(0), "0");
    assert_eq!(decimal(-42), "-42");
    assert_eq!(decimal(i64::MIN), i64::MIN.to_string());
    assert_eq!(decimal(i64::MAX), i64::MAX.to_string());
    assert_eq!(decimal_u64(u64::MAX), u64::MAX.to_string());
}

#[test]
fn contains_and_starts_with() {
    assert!(contains("post rejected: spam detected", "spam"));
    assert!(!contains("post rejected", "spam"));
    assert!(contains("abc", ""));
    assert!(starts_with("0xabc", "0x"));
    assert!(!starts_with("x0", "0x"));
    assert!(str_eq("ok", "ok"));
    assert!(!str_eq("ok", "okay"));
}

fn percent_decode(s: &str) -> String {
    let b = s.as_bytes();
    let mut out = Vec::new();
    let mut i = 0;
    while i < b.len() {
        if b[i] == b'%' && i + 2 < b.len() {
            let hex = std::str::from_utf8(&b[i + 1..i + 3]).unwrap();
            out.push(u8::from_str_radix(hex, 16).unwrap());
            i += 3;
        } else {
            out.push(b[i]);
            i += 1;
        }
    }
    String::from_utf8(out).unwrap()
}

#[test]
fn urlencoding_decodes_back() {
    for s in ["abc-_.XYZ09", "a b&c=d/e%", "caf\u{e9} \u{1F600}", ""] {
        assert_eq!(percent_decode(&urlencoding(s)), s);
    }
}

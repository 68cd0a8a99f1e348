use memora::text::{push_decimal, push_sign_padded, push_zero_padded, trim};

#[test]
fn trim_removes_unicode_whitespace_at_both_ends() {
    assert_eq!(trim("  docker compose up  "), "docker compose up");
    assert_eq!(trim("\t\n\r x y \u{00A0}\u{3000}"), "x y");
    assert_eq!(trim("   "), "");
    assert_eq!(trim(""), "");
    assert_eq!(trim("a"), "a");
    // Whitespace inside is kept.
    assert_eq!(trim(" a \u{2003} b "), "a \u{2003} b");
    // Not whitespace: zero-width space.
    assert_eq!(trim("\u{200B}a"), "\u{200B}a");
}

#[test]
fn trim_agrees_with_std() {
    for s in ["", " ", "\u{85}x\u{2028}", "\u{1680}\u{2000}\u{200A}\u{202F}\u{205F}é\u{0B}\u{0C}", "ñ"] {
        assert_eq!(trim(s), s.trim());
    }
}

#[test]
fn decimal_rendering() {
    let mut s = String::new();
    push_decimal(&mut s, 0);
    push_decimal(&mut s, 1234567890);
    assert_eq!(s, "01234567890");
    let mut s = String::new();
    push_zero_padded(&mut s, 7, 3);
    push_zero_padded(&mut s, 12345, 2);
    assert_eq!(s, "00712345");
    let mut s = String::new();
    push_sign_padded(&mut s, i64::MIN, 4);
    assert_eq!(s, format!("{:04}", i64::MIN));
    let mut s = String::new();
    push_sign_padded(&mut s, -3, 4);
    assert_eq!(s, "-003");
}

use military_portal::text::{blank, parse_port, same_text, white_space_char};

#[test]
fn port_plain_digits() {
    assert_eq!(parse_port("8081"), Some(8081));
    assert_eq!(parse_port("0"), Some(0));
    assert_eq!(parse_port("65535"), Some(65535));
}

#[test]
fn port_plus_sign_and_leading_zeros() {
    assert_eq!(parse_port("+80"), Some(80));
    assert_eq!(parse_port("0000065535"), Some(65535));
}

#[test]
fn port_rejections() {
    assert_eq!(parse_port(""), None);
    assert_eq!(parse_port("+"), None);
    assert_eq!(parse_port("-1"), None);
    assert_eq!(parse_port("65536"), None);
    assert_eq!(parse_port("99999999999999999999"), None);
    assert_eq!(parse_port("80a"), None);
    assert_eq!(parse_port(" 80"), None);
    assert_eq!(parse_port("++80"), None);
}

#[test]
fn port_agrees_with_std() {
    for s in ["1", "+1", "443", "65535", "65536", "", "+", "-0", "1_000", "٣"] {
        assert_eq!(parse_port(s), s.parse::<u16>().ok(), "{s}");
    }
}

#[test]
fn blank_texts() {
    assert!(blank(""));
    assert!(blank("  \t\r\n"));
    assert!(blank("\u{3000}\u{a0}\u{2029}"));
    assert!(!blank(" x "));
    assert!(!blank("\u{200b}"));
}

#[test]
fn white_space_agrees_with_std() {
    for c in ['\t', '\n', '\u{b}', '\u{c}', '\r', ' ', '\u{85}', '\u{a0}', '\u{1680}', '\u{2000}', '\u{200a}',
        '\u{2028}', '\u{2029}', '\u{202f}', '\u{205f}', '\u{3000}', 'a', '\u{200b}', '\u{feff}', '\u{180e}']
    {
        assert_eq!(white_space_char(c), c.is_whitespace(), "{:?}", c);
    }
}

#[test]
fn texts_compare_by_characters() {
    assert!(same_text("approved", "approved"));
    assert!(!same_text("approved", "approve"));
    assert!(!same_text("approved", "Approved"));
    assert!(same_text("", ""));
}

use crm_adapters::text::{is_whitespace_char, trim_whitespace};

#[test]
fn trimming_removes_unicode_whitespace_at_both_ends_only() {
    assert_eq!(trim_whitespace("  Ada Lovelace \t\n"), "Ada Lovelace");
    assert_eq!(trim_whitespace("\u{3000}\u{00a0}name\u{2029}\u{85}"), "name");
    assert_eq!(trim_whitespace("a \u{2003} b"), "a \u{2003} b");
    assert_eq!(trim_whitespace(" \t\r\n\u{1680}\u{202f}\u{205f} "), "");
    assert_eq!(trim_whitespace(""), "");
    assert_eq!(trim_whitespace("\u{200b}x\u{200b}"), "\u{200b}x\u{200b}");
}

#[test]
fn trimming_agrees_with_str_trim() {
    for s in ["  x  ", "\u{2000}\u{200a}y", "z\u{0b}\u{0c}", "\u{180e}w", "no-space", " \u{feff} "] {
        assert_eq!(trim_whitespace(s), s.trim());
    }
    for c in ['\u{09}', '\u{0d}', ' ', '\u{85}', '\u{a0}', '\u{1680}', '\u{2000}', '\u{200a}', '\u{2028}', '\u{3000}'] {
        assert!(is_whitespace_char(c));
        assert_eq!(is_whitespace_char(c), c.is_whitespace());
    }
    for c in ['a', '\u{08}', '\u{0e}', '\u{200b}', '\u{feff}', '\u{180e}', '\u{2060}'] {
        assert!(!is_whitespace_char(c));
        assert_eq!(is_whitespace_char(c), c.is_whitespace());
    }
}

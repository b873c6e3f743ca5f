use tacoshell::text::{char_is_whitespace, decimal_string, str_eq, str_le, trim};

#[test]
fn trim_takes_whitespace_off_both_ends() {
    assert_eq!(trim("  a b \t\n"), "a b");
    assert_eq!(trim("a"), "a");
    assert_eq!(trim(""), "");
    assert_eq!(trim(" \u{a0}\u{1680}\u{2000}\u{200a}\u{2028}\u{2029}\u{202f}\u{205f}\u{3000}\u{85}"), "");
    assert_eq!(trim("\u{b}\u{c}x\r"), "x");
    assert_eq!(trim("\u{200b}x\u{200b}"), "\u{200b}x\u{200b}");
    assert_eq!(trim(" \u{e9}t\u{e9} "), "\u{e9}t\u{e9}");
    for s in ["  x  ", "\u{feff}y", "\u{180e}z ", "\u{1c}\u{1f}w", "\u{2007}\u{2008}v\u{2009}"] {
        assert_eq!(trim(s), s.trim());
    }
}

#[test]
fn whitespace_is_the_unicode_property() {
    let mut c = 0u32;
    while c <= 0x3100 {
        if let Some(ch) = char::from_u32(c) {
            assert_eq!(char_is_whitespace(ch), ch.is_whitespace(), "U+{:04X}", c);
        }
        c += 1;
    }
    assert!(!char_is_whitespace('\u{feff}'));
    assert!(!char_is_whitespace('\u{10ffff}'));
}

#[test]
fn numbers_are_written_in_decimal() {
    for n in [0u32, 1, 9, 10, 11, 99, 100, 101, 22, 65535, 4_294_967_295] {
        assert_eq!(decimal_string(n), n.to_string());
    }
}

#[test]
fn texts_compare_by_their_bytes() {
    let words = ["", "a", "A", "ab", "b", "\u{e9}", "a\u{e9}", "\u{1f600}", "\u{ffff}", "z"];
    for a in words {
        for b in words {
            assert_eq!(str_le(a, b), a <= b, "{:?} and {:?}", a, b);
            assert_eq!(str_eq(a, b), a == b);
        }
    }
}

use configs::blank::{char_is_whitespace, str_is_blank};

#[test]
fn whitespace_agrees_with_std_on_every_char() {
    let mut code: u32 = 0;
    let mut seen: u32 = 0;
    while code <= 0x10FFFF {
        if let Some(c) = char::from_u32(code) {
            assert_eq!(char_is_whitespace(c), c.is_whitespace(), "U+{:04X}", code);
            seen += 1;
        }
        code += 1;
    }
    assert_eq!(seen, 0x110000 - 0x800);
}

#[test]
fn there_are_twenty_five_whitespace_chars() {
    let mut count = 0;
    let mut code: u32 = 0;
    while code <= 0x10FFFF {
        if let Some(c) = char::from_u32(code) {
            if char_is_whitespace(c) {
                count += 1;
            }
        }
        code += 1;
    }
    assert_eq!(count, 25);
}

#[test]
fn ascii_whitespace_chars() {
    for c in [' ', '\t', '\n', '\u{000B}', '\u{000C}', '\r'] {
        assert!(char_is_whitespace(c), "{:?}", c);
    }
}

#[test]
fn chars_next_to_the_ranges_are_not_whitespace() {
    for c in [
        '\u{0008}', '\u{000E}', '\u{001F}', '!', '\u{0084}', '\u{0086}', '\u{009F}', '\u{00A1}',
        '\u{167F}', '\u{1681}', '\u{1FFF}', '\u{200B}', '\u{2027}', '\u{202A}', '\u{202E}',
        '\u{2030}', '\u{205E}', '\u{2060}', '\u{2FFF}', '\u{3001}',
    ] {
        assert!(!char_is_whitespace(c), "{:?}", c);
    }
}

#[test]
fn unicode_whitespace_chars() {
    for c in [
        '\u{0085}', '\u{00A0}', '\u{1680}', '\u{2000}', '\u{2005}', '\u{200A}', '\u{2028}',
        '\u{2029}', '\u{202F}', '\u{205F}', '\u{3000}',
    ] {
        assert!(char_is_whitespace(c), "{:?}", c);
    }
}

#[test]
fn lookalikes_are_not_whitespace() {
    // The Mongolian vowel separator, the zero-width space and the byte-order mark.
    for c in ['\u{180E}', '\u{200B}', '\u{FEFF}', '_', '0', 'a', '\u{0000}', '\u{10FFFF}'] {
        assert!(!char_is_whitespace(c), "{:?}", c);
    }
}

#[test]
fn empty_string_is_blank() {
    assert!(str_is_blank(""));
}

#[test]
fn whitespace_only_strings_are_blank() {
    assert!(str_is_blank(" "));
    assert!(str_is_blank("   "));
    assert!(str_is_blank("\t\r\n"));
    assert!(str_is_blank(" \u{00A0}\u{2003}\u{3000}"));
}

#[test]
fn strings_with_other_chars_are_not_blank() {
    assert!(!str_is_blank("a"));
    assert!(!str_is_blank("/etc/agency"));
    assert!(!str_is_blank("  x"));
    assert!(!str_is_blank("x  "));
    assert!(!str_is_blank("  x  "));
    assert!(!str_is_blank(" \u{200B} "));
    assert!(!str_is_blank("\u{3000}\u{3042}"));
}

#[test]
fn blank_means_that_trimming_leaves_nothing() {
    for s in [
        "", " ", "\n", "  \t ", ".", ".config", " .config", ".config ", " a b ", "\u{2028}",
        "\u{2028}\u{2029}\u{205F}", "\u{180E}", " \u{FEFF}", "a\u{0085}", "\u{0085}\u{1680}",
    ] {
        assert_eq!(str_is_blank(s), s.trim().is_empty(), "{:?}", s);
    }
}

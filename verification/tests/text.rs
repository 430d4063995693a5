use invoice_extract::text::{is_blank, is_white_space, snippet, strip_trailing};

#[test]
fn white_space_is_what_std_calls_whitespace() {
    let mut n: u32 = 0;
    while n <= 0x10FFFF {
        if let Some(c) = char::from_u32(n) {
            assert_eq!(is_white_space(c), c.is_whitespace(), "U+{:04X}", n);
        }
        n += 1;
    }
}

#[test]
fn white_space_code_points() {
    for c in ['\t', '\n', '\u{0B}', '\u{0C}', '\r', ' ', '\u{85}', '\u{A0}', '\u{1680}', '\u{2000}',
        '\u{200A}', '\u{2028}', '\u{2029}', '\u{202F}', '\u{205F}', '\u{3000}']
    {
        assert!(is_white_space(c), "{:?}", c);
    }
    for c in ['\u{08}', '\u{0E}', '!', 'a', '\u{84}', '\u{86}', '\u{1FFF}', '\u{200B}', '\u{2027}',
        '\u{202A}', '\u{2060}', '\u{3001}', '\u{FEFF}']
    {
        assert!(!is_white_space(c), "{:?}", c);
    }
}

#[test]
fn empty_text_is_blank() {
    assert!(is_blank(""));
}

#[test]
fn white_space_only_is_blank() {
    assert!(is_blank(" "));
    assert!(is_blank(" \t\r\n\u{0C}"));
    assert!(is_blank("\u{A0}\u{3000}\u{2028}"));
}

#[test]
fn any_other_character_makes_text_not_blank() {
    assert!(!is_blank("a"));
    assert!(!is_blank("   a"));
    assert!(!is_blank("a   "));
    assert!(!is_blank("  \n x \n  "));
    assert!(!is_blank("\u{200B}"));
    assert!(!is_blank("  \u{FEFF}  "));
}

#[test]
fn blank_agrees_with_trim() {
    for s in ["", " ", "\n\n", "x", " x ", "\u{85}", "\u{85}é\u{85}", "\u{0}", " \u{1680} "] {
        assert_eq!(is_blank(s), s.trim().is_empty(), "{:?}", s);
    }
}

#[test]
fn strip_trailing_removes_the_whole_run() {
    assert_eq!(strip_trailing("http://host/", '/'), "http://host");
    assert_eq!(strip_trailing("http://host///", '/'), "http://host");
    assert_eq!(strip_trailing("///", '/'), "");
}

#[test]
fn strip_trailing_leaves_the_rest() {
    assert_eq!(strip_trailing("", '/'), "");
    assert_eq!(strip_trailing("http://host", '/'), "http://host");
    assert_eq!(strip_trailing("/a/b", '/'), "/a/b");
    assert_eq!(strip_trailing("a/ ", '/'), "a/ ");
    assert_eq!(strip_trailing("/a//b/", '/'), "/a//b");
}

#[test]
fn strip_trailing_counts_characters_not_bytes() {
    assert_eq!(strip_trailing("städte/ö//", '/'), "städte/ö");
    assert_eq!(strip_trailing("日本語語語", '語'), "日本");
    assert_eq!(strip_trailing("😀/", '/'), "😀");
}

#[test]
fn strip_trailing_agrees_with_trim_end_matches() {
    for s in ["", "/", "//", "a", "a/", "a//", "/a", "é/", "a/b/c///", "http://h:1/x/"] {
        assert_eq!(strip_trailing(s, '/'), s.trim_end_matches('/'), "{:?}", s);
    }
}

#[test]
fn snippet_of_a_short_text_is_the_text() {
    assert_eq!(snippet("", 300), "");
    assert_eq!(snippet("hello", 300), "hello");
    assert_eq!(snippet("hello", 5), "hello");
    assert_eq!(snippet("héllo", 6), "héllo");
}

#[test]
fn snippet_cuts_at_the_limit() {
    assert_eq!(snippet("hello", 4), "hell");
    assert_eq!(snippet("hello", 0), "");
    let long = "x".repeat(1000);
    assert_eq!(snippet(&long, 300), "x".repeat(300));
}

#[test]
fn snippet_never_cuts_a_character() {
    assert_eq!(snippet("é", 1), "");
    assert_eq!(snippet("aé", 2), "a");
    assert_eq!(snippet("aé", 3), "aé");
    assert_eq!(snippet("日本", 5), "日");
    assert_eq!(snippet("😀😀", 7), "😀");
    assert_eq!(snippet("😀😀", 3), "");
    let long = "é".repeat(200);
    assert_eq!(snippet(&long, 300), "é".repeat(150));
    assert_eq!(snippet(&long, 301), "é".repeat(150));
    let shifted = format!("a{}", "é".repeat(200));
    assert_eq!(snippet(&shifted, 300), format!("a{}", "é".repeat(149)));
}

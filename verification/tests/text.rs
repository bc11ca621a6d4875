use pact_extensions::text::{
    char_is_white_space, ends_with, join2, join3, starts_with, str_eq, tail_from, to_decimal,
    trim, trim_leading, word_at,
};

#[test]
fn str_eq_compares_characters() {
    assert!(str_eq("", ""));
    assert!(str_eq("pact", "pact"));
    assert!(!str_eq("pact", "pacT"));
    assert!(!str_eq("pact", "pact "));
}

#[test]
fn joins_concatenate_in_order() {
    assert_eq!(join2("a", "b"), "ab");
    assert_eq!(join2("", ""), "");
    assert_eq!(join3("x", "/", "y"), "x/y");
}

#[test]
fn prefixes_and_suffixes() {
    assert!(starts_with("pactflow-ai", "pactflow-"));
    assert!(starts_with("pactflow-", "pactflow-"));
    assert!(starts_with("anything", ""));
    assert!(!starts_with("pactflow", "pactflow-"));
    assert!(!starts_with("xpactflow-ai", "pactflow-"));
    assert!(ends_with("/home/u/.pact/extensions/pact-legacy", "/pact-legacy"));
    assert!(!ends_with("/home/u/.pact/extensions/bin/mock-legacy", "/pact-legacy"));
    assert!(!ends_with("legacy", "/pact-legacy"));
    assert!(ends_with("h\u{e9}llo", "\u{e9}llo"));
}

#[test]
fn tail_from_counts_characters() {
    assert_eq!(tail_from("pactflow-ai", 9), "ai");
    assert_eq!(tail_from("pactflow-ai", 11), "");
    assert_eq!(tail_from("\u{e9}t\u{e9}", 1), "t\u{e9}");
}

#[test]
fn trim_leading_removes_the_whole_run() {
    assert_eq!(trim_leading("v2.4.1", 'v'), "2.4.1");
    assert_eq!(trim_leading("vv2.4.1", 'v'), "2.4.1");
    assert_eq!(trim_leading("2.4.1", 'v'), "2.4.1");
    assert_eq!(trim_leading("2.4.1v", 'v'), "2.4.1v");
    assert_eq!(trim_leading("vvv", 'v'), "");
    assert_eq!(trim_leading("", 'v'), "");
}

#[test]
fn white_space_is_the_unicode_property() {
    for c in [' ', '\t', '\n', '\u{b}', '\u{c}', '\r', '\u{85}', '\u{a0}', '\u{1680}', '\u{2000}',
        '\u{200a}', '\u{2028}', '\u{2029}', '\u{202f}', '\u{205f}', '\u{3000}']
    {
        assert!(char_is_white_space(c));
        assert!(c.is_whitespace());
    }
    for c in ['a', '0', '-', '\u{8}', '\u{e}', '\u{200b}', '\u{feff}', '\u{180e}'] {
        assert!(!char_is_white_space(c));
        assert!(!c.is_whitespace());
    }
}

#[test]
fn white_space_agrees_with_std_on_every_character() {
    let mut n: u32 = 0;
    while n <= 0x10ffff {
        if let Some(c) = char::from_u32(n) {
            assert_eq!(char_is_white_space(c), c.is_whitespace());
        }
        n += 1;
    }
}

#[test]
fn trim_removes_surrounding_white_space() {
    assert_eq!(trim("1.11.4\n"), "1.11.4");
    assert_eq!(trim("  \t1.11.4 \r\n"), "1.11.4");
    assert_eq!(trim("1.11.4"), "1.11.4");
    assert_eq!(trim("a b"), "a b");
    assert_eq!(trim("   "), "");
    assert_eq!(trim(""), "");
    assert_eq!(trim("\u{a0}x\u{3000}"), "x");
}

#[test]
fn word_at_splits_on_white_space() {
    assert_eq!(word_at("pactflow-ai 1.11.4", 0), Some("pactflow-ai".to_string()));
    assert_eq!(word_at("pactflow-ai 1.11.4", 1), Some("1.11.4".to_string()));
    assert_eq!(word_at("pactflow-ai 1.11.4", 2), None);
    assert_eq!(word_at("  pactflow-ai \t 1.11.4\n", 1), Some("1.11.4".to_string()));
    assert_eq!(word_at("pactflow-ai", 1), None);
    assert_eq!(word_at("", 0), None);
    assert_eq!(word_at("   ", 0), None);
}

#[test]
fn decimal_notation() {
    assert_eq!(to_decimal(0), "0");
    assert_eq!(to_decimal(7), "7");
    assert_eq!(to_decimal(10), "10");
    assert_eq!(to_decimal(404), "404");
    assert_eq!(to_decimal(65535), "65535");
    assert_eq!(to_decimal(4294967295), "4294967295");
}

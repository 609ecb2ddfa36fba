use noteworthy::text::{
    char_is_whitespace, chars_le, chars_of, copy_range, decimal_text, extend_chars, find_from,
    remove_char, same_chars, same_text, spells, trimmed,
};

fn chars(s: &str) -> Vec<char> {
    s.chars().collect()
}

fn text(v: &Vec<char>) -> String {
    v.iter().collect()
}

#[test]
fn chars_of_gives_every_character_in_order() {
    assert_eq!(chars_of("a/ü"), vec!['a', '/', 'ü']);
    assert_eq!(chars_of(""), Vec::<char>::new());
}

#[test]
fn whitespace_is_the_unicode_set() {
    for c in [' ', '\t', '\n', '\r', '\u{b}', '\u{c}', '\u{85}', '\u{a0}', '\u{1680}', '\u{2000}',
        '\u{200a}', '\u{2028}', '\u{2029}', '\u{202f}', '\u{205f}', '\u{3000}']
    {
        assert!(char_is_whitespace(c), "{:?}", c);
        assert!(c.is_whitespace());
    }
    for c in ['a', '0', '"', ',', ':', '\u{200b}', '\u{180e}', '\u{8}', '\u{e}'] {
        assert!(!char_is_whitespace(c), "{:?}", c);
        assert!(!c.is_whitespace());
    }
}

#[test]
fn whitespace_agrees_with_std_on_every_character() {
    let mut code: u32 = 0;
    while code <= 0x10ffff {
        if let Some(c) = char::from_u32(code) {
            assert_eq!(char_is_whitespace(c), c.is_whitespace(), "{:#x}", code);
        }
        code += 1;
    }
}

#[test]
fn trimmed_drops_whitespace_at_both_ends_only() {
    assert_eq!(text(&trimmed(&chars("  a b \t\r"))), "a b");
    assert_eq!(text(&trimmed(&chars("ab"))), "ab");
    assert_eq!(text(&trimmed(&chars(" \n "))), "");
    assert_eq!(text(&trimmed(&chars(""))), "");
    assert_eq!(text(&trimmed(&chars("\u{3000}x\u{a0}"))), "x");
}

#[test]
fn remove_char_deletes_every_occurrence() {
    assert_eq!(text(&remove_char(&chars("\"a\"b\"\""), '"')), "ab");
    assert_eq!(text(&remove_char(&chars("abc"), ',')), "abc");
    assert_eq!(text(&remove_char(&chars(",,,"), ',')), "");
}

#[test]
fn find_from_gives_the_first_position_or_the_length() {
    let v = chars("a:b:c");
    assert_eq!(find_from(&v, 0, ':'), 1);
    assert_eq!(find_from(&v, 1, ':'), 1);
    assert_eq!(find_from(&v, 2, ':'), 3);
    assert_eq!(find_from(&v, 4, ':'), 5);
    assert_eq!(find_from(&v, 5, ':'), 5);
    assert_eq!(find_from(&chars(""), 0, ':'), 0);
}

#[test]
fn copy_range_copies_the_positions_asked_for() {
    let v = chars("hello");
    assert_eq!(text(&copy_range(&v, 1, 4)), "ell");
    assert_eq!(text(&copy_range(&v, 0, 5)), "hello");
    assert_eq!(text(&copy_range(&v, 2, 2)), "");
}

#[test]
fn same_chars_compares_texts() {
    assert!(same_chars(&chars("abc"), &chars("abc")));
    assert!(!same_chars(&chars("abc"), &chars("abd")));
    assert!(!same_chars(&chars("abc"), &chars("ab")));
    assert!(same_chars(&chars(""), &chars("")));
    assert!(spells(&chars("root"), "root"));
    assert!(!spells(&chars("root "), "root"));
    assert!(same_text("a", "a"));
    assert!(!same_text("a", "A"));
}

#[test]
fn chars_le_is_the_order_of_strings() {
    let samples = ["", "a", "A", "ab", "b", "aa", "a/", "ä", "z", "\u{10000}", "\u{ffff}"];
    for a in samples {
        for b in samples {
            assert_eq!(chars_le(&chars(a), &chars(b)), a <= b, "{:?} {:?}", a, b);
        }
    }
}

#[test]
fn decimal_text_writes_numbers_without_leading_zeros() {
    assert_eq!(text(&decimal_text(0)), "0");
    assert_eq!(text(&decimal_text(7)), "7");
    assert_eq!(text(&decimal_text(10)), "10");
    assert_eq!(text(&decimal_text(4096)), "4096");
    assert_eq!(text(&decimal_text(usize::MAX)), usize::MAX.to_string());
}

#[test]
fn extend_chars_appends() {
    let mut v = chars("ab");
    extend_chars(&mut v, &chars("cd"));
    assert_eq!(text(&v), "abcd");
    extend_chars(&mut v, &chars(""));
    assert_eq!(text(&v), "abcd");
}

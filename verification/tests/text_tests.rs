use barterup_be::text::{
    char_len, chars_of, contains, is_whitespace, decimal_text, ends_with, is_blank, join2, join3, join4, owned,
    same_text, slice_string, split, starts_with, string_of, trim, trim_end_matches,
    trim_start_matches,
};

#[test]
fn trim_removes_outer_white_space_only() {
    assert_eq!(trim("  a b \n"), "a b");
    assert_eq!(trim(" \t "), "");
    assert_eq!(trim(""), "");
    assert_eq!(trim("\u{3000}x\u{a0}"), "x");
    assert_eq!(trim("x"), "x");
}

#[test]
fn white_space_is_that_of_the_standard_library() {
    let mut count: u32 = 0;
    for n in 0..=0x10ffff_u32 {
        if let Some(c) = char::from_u32(n) {
            assert_eq!(is_whitespace(c), c.is_whitespace(), "U+{:04X}", n);
            if is_whitespace(c) {
                count += 1;
            }
        }
    }
    assert_eq!(count, 25);
}

#[test]
fn trim_agrees_with_std() {
    for s in ["", " ", "a", " a", "a ", "\u{2003}a b\u{2003}", "\u{200b}a", "\ta\r\n", "\u{85}\u{1680}x\u{205f}"] {
        assert_eq!(trim(s), s.trim(), "{:?}", s);
    }
}

#[test]
fn blank_means_nothing_but_white_space() {
    assert!(is_blank(""));
    assert!(is_blank(" \r\n\t"));
    assert!(!is_blank(" . "));
}

#[test]
fn split_keeps_empty_pieces() {
    assert_eq!(split("a.b.c", '.'), vec!["a", "b", "c"]);
    assert_eq!(split("", '.'), vec![""]);
    assert_eq!(split("a..", '.'), vec!["a", "", ""]);
    assert_eq!(split(".", '.'), vec!["", ""]);
    assert_eq!(split("no dots", '.'), vec!["no dots"]);
}

#[test]
fn split_agrees_with_std() {
    for s in ["a,b", ",", "data:image/png;base64,AAAA", "x,,y,", "é,ü"] {
        let expected: Vec<String> = s.split(',').map(|p| p.to_string()).collect();
        assert_eq!(split(s, ','), expected);
    }
}

#[test]
fn contains_finds_inner_text() {
    assert!(contains("User already registered", "already registered"));
    assert!(!contains("already", "already registered"));
    assert!(contains("abc", ""));
    assert!(contains("", ""));
    assert!(!contains("", "a"));
    assert!(contains("aab", "ab"));
}

#[test]
fn prefix_and_suffix() {
    assert!(starts_with("Bearer x", "Bearer "));
    assert!(!starts_with("bearer x", "Bearer "));
    assert!(!starts_with("Bear", "Bearer "));
    assert!(starts_with("x", ""));
    assert!(ends_with("https://h/rest/v1", "/rest/v1"));
    assert!(!ends_with("https://h/rest/v1/", "/rest/v1"));
    assert!(!ends_with("v1", "/rest/v1"));
}

#[test]
fn trimming_by_pattern() {
    assert_eq!(trim_start_matches("Bearer Bearer x", "Bearer "), "x");
    assert_eq!(trim_start_matches("Bearer", "Bearer "), "Bearer");
    assert_eq!(trim_start_matches("abc", ""), "abc");
    assert_eq!(trim_end_matches("http://h//", '/'), "http://h");
    assert_eq!(trim_end_matches("///", '/'), "");
    assert_eq!(trim_end_matches("http://h", '/'), "http://h");
}

#[test]
fn decimal_text_of_numbers() {
    assert_eq!(decimal_text(0), "0");
    assert_eq!(decimal_text(9), "9");
    assert_eq!(decimal_text(10), "10");
    assert_eq!(decimal_text(50), "50");
    assert_eq!(decimal_text(404), "404");
    assert_eq!(decimal_text(18446744073709551615), "18446744073709551615");
}

#[test]
fn joining_and_copying() {
    assert_eq!(owned("abc"), "abc");
    assert_eq!(join2("a", "b"), "ab");
    assert_eq!(join3("a", "", "c"), "ac");
    assert_eq!(join4("a", "b", "c", "d"), "abcd");
    assert!(same_text("é", "é"));
    assert!(!same_text("e", "é"));
    assert!(!same_text("ab", "abc"));
}

#[test]
fn characters_and_bytes() {
    let chars = chars_of("héllo");
    assert_eq!(chars, vec!['h', 'é', 'l', 'l', 'o']);
    assert_eq!(string_of(&chars), "héllo");
    assert_eq!(slice_string(&chars, 1, 3), "él");
    assert_eq!(slice_string(&chars, 2, 2), "");
    assert_eq!(char_len("héllo"), 5);
    assert_eq!(char_len(""), 0);
}

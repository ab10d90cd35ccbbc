use agent::helper::path::{get_socket_path, join_path};
use agent::helper::text::{
    chars_of, contains_text, decimal_text, is_space, parse_u16, same_text, trim,
};

#[test]
fn chars_of_gives_every_character() {
    assert_eq!(chars_of(""), Vec::<char>::new());
    assert_eq!(chars_of("a💓b"), vec!['a', '💓', 'b']);
}

#[test]
fn same_text_compares_character_for_character() {
    assert!(same_text("", ""));
    assert!(same_text("metric", "metric"));
    assert!(!same_text("metric", "metrics"));
    assert!(!same_text("metric", "Metric"));
    assert!(!same_text("", "a"));
    assert!(same_text("地址", "地址"));
}

#[test]
fn contains_text_finds_a_pattern_anywhere() {
    assert!(contains_text("abc", ""));
    assert!(contains_text("", ""));
    assert!(!contains_text("", "a"));
    assert!(contains_text("abc", "a"));
    assert!(contains_text("abc", "c"));
    assert!(contains_text("abc", "abc"));
    assert!(contains_text("xxabcxx", "abc"));
    assert!(contains_text("aab", "ab"));
    assert!(!contains_text("abc", "abcd"));
    assert!(!contains_text("abc", "ac"));
    assert!(contains_text("错误: Address already in use", "Address already in use"));
}

#[test]
fn trim_removes_white_space_at_both_ends() {
    assert_eq!(trim(""), "");
    assert_eq!(trim("   "), "");
    assert_eq!(trim("a"), "a");
    assert_eq!(trim("  a b \r\n"), "a b");
    assert_eq!(trim("\t{\"x\": 1}\n"), "{\"x\": 1}");
    assert_eq!(trim("\u{3000}宽\u{a0}"), "宽");
    assert_eq!(trim("a  "), "a");
    assert_eq!(trim("  a"), "a");
}

#[test]
fn decimal_text_writes_numbers_without_leading_zeros() {
    assert_eq!(decimal_text(0), "0");
    assert_eq!(decimal_text(9), "9");
    assert_eq!(decimal_text(10), "10");
    assert_eq!(decimal_text(16666), "16666");
    assert_eq!(decimal_text(1234567890), "1234567890");
    assert_eq!(decimal_text(u64::MAX), "18446744073709551615");
}

#[test]
fn parse_u16_reads_decimal_numbers_in_range() {
    assert_eq!(parse_u16("0"), Some(0));
    assert_eq!(parse_u16("16666"), Some(16666));
    assert_eq!(parse_u16("65535"), Some(65535));
    assert_eq!(parse_u16("+80"), Some(80));
    assert_eq!(parse_u16("007"), Some(7));
    assert_eq!(parse_u16("0000000000000000000000065535"), Some(65535));
}

#[test]
fn parse_u16_refuses_everything_else() {
    assert_eq!(parse_u16(""), None);
    assert_eq!(parse_u16("+"), None);
    assert_eq!(parse_u16("65536"), None);
    assert_eq!(parse_u16("99999999999999999999999"), None);
    assert_eq!(parse_u16("-1"), None);
    assert_eq!(parse_u16("-0"), None);
    assert_eq!(parse_u16(" 80"), None);
    assert_eq!(parse_u16("80 "), None);
    assert_eq!(parse_u16("8o"), None);
    assert_eq!(parse_u16("++8"), None);
    assert_eq!(parse_u16("8+"), None);
    assert_eq!(parse_u16("1.0"), None);
    assert_eq!(parse_u16("٣"), None);
    assert_eq!(parse_u16("70000x"), None);
}

#[test]
fn parse_u16_agrees_with_the_standard_parser() {
    for text in ["0", "1", "+1", "65535", "65536", "", "+", "-", "-5", "00", "a", "1a", "１"] {
        assert_eq!(parse_u16(text), text.parse::<u16>().ok(), "{:?}", text);
    }
}

#[test]
fn join_path_puts_one_slash_between() {
    assert_eq!(join_path("/tmp", "x.sock"), "/tmp/x.sock");
    assert_eq!(join_path("/tmp/", "x.sock"), "/tmp/x.sock");
    assert_eq!(join_path("", "x.sock"), "x.sock");
    assert_eq!(join_path("/", "x.sock"), "/x.sock");
    assert_eq!(join_path("a/b", "c"), "a/b/c");
    assert_eq!(join_path("/tmp", ""), "/tmp/");
}

#[test]
fn socket_path_is_below_the_temporary_directory() {
    assert_eq!(get_socket_path("/tmp"), "/tmp/_mito_node_.sock");
    assert_eq!(get_socket_path("/var/folders/x/"), "/var/folders/x/_mito_node_.sock");
}

#[test]
fn white_space_is_what_the_standard_library_counts_as_such() {
    let mut counted = 0;
    for code in 0..=0x10FFFFu32 {
        if let Some(c) = char::from_u32(code) {
            assert_eq!(is_space(c), c.is_whitespace(), "U+{:04X}", code);
            if is_space(c) {
                counted += 1;
            }
        }
    }
    assert_eq!(counted, 25);
}

#[test]
fn white_space_by_example() {
    for c in [' ', '\t', '\n', '\u{b}', '\u{c}', '\r', '\u{85}', '\u{a0}', '\u{1680}', '\u{2000}',
        '\u{200a}', '\u{2028}', '\u{2029}', '\u{202f}', '\u{205f}', '\u{3000}']
    {
        assert!(is_space(c), "{:?}", c);
    }
    for c in ['a', '0', '\u{0}', '\u{8}', '\u{e}', '\u{1f}', '\u{200b}', '\u{180e}', '\u{feff}', '\u{2060}'] {
        assert!(!is_space(c), "{:?}", c);
    }
}

#[test]
fn trim_agrees_with_the_standard_library() {
    for text in ["", " ", "a\n", " \t\n", "\u{2003}x y\u{3000}", "\u{200b}a\u{200b}", "\r\n{}\r\n"] {
        assert_eq!(trim(text), text.trim(), "{:?}", text);
    }
}

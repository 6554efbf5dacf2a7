use voxii::json::{parse_member, text_member};
use voxii::text::{
    decimal_string, is_whitespace, join_lines, push_decimal, push_signed_decimal, same_text, split_lines,
    string_of, to_ascii_lower, to_ascii_lowercase, to_chars, trim, trim_end,
};

#[test]
fn trim_drops_whitespace_on_both_sides() {
    assert_eq!(trim("  a b \t\r\n"), "a b");
    assert_eq!(trim("a"), "a");
    assert_eq!(trim(""), "");
    assert_eq!(trim(" \u{a0}\u{3000} "), "");
    assert_eq!(trim("\u{2003}x\u{2003}y\u{2003}"), "x\u{2003}y");
    assert_eq!(trim("\u{200b}x"), "\u{200b}x");
}

#[test]
fn trim_end_keeps_the_front() {
    assert_eq!(trim_end("  a b \t\r\n"), "  a b");
    assert_eq!(trim_end("   "), "");
    assert_eq!(trim_end(""), "");
    assert_eq!(trim_end("x"), "x");
    assert_eq!(trim_end(" \u{e9}\u{a0}"), " \u{e9}");
}

#[test]
fn lines_are_split_at_line_feeds() {
    assert_eq!(split_lines("a\nb"), vec!["a", "b"]);
    assert_eq!(split_lines("a\n"), vec!["a", ""]);
    assert_eq!(split_lines(""), vec![""]);
    assert_eq!(split_lines("\n\n"), vec!["", "", ""]);
    assert_eq!(split_lines("a\r\nb\rc"), vec!["a\r", "b\rc"]);
    assert_eq!(split_lines("no line feed"), vec!["no line feed"]);
}

#[test]
fn ascii_capitals_are_lowered_and_nothing_else() {
    assert_eq!(to_ascii_lowercase("GGML-Base.EN.bin"), "ggml-base.en.bin");
    assert_eq!(to_ascii_lowercase("AZaz@[`{09"), "azaz@[`{09");
    assert_eq!(to_ascii_lowercase("\u{c9}COLE"), "\u{c9}cole");
    assert_eq!(to_ascii_lowercase(""), "");
    assert_eq!(to_ascii_lower('A'), 'a');
    assert_eq!(to_ascii_lower('Z'), 'z');
    assert_eq!(to_ascii_lower('a'), 'a');
    assert_eq!(to_ascii_lower('@'), '@');
    assert_eq!(to_ascii_lower('['), '[');
}

#[test]
fn numbers_are_written_in_decimal() {
    assert_eq!(decimal_string(0), "0");
    assert_eq!(decimal_string(5), "5");
    assert_eq!(decimal_string(10), "10");
    assert_eq!(decimal_string(4294967295), "4294967295");
    assert_eq!(decimal_string(u64::MAX), "18446744073709551615");
    let mut text = "n=".to_string();
    push_decimal(&mut text, 907);
    assert_eq!(text, "n=907");
}

#[test]
fn negative_numbers_get_a_minus_sign() {
    for (n, expected) in [(0, "0"), (1, "1"), (-1, "-1"), (137, "137"), (i32::MAX, "2147483647"), (i32::MIN, "-2147483648")] {
        let mut text = String::new();
        push_signed_decimal(&mut text, n);
        assert_eq!(text, expected);
    }
}

#[test]
fn characters_go_to_a_vector_and_back() {
    let chars = to_chars("h\u{e9}llo");
    assert_eq!(chars, vec!['h', '\u{e9}', 'l', 'l', 'o']);
    assert_eq!(string_of(&chars, 1, 4), "\u{e9}ll");
    assert_eq!(string_of(&chars, 2, 2), "");
    assert_eq!(string_of(&chars, 0, 5), "h\u{e9}llo");
}

#[test]
fn texts_are_the_same_only_character_for_character() {
    assert!(same_text("final", "final"));
    assert!(same_text("", ""));
    assert!(!same_text("final", "Final"));
    assert!(!same_text("final", "final "));
    assert!(!same_text("a", "b"));
}

#[test]
fn json_members_are_looked_up_in_objects() {
    let facts = parse_member("{\"type\":\"final\",\"n\":1}", "type").unwrap();
    assert!(facts.is_object);
    assert_eq!(facts.member, Some("final".to_string()));
    let facts = parse_member("{\"type\":\"final\",\"n\":1}", "n").unwrap();
    assert!(facts.is_object);
    assert_eq!(facts.member, None);
    let facts = parse_member("[\"type\"]", "type").unwrap();
    assert!(!facts.is_object);
    assert_eq!(facts.member, None);
    let facts = parse_member(" \"type\" ", "type").unwrap();
    assert!(!facts.is_object);
    assert_eq!(facts.member, None);
    assert_eq!(text_member("{\"a\":{\"b\":\"c\"},\"b\":\"d\"}", "b"), Some("d".to_string()));
    assert_eq!(text_member("{\"a\":\"1\",\"a\":\"2\"}", "a"), Some("2".to_string()));
    assert_eq!(text_member("{\"a\":\"1\"}", "A"), None);
    assert_eq!(text_member("not json", "a"), None);
}

#[test]
fn json_failures_carry_the_parsers_words() {
    let failure = parse_member("{\"a\":", "a").unwrap_err();
    assert_eq!(failure.detail, "EOF while parsing a value at line 1 column 5");
    let failure = parse_member("", "a").unwrap_err();
    assert_eq!(failure.detail, "EOF while parsing a value at line 1 column 0");
    let failure = parse_member("{} {}", "a").unwrap_err();
    assert_eq!(failure.detail, "trailing characters at line 1 column 4");
}

#[test]
fn whitespace_is_what_unicode_calls_white_space() {
    let mut count = 0;
    for code in 0..=0x10ffff_u32 {
        if let Some(c) = char::from_u32(code) {
            assert_eq!(is_whitespace(c), c.is_whitespace(), "U+{:04X}", code);
            if is_whitespace(c) {
                count += 1;
            }
        }
    }
    assert_eq!(count, 25);
}

#[test]
fn trimming_agrees_with_the_standard_library() {
    for text in ["", " ", "a", " a", "a ", "\u{85}a\u{2028}b\u{205f}", "\u{180e}x\u{200b}", "\n\t x y \r\n"] {
        assert_eq!(trim(text), text.trim());
        assert_eq!(trim_end(text), text.trim_end());
    }
}

#[test]
fn lines_are_joined_by_line_feeds() {
    let lines = |texts: &[&str]| texts.iter().map(|s| s.to_string()).collect::<Vec<String>>();
    assert_eq!(join_lines(&lines(&[])), "");
    assert_eq!(join_lines(&lines(&["bad key"])), "bad key");
    assert_eq!(join_lines(&lines(&["a", "", "b "])), "a\n\nb ");
    for text in ["", "a", "a\nb", "a\n", "\n\n"] {
        assert_eq!(join_lines(&split_lines(text)), text);
    }
}

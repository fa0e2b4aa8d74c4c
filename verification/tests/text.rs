use colap::text::{
    chars_of, contains_char, numbered_message, parse_integer, prefixed_message, push_decimal,
    push_indented, push_repeated, push_signed_decimal, quoted_message, replace_char, same_text,
    split_text, trim,
};

#[test]
fn chars_of_lists_the_characters() {
    assert_eq!(chars_of("aé€"), vec!['a', 'é', '€']);
    assert!(chars_of("").is_empty());
}

#[test]
fn same_text_compares_contents() {
    assert!(same_text("abc", "abc"));
    assert!(same_text("", ""));
    assert!(!same_text("abc", "abd"));
    assert!(!same_text("abc", "ab"));
    assert!(!same_text("ab", "abc"));
}

#[test]
fn contains_char_finds_a_character() {
    assert!(contains_char("1.5", '.'));
    assert!(!contains_char("15", '.'));
    assert!(!contains_char("", '.'));
}

#[test]
fn trim_removes_white_space_at_both_ends() {
    assert_eq!(trim("  llm \t\n"), "llm");
    assert_eq!(trim("llm"), "llm");
    assert_eq!(trim("a b"), "a b");
    assert_eq!(trim("   "), "");
    assert_eq!(trim(""), "");
    assert_eq!(trim("\u{3000}x\u{a0}"), "x");
    assert_eq!(trim(" \u{1680}\u{2003}é \u{2028}"), "é");
    assert_eq!(trim("\u{200b}x"), "\u{200b}x");
}

#[test]
fn trim_agrees_with_the_standard_library() {
    for code in 0u32..0x3100 {
        if let Some(c) = char::from_u32(code) {
            let text = format!("{}x{}", c, c);
            assert_eq!(trim(&text), text.trim());
        }
    }
}

#[test]
fn decimal_numerals() {
    let mut out = String::from(">");
    push_decimal(&mut out, 0);
    push_decimal(&mut out, 7);
    push_decimal(&mut out, 10);
    push_decimal(&mut out, 18446744073709551615);
    assert_eq!(out, ">071018446744073709551615");
    let mut signed = String::new();
    push_signed_decimal(&mut signed, -1);
    push_signed_decimal(&mut signed, 25);
    push_signed_decimal(&mut signed, i64::MIN);
    assert_eq!(signed, "-125-9223372036854775808");
}

#[test]
fn integers_are_read_as_rust_reads_them() {
    assert_eq!(parse_integer("1000"), Some(1000));
    assert_eq!(parse_integer("0"), Some(0));
    assert_eq!(parse_integer("007"), Some(7));
    assert_eq!(parse_integer("+5"), Some(5));
    assert_eq!(parse_integer("-5"), Some(-5));
    assert_eq!(parse_integer("-0"), Some(0));
    assert_eq!(parse_integer("9223372036854775807"), Some(i64::MAX));
    assert_eq!(parse_integer("-9223372036854775808"), Some(i64::MIN));
    assert_eq!(parse_integer("9223372036854775808"), None);
    assert_eq!(parse_integer("-9223372036854775809"), None);
    assert_eq!(parse_integer("99999999999999999999999999"), None);
    assert_eq!(parse_integer(""), None);
    assert_eq!(parse_integer("+"), None);
    assert_eq!(parse_integer("-"), None);
    assert_eq!(parse_integer("12a"), None);
    assert_eq!(parse_integer("1 2"), None);
    assert_eq!(parse_integer(" 12"), None);
    assert_eq!(parse_integer("1_000"), None);
    assert_eq!(parse_integer("--1"), None);
    assert_eq!(parse_integer("١٢"), None);
    for text in ["1000", "+5", "-", "", "12a", "-9223372036854775808", "9223372036854775808"] {
        assert_eq!(parse_integer(text), text.parse::<i64>().ok());
    }
}

#[test]
fn split_text_parts() {
    assert_eq!(split_text("llm/openai/model", '/'), vec!["llm", "openai", "model"]);
    assert_eq!(split_text("llm", '/'), vec!["llm"]);
    assert_eq!(split_text("", '/'), vec![""]);
    assert_eq!(split_text("a//b/", '/'), vec!["a", "", "b", ""]);
    assert_eq!(split_text("/", '/'), vec!["", ""]);
}

#[test]
fn messages_are_put_together() {
    assert_eq!(numbered_message("Node ", 12, " missing"), "Node 12 missing");
    assert_eq!(prefixed_message("Failed: ", "x"), "Failed: x");
    assert_eq!(quoted_message("'", "p", "'"), "'p'");
    let mut out = String::from("|");
    push_repeated(&mut out, "ab", 3);
    push_repeated(&mut out, "c", 0);
    assert_eq!(out, "|ababab");
}

#[test]
fn replace_char_replaces_each_occurrence() {
    assert_eq!(replace_char("my-crate-name", '-', "_"), "my_crate_name");
    assert_eq!(replace_char("a\\b\\c.md", '\\', "/"), "a/b/c.md");
    assert_eq!(replace_char("plain", '-', "_"), "plain");
    assert_eq!(replace_char("", '-', "_"), "");
}

#[test]
fn indented_lines_skip_blank_lines() {
    let mut out = String::from("{\n");
    push_indented(&mut out, "a\n\n  b\r\n   \nc", "    ");
    assert_eq!(out, "{\n    a\n      b\n    c\n");
    let mut same = String::new();
    push_indented(&mut same, "x\ny\n", "  ");
    assert_eq!(same, "  x\n  y\n");
}

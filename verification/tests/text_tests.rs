use title_monitor::text::{char_is_whitespace, chars_of, first_line_of, parse_title, trimmed};

#[test]
fn title_is_taken_from_quoted_value() {
    assert_eq!(
        parse_title("WM_NAME = \"Example Title\""),
        Some("Example Title".to_string())
    );
}

#[test]
fn title_with_typed_property_name() {
    assert_eq!(
        parse_title("WM_NAME(UTF8_STRING) = \"Song A\""),
        Some("Song A".to_string())
    );
}

#[test]
fn spaces_around_the_quoted_value_are_stripped() {
    assert_eq!(
        parse_title("WM_NAME(UTF8_STRING) =  \"spaced\"  "),
        Some("spaced".to_string())
    );
    assert_eq!(
        parse_title("WM_NAME = \"two  words\"\n"),
        Some("two  words".to_string())
    );
}

#[test]
fn spaces_inside_the_quotes_are_kept() {
    assert_eq!(
        parse_title("WM_NAME(UTF8_STRING) =  \"  spaced  \""),
        Some("  spaced  ".to_string())
    );
}

#[test]
fn answer_without_equals_has_no_title() {
    assert_eq!(parse_title("WM_NAME:  not found."), None);
    assert_eq!(parse_title(""), None);
    assert_eq!(parse_title("   "), None);
}

#[test]
fn bare_value_is_taken_as_it_is() {
    assert_eq!(parse_title("WM_NAME = bare"), Some("bare".to_string()));
    assert_eq!(parse_title("a=b"), Some("b".to_string()));
}

#[test]
fn only_the_first_equals_splits() {
    assert_eq!(parse_title("WM_NAME = \"a = b\""), Some("a = b".to_string()));
    assert_eq!(parse_title("k==v"), Some("=v".to_string()));
}

#[test]
fn empty_value_gives_empty_title() {
    assert_eq!(parse_title("WM_NAME = \"\""), Some(String::new()));
    assert_eq!(parse_title("WM_NAME ="), Some(String::new()));
    assert_eq!(parse_title("="), Some(String::new()));
    assert_eq!(parse_title("WM_NAME = \""), Some(String::new()));
}

#[test]
fn one_layer_of_quotes_is_stripped() {
    assert_eq!(parse_title("WM_NAME = \"\"a\"\""), Some("\"a\"".to_string()));
    assert_eq!(parse_title("WM_NAME = \"\"\""), Some("\"".to_string()));
}

#[test]
fn a_single_quote_at_one_end_is_stripped() {
    assert_eq!(parse_title("WM_NAME = \"open"), Some("open".to_string()));
    assert_eq!(parse_title("WM_NAME = close\""), Some("close".to_string()));
    assert_eq!(parse_title("WM_NAME = in\"side"), Some("in\"side".to_string()));
}

#[test]
fn titles_beyond_ascii_are_kept() {
    assert_eq!(
        parse_title("WM_NAME(UTF8_STRING) = \"夜曲 - 周杰伦\""),
        Some("夜曲 - 周杰伦".to_string())
    );
    assert_eq!(
        parse_title("WM_NAME = \u{3000}\"é\"\u{a0}"),
        Some("é".to_string())
    );
}

#[test]
fn whitespace_is_what_std_calls_whitespace() {
    let mut code: u32 = 0;
    while code <= 0x10FFFF {
        if let Some(c) = char::from_u32(code) {
            assert_eq!(char_is_whitespace(c), c.is_whitespace(), "U+{:04X}", code);
        }
        code += 1;
    }
}

#[test]
fn whitespace_examples() {
    assert!(char_is_whitespace(' '));
    assert!(char_is_whitespace('\t'));
    assert!(char_is_whitespace('\n'));
    assert!(char_is_whitespace('\r'));
    assert!(char_is_whitespace('\u{85}'));
    assert!(char_is_whitespace('\u{3000}'));
    assert!(!char_is_whitespace('a'));
    assert!(!char_is_whitespace('"'));
    assert!(!char_is_whitespace('\u{200B}'));
    assert!(!char_is_whitespace('\u{180E}'));
}

#[test]
fn trimmed_agrees_with_std_trim() {
    let samples = [
        "",
        " ",
        "\n\t ",
        "abc",
        "  abc",
        "abc  ",
        "  a b  c \r\n",
        "\u{2003}x\u{2028}",
        " 夜 曲 ",
        "\u{200B} zero width stays \u{200B}",
    ];
    for s in samples {
        assert_eq!(trimmed(s), s.trim().to_string(), "{:?}", s);
    }
}

#[test]
fn trimmed_exact_values() {
    assert_eq!(trimmed("  12345\n"), "12345");
    assert_eq!(trimmed(" a  b "), "a  b");
    assert_eq!(trimmed(" \t "), "");
}

#[test]
fn chars_of_lists_the_characters() {
    assert_eq!(chars_of("a夜="), vec!['a', '夜', '=']);
    assert_eq!(chars_of(""), Vec::<char>::new());
}

#[test]
fn first_line_ends_before_the_line_feed() {
    assert_eq!(first_line_of("one\ntwo\n"), "one");
    assert_eq!(first_line_of("only"), "only");
    assert_eq!(first_line_of("\nsecond"), "");
    assert_eq!(first_line_of(""), "");
    assert_eq!(first_line_of("夜 曲\r\nx"), "夜 曲\r");
}

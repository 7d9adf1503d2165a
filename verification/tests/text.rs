use backend::text::{is_blank_line, is_white_space_char, join_with, same_text, split_lines};

#[test]
fn split_lines_matches_str_lines() {
    let cases = [
        "",
        "a",
        "a\n",
        "a\nb",
        "a\r\nb\r\n",
        "\n",
        "\n\n",
        "x\r",
        "x\r\ny\r",
        "a\n\r\nb",
        "é\nü\r\n日本",
        "\r\n",
        "a\r\r\nb",
    ];
    for case in cases {
        let expected: Vec<&str> = case.lines().collect();
        assert_eq!(split_lines(case), expected, "case {:?}", case);
    }
}

#[test]
fn blank_lines() {
    assert!(is_blank_line(""));
    assert!(is_blank_line(" \t\r\u{0b}\u{0c}\u{85}\u{a0}\u{1680}\u{2000}\u{200a}\u{2028}\u{2029}\u{202f}\u{205f}\u{3000}"));
    assert!(!is_blank_line(" x "));
    assert!(!is_blank_line("\u{200b}"));
    for c in ['\u{0}', 'a', '\u{1f}', '\u{200b}', '\u{feff}', '\u{2000}', '\u{3000}', ' ', '\u{85}'] {
        assert_eq!(is_white_space_char(c), c.is_whitespace(), "char {:?}", c);
    }
}

#[test]
fn join_with_separator() {
    let parts = vec!["a".to_string(), "bc".to_string(), "".to_string(), "d".to_string()];
    assert_eq!(join_with(&parts, ", "), "a, bc, , d");
    assert_eq!(join_with(&parts[..1], ", "), "a");
    assert_eq!(join_with(&[], ", "), "");
}

#[test]
fn same_text_compares_characters() {
    assert!(same_text("abc", "abc"));
    assert!(!same_text("abc", "abd"));
    assert!(!same_text("abc", "ab"));
}

use tuigreet::text::{
    char_width, concat_number, contains_str, decimal_string, first_word_of, join_strings, lines_of,
    spaces_string, split_at_char, str_eq,
};

#[test]
fn lines_like_str_lines() {
    for s in ["", "a", "a\n", "a\nb", "a\r\nb\r\n", "\n\n", "x\r", "a\n\nb"] {
        let expected: Vec<String> = s.lines().map(|l| l.to_string()).collect();
        assert_eq!(lines_of(s), expected, "lines of {:?}", s);
    }
}

#[test]
fn split_like_str_split() {
    for s in ["", ";", "a;b", "a;;b;", "é;ü"] {
        let expected: Vec<String> = s.split(';').map(|l| l.to_string()).collect();
        assert_eq!(split_at_char(s, ';'), expected);
    }
}

#[test]
fn widths_like_len_utf8() {
    for c in ['a', '\u{7f}', '\u{80}', 'é', '\u{7ff}', '\u{800}', '€', '\u{ffff}', '\u{10000}', '😀'] {
        assert_eq!(char_width(c), c.len_utf8());
    }
}

#[test]
fn small_helpers() {
    assert_eq!(decimal_string(0), "0");
    assert_eq!(decimal_string(18446744073709551615), "18446744073709551615");
    assert_eq!(concat_number("F", 12, "!"), "F12!");
    assert_eq!(spaces_string(3), "   ");
    assert_eq!(join_strings(&vec!["a".to_string(), "b".to_string()], ", "), "a, b");
    assert_eq!(join_strings(&Vec::new(), ", "), "");
    assert!(contains_str("sudo poweroff", "sudo"));
    assert!(!contains_str("su", "sudo"));
    assert!(str_eq("é", "é"));
    assert_eq!(first_word_of("\t startx  /usr/bin/env"), Some("startx".to_string()));
    assert_eq!(first_word_of("   "), None);
}

use bopen::text::{
    backspace, chars_of, delete, first_word_str, is_blank, lines_of_str, move_left, move_right,
    remove_all_chars, split_chars, string_of, trim_str, type_char,
};

fn chars(s: &str) -> Vec<char> {
    s.chars().collect()
}

#[test]
fn test_trim_and_blank() {
    assert_eq!(trim_str("  a b \t\n"), chars("a b"));
    assert_eq!(trim_str("\u{3000}x\u{a0}"), chars("x"));
    assert!(is_blank(" \t\n"));
    assert!(is_blank(""));
    assert!(!is_blank(" x "));
}

#[test]
fn test_first_word() {
    assert_eq!(first_word_str("  firefox --new"), chars("firefox"));
    assert_eq!(first_word_str("   "), chars(""));
    assert_eq!(first_word_str("one"), chars("one"));
}

#[test]
fn test_lines_like_str_lines() {
    assert_eq!(lines_of_str("a\r\nb\n\nc"), vec![chars("a"), chars("b"), chars(""), chars("c")]);
    assert_eq!(lines_of_str("a\n"), vec![chars("a")]);
    assert!(lines_of_str("").is_empty());
    assert_eq!(lines_of_str("x\ry\n"), vec![chars("x\ry")]);
}

#[test]
fn test_split_and_remove_all() {
    assert_eq!(split_chars(&chars("a:b::c"), ':'), vec![chars("a"), chars("b"), chars(""), chars("c")]);
    assert_eq!(split_chars(&chars(""), ':'), vec![chars("")]);
    assert_eq!(remove_all_chars(&chars("x%uy%u"), &chars("%u")), chars("xy"));
    assert_eq!(remove_all_chars(&chars("%%uu"), &chars("%u")), chars("%u"));
}

#[test]
fn test_chars_round_trip() {
    assert_eq!(string_of(&chars_of("héllo")), "héllo");
}

#[test]
fn test_editing_at_character_boundaries() {
    let s = String::from("añb");
    assert_eq!(move_left(&s, 3), 1);
    assert_eq!(move_right(&s, 1), 3);
    assert_eq!(move_left(&s, 0), 0);
    assert_eq!(move_right(&s, 4), 4);
    assert_eq!(type_char(&s, 3, 'x'), ("añxb".to_string(), 4));
    assert_eq!(type_char(&s, 0, 'é'), ("éañb".to_string(), 2));
    assert_eq!(backspace(&s, 3), ("ab".to_string(), 1));
    assert_eq!(backspace(&s, 0), ("añb".to_string(), 0));
    assert_eq!(delete(&s, 1), ("ab".to_string(), 1));
    assert_eq!(delete(&s, 4), ("añb".to_string(), 4));
}

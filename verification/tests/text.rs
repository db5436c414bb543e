use mudcrab::text::{chars_of, has_char, is_blank, split_on, string_of, CharClass};

fn chars(text: &str) -> Vec<char> {
    text.chars().collect()
}

fn pieces(text: &str, sep: char) -> Vec<String> {
    split_on(&chars(text), sep).iter().map(|piece| piece.iter().collect()).collect()
}

#[test]
fn blank_is_unicode_white_space() {
    for code in 0..=0x10ffffu32 {
        if let Some(c) = char::from_u32(code) {
            assert_eq!(is_blank(c), c.is_whitespace(), "U+{:04X}", code);
        }
    }
}

#[test]
fn blank_examples() {
    assert!(is_blank(' '));
    assert!(is_blank('\t'));
    assert!(is_blank('\n'));
    assert!(is_blank('\r'));
    assert!(is_blank('\u{a0}'));
    assert!(!is_blank('a'));
    assert!(!is_blank('0'));
    assert!(!is_blank('\u{200b}'));
    assert!(!is_blank('\u{8}'));
    assert!(!is_blank('\u{e}'));
}

#[test]
fn classes_tell_characters_apart() {
    assert!(CharClass::Blank.contains(' '));
    assert!(!CharClass::Blank.contains('x'));
    assert!(CharClass::Word.contains('x'));
    assert!(!CharClass::Word.contains('\t'));
    assert!(CharClass::Except('/').contains('x'));
    assert!(CharClass::Except('/').contains(' '));
    assert!(!CharClass::Except('/').contains('/'));
}

#[test]
fn chars_and_strings_convert_both_ways() {
    assert_eq!(chars_of("a\u{e9}\u{4e16}!"), vec!['a', '\u{e9}', '\u{4e16}', '!']);
    assert_eq!(chars_of(""), Vec::<char>::new());
    assert_eq!(string_of(&vec!['a', '\u{e9}', '\u{4e16}', '!']), "a\u{e9}\u{4e16}!");
    assert_eq!(string_of(&Vec::new()), "");
}

#[test]
fn has_char_finds_occurrences() {
    assert!(has_char(&chars("abc"), 'a'));
    assert!(has_char(&chars("abc"), 'c'));
    assert!(!has_char(&chars("abc"), 'd'));
    assert!(!has_char(&chars(""), 'a'));
}

#[test]
fn split_gives_one_piece_more_than_separators() {
    assert_eq!(pieces("a,b,c", ','), vec!["a", "b", "c"]);
    assert_eq!(pieces("abc", ','), vec!["abc"]);
    assert_eq!(pieces("", ','), vec![""]);
    assert_eq!(pieces(",", ','), vec!["", ""]);
    assert_eq!(pieces("a,,b,", ','), vec!["a", "", "b", ""]);
    assert_eq!(pieces(",a", ','), vec!["", "a"]);
}

#[test]
fn split_agrees_with_std() {
    for text in ["", "/", "a/b", "//a//", "a/b/c/", "no separator", "/\u{e9}/"] {
        let expected: Vec<String> = text.split('/').map(|piece| piece.to_string()).collect();
        assert_eq!(pieces(text, '/'), expected);
    }
}

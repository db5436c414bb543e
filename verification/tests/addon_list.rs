use mudcrab::{parse_addon_list, read_addon_list, ListUnreadable};

fn ids(text: &str) -> Vec<String> {
    parse_addon_list(text)
}

#[test]
fn first_token_of_each_line_with_a_token() {
    assert_eq!(ids("123 extra\n\n456\n"), vec!["123", "456"]);
}

#[test]
fn empty_list_names_nothing() {
    assert_eq!(ids(""), Vec::<String>::new());
}

#[test]
fn blank_lines_name_nothing() {
    assert_eq!(ids("\n\n   \n\t\n"), Vec::<String>::new());
}

#[test]
fn last_line_needs_no_newline() {
    assert_eq!(ids("1\n2"), vec!["1", "2"]);
}

#[test]
fn leading_whitespace_is_skipped() {
    assert_eq!(ids("   7\n\t8 nine\n"), vec!["7", "8"]);
}

#[test]
fn carriage_returns_are_whitespace() {
    assert_eq!(ids("10\r\n\r\n20 x\r\n"), vec!["10", "20"]);
}

#[test]
fn duplicates_and_order_are_kept() {
    assert_eq!(ids("3\n1\n3\n2\n1\n"), vec!["3", "1", "3", "2", "1"]);
}

#[test]
fn identifiers_are_not_validated() {
    assert_eq!(ids("abc-def_1 # note\n../x\n"), vec!["abc-def_1", "../x"]);
}

#[test]
fn unicode_whitespace_delimits_tokens() {
    assert_eq!(ids("12\u{a0}rest\n\u{3000}34\u{2003}x\n\u{2028}56\n"), vec!["12", "34", "56"]);
}

#[test]
fn other_characters_belong_to_the_token() {
    assert_eq!(ids("7\u{200b}8\n\u{e9}t\u{e9} 9\n"), vec!["7\u{200b}8", "\u{e9}t\u{e9}"]);
}

#[test]
fn tokens_after_the_first_are_ignored() {
    assert_eq!(ids("1 2 3\n4\t5\n"), vec!["1", "4"]);
}

#[test]
fn agrees_with_lines_and_split_whitespace() {
    let text = " 12  a\n\n\t\n34\r\n 5 6 7 \n\u{85}8\n9";
    let expected: Vec<String> = text
        .lines()
        .filter_map(|line| line.split_whitespace().next())
        .map(|token| token.to_string())
        .collect();
    assert_eq!(ids(text), expected);
}

#[test]
fn a_list_that_was_read_gives_its_identifiers() {
    assert_eq!(
        read_addon_list("addons.txt", Ok("123 extra\n\n456\n".to_string())),
        Ok(vec!["123".to_string(), "456".to_string()])
    );
    assert_eq!(read_addon_list("addons.txt", Ok(String::new())), Ok(Vec::new()));
}

#[test]
fn a_list_that_could_not_be_read_is_reported() {
    assert_eq!(
        read_addon_list("/no/such/list", Err("No such file or directory".to_string())),
        Err(ListUnreadable {
            path: "/no/such/list".to_string(),
            reason: "No such file or directory".to_string(),
        })
    );
}

#[test]
fn identifiers_are_tokens() {
    let text = " a b\n\u{a0}c\u{2003}d \r\n\n e\tf\n\u{3000}\n g";
    let found = ids(text);
    assert_eq!(found, vec!["a", "c", "e", "g"]);
    for id in found {
        assert!(!id.is_empty());
        assert!(!id.chars().any(char::is_whitespace));
    }
}

//! The addon list: a text with one addon identifier per line.
//!
//! The identifier of a line is its first whitespace-delimited token. What
//! follows the token on the same line is ignored, and a line without a token
//! names no addon.

use crate::text::{
    blank, chars_of, copy_range, lemma_run_len, rows, run_len, scan, split, split_on, string_of,
    CharClass,
};
use vstd::prelude::*;
use vstd::string::StringExecFns;

verus! {

/// The first whitespace-delimited token of `line`, empty where the line holds
/// nothing but whitespace.
pub open spec fn first_token(line: Seq<char>) -> Seq<char> {
    let body = line.skip(run_len(line, CharClass::Blank) as int);
    body.take(run_len(body, CharClass::Word) as int)
}

/// Whether a token names an addon: every token but the empty one does.
pub open spec fn names_addon(token: Seq<char>) -> bool {
    token.len() > 0
}

/// The identifiers that a list of lines names: the first token of each line
/// that has one, in the order of the lines.
pub open spec fn line_ids(lines: Seq<Seq<char>>) -> Seq<Seq<char>> {
    lines.map_values(|line: Seq<char>| first_token(line)).filter(
        |token: Seq<char>| names_addon(token),
    )
}

/// The identifiers that an addon list names, in the order of the list and with
/// every repetition kept.
pub open spec fn addon_ids(text: Seq<char>) -> Seq<Seq<char>> {
    line_ids(split(text, '\n'))
}

/// Adding a line at the end adds its identifier at the end, if it has one.
pub proof fn lemma_line_ids_push(lines: Seq<Seq<char>>, line: Seq<char>)
    ensures
        line_ids(lines.push(line)) == if names_addon(first_token(line)) {
            line_ids(lines).push(first_token(line))
        } else {
            line_ids(lines)
        },
{
    let tokens = lines.map_values(|line: Seq<char>| first_token(line));
    let longer = lines.push(line).map_values(|line: Seq<char>| first_token(line));
    assert(longer.drop_last() == tokens);
    reveal(Seq::filter);
}

/// What an identifier is: a token, that is a run of characters that is not
/// empty and holds no whitespace.
pub open spec fn is_token(token: Seq<char>) -> bool {
    &&& token.len() > 0
    &&& forall|j: int| 0 <= j < token.len() ==> !blank(#[trigger] token[j])
}

/// The first token of a line is a token, unless it is empty.
pub proof fn lemma_first_token(line: Seq<char>)
    ensures
        names_addon(first_token(line)) ==> is_token(first_token(line)),
{
    let body = line.skip(run_len(line, CharClass::Blank) as int);
    lemma_run_len(body, CharClass::Word);
}

/// Every identifier that a list of lines names is a token.
pub proof fn lemma_line_ids_are_tokens(lines: Seq<Seq<char>>)
    ensures
        forall|i: int| 0 <= i < line_ids(lines).len() ==> is_token(#[trigger] line_ids(lines)[i]),
    decreases lines.len(),
{
    if lines.len() > 0 {
        lemma_line_ids_are_tokens(lines.drop_last());
        lemma_line_ids_push(lines.drop_last(), lines.last());
        lemma_first_token(lines.last());
        assert(lines.drop_last().push(lines.last()) == lines);
    }
}

/// The first whitespace-delimited token of `line`.
pub fn first_token_of(line: &Vec<char>) -> (token: Vec<char>)
    ensures
        token@ == first_token(line@),
{
    assert(line@.skip(0) == line@);
    let start = scan(line, 0, CharClass::Blank);
    let end = scan(line, start, CharClass::Word);
    copy_range(line, start, end)
}

/// Reads the identifiers off an addon list: one for each line that holds a
/// token, namely the first token of that line, in the order of the lines.
/// Repeated identifiers are all kept.
pub fn parse_addon_list(text: &str) -> (ids: Vec<String>)
    ensures
        ids.deep_view() == addon_ids(text@),
        forall|i: int| 0 <= i < ids.len() ==> is_token((#[trigger] ids[i])@),
{
    let chars = chars_of(text);
    let lines = split_on(&chars, '\n');
    let mut ids: Vec<String> = Vec::new();
    let mut i: usize = 0;
    while i < lines.len()
        invariant
            i <= lines.len(),
            ids.deep_view() == line_ids(rows(lines@).take(i as int)),
        decreases lines.len() - i,
    {
        let token = first_token_of(&lines[i]);
        proof {
            lemma_line_ids_push(rows(lines@).take(i as int), lines@[i as int]@);
            assert(rows(lines@).take(i + 1) == rows(lines@).take(i as int).push(
                lines@[i as int]@,
            ));
        }
        if token.len() > 0 {
            ids.push(string_of(&token));
        }
        i += 1;
    }
    assert(rows(lines@).take(lines.len() as int) == rows(lines@));
    assert forall|i: int| 0 <= i < ids.len() implies is_token((#[trigger] ids[i])@) by {
        lemma_line_ids_are_tokens(split(text@, '\n'));
        assert(ids[i]@ == addon_ids(text@)[i]);
    }
    ids
}

/// The addon list could not be read.
#[derive(Clone, Debug, PartialEq, Eq)]
pub struct ListUnreadable {
    /// The path of the addon list.
    pub path: String,
    /// Why it could not be read.
    pub reason: String,
}

/// The mathematical content of a [`ListUnreadable`].
pub struct ListUnreadableView {
    pub path: Seq<char>,
    pub reason: Seq<char>,
}

impl View for ListUnreadable {
    type V = ListUnreadableView;

    open spec fn view(&self) -> ListUnreadableView {
        ListUnreadableView { path: self.path@, reason: self.reason@ }
    }
}

/// The identifiers of the addon list at `path`, from what came of reading
/// that file: its text, or the reason why it could not be read. The text
/// gives its identifiers, see [`addon_ids`]; a file that could not be read
/// gives `ListUnreadable`, with the path and the reason.
pub fn read_addon_list(path: &str, content: Result<String, String>) -> (ids: Result<
    Vec<String>,
    ListUnreadable,
>)
    ensures
        match content {
            Ok(text) => ids is Ok && ids->Ok_0.deep_view() == addon_ids(text@),
            Err(reason) => ids is Err && ids->Err_0@ == (ListUnreadableView {
                path: path@,
                reason: reason@,
            }),
        },
{
    match content {
        Ok(text) => Ok(parse_addon_list(text.as_str())),
        Err(reason) => Err(ListUnreadable { path: String::from_str(path), reason }),
    }
}

} // verus!

//! Reading a line as shell words, for parsing it as a command and for completing
//! it.

use vstd::prelude::*;
use vstd::string::*;
use vstd::utf8::*;

verus! {

/// The name that stands in front of the words of a line when they are parsed as
/// the arguments of a program.
pub const PROGRAM_NAME: &'static str = "reson";

/// The number of bytes that `text` takes in UTF-8.
pub open spec fn byte_len(text: Seq<char>) -> nat {
    encode_utf8(text).len()
}

/// The words that `shlex::split` splits a text into, if its quoting is complete.
pub uninterp spec fn shell_words(text: Seq<char>) -> Option<Seq<Seq<char>>>;

/// `shlex::split` splits a text into words as a POSIX shell would. Which words come
/// back, or that none do, depends on the text alone. Every byte of a word is taken
/// from the text, so that no word is longer than the text.
#[verifier::external_body]
fn split_words(text: &str) -> (words: Option<Vec<String>>)
    ensures
        words.deep_view() == shell_words(text@),
        words matches Some(words) ==> forall|i: int|
            0 <= i < words.len() ==> byte_len((#[trigger] words[i])@) <= byte_len(text@),
{
    shlex::split(text)
}

/// The arguments that a line's words are parsed as: the program's name, then the
/// words. A line that does not split has none.
pub open spec fn argument_list_of(words: Option<Seq<Seq<char>>>) -> Seq<Seq<char>> {
    seq![PROGRAM_NAME@] + (match words {
        Some(words) => words,
        None => Seq::empty(),
    })
}

/// The arguments that a line's words are parsed as.
pub fn argument_list(words: Option<Vec<String>>) -> (args: Vec<String>)
    ensures
        args.deep_view() == argument_list_of(words.deep_view()),
{
    let mut args: Vec<String> = match words {
        Some(words) => words,
        None => Vec::new(),
    };
    args.insert(0, PROGRAM_NAME.to_owned());
    assert(args.deep_view() =~= argument_list_of(words.deep_view()));
    args
}

/// The arguments that a line is parsed as.
pub fn command_args(line: &str) -> (args: Vec<String>)
    ensures
        args.deep_view() == argument_list_of(shell_words(line@)),
{
    argument_list(split_words(line))
}

/// What a completer is asked: complete argument `index` of `args`; what it finds
/// takes the place of the bytes from `start` to `end` of the line.
#[derive(Debug)]
pub struct CompletionQuery {
    pub args: Vec<String>,
    pub index: usize,
    pub start: usize,
    pub end: usize,
}

/// Whether a new word begins after `text`: it is empty or ends with a space.
pub open spec fn begins_new_word(text: Seq<char>) -> bool {
    text.len() == 0 || text.last() == ' '
}

/// The arguments to complete the last of, for a line that reads `text` up to the
/// cursor and splits into `words`.
pub open spec fn completion_args(words: Option<Seq<Seq<char>>>, text: Seq<char>) -> Seq<Seq<char>> {
    argument_list_of(words) + (if begins_new_word(text) {
        seq![Seq::<char>::empty()]
    } else {
        Seq::empty()
    })
}

/// The part of a line in front of the byte at `pos`.
pub open spec fn text_before(line: &str, pos: usize) -> Seq<char> {
    decode_utf8(line.spec_bytes().subrange(0, pos as int))
}

/// Whether a new word begins after `text`.
fn is_new_word(text: &str) -> (r: bool)
    ensures
        r == begins_new_word(text@),
{
    let n: usize = text.unicode_len();
    n == 0 || text.get_char(n - 1) == ' '
}

/// The question to a completer about a line that reads `text` up to the cursor, at
/// `pos`, and splits into `words`.
pub fn completion_query(words: Option<Vec<String>>, text: &str, pos: usize) -> (query:
    CompletionQuery)
    requires
        byte_len(completion_args(words.deep_view(), text@).last()) <= pos,
    ensures
        query.args.deep_view() == completion_args(words.deep_view(), text@),
        query.index == query.args.len() - 1,
        query.start == pos - byte_len(completion_args(words.deep_view(), text@).last()),
        query.end == pos,
{
    let mut args = argument_list(words);
    let ghost listed = args.deep_view();
    if is_new_word(text) {
        args.push(String::new());
    }
    assert(args.deep_view() =~= completion_args(words.deep_view(), text@));
    let index: usize = args.len() - 1;
    assert(args.deep_view().last() == args[index as int]@);
    let last_len: usize = args[index].as_str().as_bytes().len();
    CompletionQuery { args, index, start: pos - last_len, end: pos }
}

/// The question to a completer about a line with the cursor at byte `pos`, if what
/// it finds has a place in the line: there is none if the last argument is the
/// program's own name and the cursor stands closer to the start than that is long.
pub fn complete(line: &str, pos: usize) -> (query: Option<CompletionQuery>)
    requires
        is_char_boundary(line.spec_bytes(), pos as int),
    ensures
        ({
            let text = text_before(line, pos);
            let args = completion_args(shell_words(text), text);
            &&& query is Some <==> byte_len(args.last()) <= pos
            &&& begins_new_word(text) || argument_list_of(shell_words(text)).len() > 1
                ==> query is Some
            &&& query matches Some(query) ==> {
                &&& query.args.deep_view() == args
                &&& query.index == args.len() - 1
                &&& query.start == pos - byte_len(args.last())
                &&& query.end == pos
            }
        }),
{
    let text = line.split_at(pos).0;
    proof {
        encode_utf8_valid_utf8(line@);
        encode_utf8_decode_utf8(text@);
        assert(text@ == text_before(line, pos));
        assert(text.spec_bytes().len() == pos);
        assert(encode_utf8(Seq::<char>::empty()).len() == 0);
    }
    let words = split_words(text);
    let ghost args = completion_args(words.deep_view(), text@);
    let last_len: usize = if is_new_word(text) {
        assert(args.last() =~= Seq::<char>::empty());
        0
    } else {
        match &words {
            Some(list) => if list.len() > 0 {
                assert(args.last() == list[list.len() - 1]@);
                list[list.len() - 1].as_str().as_bytes().len()
            } else {
                assert(args.last() == PROGRAM_NAME@);
                PROGRAM_NAME.as_bytes().len()
            },
            None => {
                assert(args.last() == PROGRAM_NAME@);
                PROGRAM_NAME.as_bytes().len()
            },
        }
    };
    assert(last_len == byte_len(args.last()));
    if last_len <= pos {
        Some(completion_query(words, text, pos))
    } else {
        None
    }
}

/// A line is parsed with the program's name in front, and behind it every word that
/// the line splits into, in order; a line that does not split is parsed with the name
/// alone.
pub proof fn every_word_is_an_argument(words: Seq<Seq<char>>, i: int)
    ensures
        argument_list_of(Some(words)).len() == words.len() + 1,
        argument_list_of(Some(words))[0] == "reson"@,
        0 <= i < words.len() ==> argument_list_of(Some(words))[i + 1] == words[i],
        argument_list_of(None) == seq!["reson"@],
{
    assert(argument_list_of(None) =~= seq!["reson"@]);
}

/// What is completed is the word that the cursor stands behind, or a new and still
/// empty one at the start of a line and behind a space; the words before it are those
/// that the line is parsed with.
pub proof fn the_word_at_the_cursor_is_completed(
    words: Option<Seq<Seq<char>>>,
    text: Seq<char>,
)
    ensures
        text.len() == 0 || text.last() == ' ' ==> completion_args(words, text)
            == argument_list_of(words).push(Seq::empty()),
        text.len() > 0 && text.last() != ' ' ==> completion_args(words, text) == argument_list_of(
            words,
        ),
{
    if text.len() == 0 || text.last() == ' ' {
        assert(completion_args(words, text) =~= argument_list_of(words).push(Seq::empty()));
    } else {
        assert(completion_args(words, text) =~= argument_list_of(words));
    }
}

} // verus!

//! Text helpers: whitespace trimming, decimal numbers, word joining.

use vstd::prelude::*;

verus! {

/// The characters that Unicode gives the `White_Space` property.
pub open spec fn is_white(c: char) -> bool {
    let n = c as u32;
    ||| 0x09 <= n <= 0x0d
    ||| n == 0x20
    ||| n == 0x85
    ||| n == 0xa0
    ||| n == 0x1680
    ||| 0x2000 <= n <= 0x200a
    ||| n == 0x2028
    ||| n == 0x2029
    ||| n == 0x202f
    ||| n == 0x205f
    ||| n == 0x3000
}

/// `s` without its leading whitespace.
pub open spec fn trimmed_front(s: Seq<char>) -> Seq<char>
    decreases s.len(),
{
    if s.len() > 0 && is_white(s.first()) {
        trimmed_front(s.drop_first())
    } else {
        s
    }
}

/// `s` without its trailing whitespace.
pub open spec fn trimmed_back(s: Seq<char>) -> Seq<char>
    decreases s.len(),
{
    if s.len() > 0 && is_white(s.last()) {
        trimmed_back(s.drop_last())
    } else {
        s
    }
}

/// `s` without whitespace at either end.
pub open spec fn trimmed(s: Seq<char>) -> Seq<char> {
    trimmed_back(trimmed_front(s))
}

/// `str::trim` hands back the part of the text that is left when the whitespace
/// at both ends is taken away, whitespace being what Unicode marks `White_Space`.
pub assume_specification[ str::trim ](s: &str) -> (r: &str)
    ensures
        r@ == trimmed(s@),
;

/// `String::push` appends one character.
pub assume_specification[ String::push ](s: &mut String, ch: char)
    ensures
        final(s)@ == old(s)@.push(ch),
;

/// The decimal digit `d`.
pub open spec fn digit(d: nat) -> char {
    (48 + d) as char
}

/// `n` in decimal, without leading zeros.
pub open spec fn decimal(n: nat) -> Seq<char>
    decreases n,
{
    if n < 10 {
        seq![digit(n)]
    } else {
        decimal(n / 10).push(digit(n % 10))
    }
}

/// `n` in decimal, with a minus sign in front of a negative number.
pub open spec fn signed_decimal(n: int) -> Seq<char> {
    if n < 0 {
        seq!['-'] + decimal((-n) as nat)
    } else {
        decimal(n as nat)
    }
}

/// Appends `n` in decimal.
pub fn push_decimal(s: &mut String, n: u64)
    ensures
        final(s)@ == old(s)@ + decimal(n as nat),
    decreases n,
{
    if n >= 10 {
        push_decimal(s, n / 10);
    }
    let d: u8 = (n % 10) as u8;
    s.push((48u8 + d) as char);
}

/// Appends `n` in decimal, with its sign if it is negative.
pub fn push_signed_decimal(s: &mut String, n: i32)
    ensures
        final(s)@ == old(s)@ + signed_decimal(n as int),
{
    if n < 0 {
        s.push('-');
        let magnitude: i64 = -(n as i64);
        push_decimal(s, magnitude as u64);
    } else {
        push_decimal(s, n as u64);
    }
}

/// The words in order, with one space between neighbours.
pub open spec fn joined(words: Seq<Seq<char>>) -> Seq<char>
    decreases words.len(),
{
    if words.len() == 0 {
        Seq::empty()
    } else if words.len() == 1 {
        words[0]
    } else {
        joined(words.drop_last()) + seq![' '] + words.last()
    }
}

/// Joins the words with single spaces.
pub fn join_words(words: &Vec<String>) -> (text: String)
    ensures
        text@ == joined(words.deep_view()),
{
    let mut text = String::new();
    let ghost all = words.deep_view();
    for i in 0..words.len()
        invariant
            all == words.deep_view(),
            text@ == joined(all.take(i as int)),
    {
        if i > 0 {
            text.push(' ');
        }
        text.append(words[i].as_str());
        assert(all.take(i + 1).drop_last() == all.take(i as int));
    }
    assert(all.take(words.len() as int) == all);
    text
}

/// Whether an owned text and a literal hold the same characters.
pub fn same_text(a: &String, b: &str) -> (same: bool)
    ensures
        same == (a@ == b@),
{
    *a == b.to_owned()
}

/// Whether `words` holds `word`, and where it first stands.
pub fn position(words: &Vec<String>, word: &String) -> (at: Option<usize>)
    ensures
        match at {
            Some(i) => {
                &&& i < words.len()
                &&& words.deep_view()[i as int] == word@
                &&& forall|j: int| 0 <= j < i ==> words.deep_view()[j] != word@
            },
            None => !words.deep_view().contains(word@),
        },
{
    for i in 0..words.len()
        invariant
            forall|j: int| 0 <= j < i ==> words.deep_view()[j] != word@,
    {
        if words[i] == *word {
            return Some(i);
        }
    }
    None
}

/// Copies a list of texts.
pub fn clone_words(words: &Vec<String>) -> (copy: Vec<String>)
    ensures
        copy.deep_view() == words.deep_view(),
{
    let mut copy: Vec<String> = Vec::new();
    for i in 0..words.len()
        invariant
            copy.len() == i,
            forall|j: int| 0 <= j < i ==> copy[j]@ == words[j]@,
    {
        copy.push(words[i].clone());
    }
    assert(copy.deep_view() =~= words.deep_view());
    copy
}

proof fn trimmed_front_parts(s: Seq<char>)
    ensures
        trimmed_front(s).len() <= s.len(),
        trimmed_front(s) == s.skip(s.len() - trimmed_front(s).len()),
        forall|i: int| 0 <= i < s.len() - trimmed_front(s).len() ==> is_white(#[trigger] s[i]),
        trimmed_front(s).len() > 0 ==> !is_white(trimmed_front(s).first()),
    decreases s.len(),
{
    if s.len() > 0 && is_white(s.first()) {
        let rest = s.drop_first();
        trimmed_front_parts(rest);
        assert(trimmed_front(s) =~= s.skip(s.len() - trimmed_front(s).len()));
        assert forall|i: int| 0 <= i < s.len() - trimmed_front(s).len() implies is_white(
            #[trigger] s[i],
        ) by {
            if i > 0 {
                assert(is_white(rest[i - 1]));
            }
        }
    } else {
        assert(s =~= s.skip(0));
    }
}

proof fn trimmed_back_parts(s: Seq<char>)
    ensures
        trimmed_back(s).len() <= s.len(),
        trimmed_back(s) == s.take(trimmed_back(s).len() as int),
        forall|i: int| trimmed_back(s).len() <= i < s.len() ==> is_white(#[trigger] s[i]),
        trimmed_back(s).len() > 0 ==> !is_white(trimmed_back(s).last()),
    decreases s.len(),
{
    if s.len() > 0 && is_white(s.last()) {
        let rest = s.drop_last();
        trimmed_back_parts(rest);
        assert(trimmed_back(s) =~= s.take(trimmed_back(s).len() as int));
        assert forall|i: int| trimmed_back(s).len() <= i < s.len() implies is_white(
            #[trigger] s[i],
        ) by {
            if i < s.len() - 1 {
                assert(is_white(rest[i]));
            }
        }
    } else {
        assert(s =~= s.take(s.len() as int));
    }
}

/// Trimming cuts only whitespace, and only at the ends: what is left stands
/// unchanged between a run of whitespace in front and one behind, and neither
/// starts nor ends with whitespace.
pub proof fn trimming_cuts_only_outer_whitespace(s: Seq<char>)
    ensures
        exists|front: Seq<char>, back: Seq<char>|
            {
                &&& s == #[trigger] (front + trimmed(s) + back)
                &&& forall|i: int| 0 <= i < front.len() ==> is_white(#[trigger] front[i])
                &&& forall|i: int| 0 <= i < back.len() ==> is_white(#[trigger] back[i])
            },
        trimmed(s).len() > 0 ==> !is_white(trimmed(s).first()) && !is_white(trimmed(s).last()),
{
    let inner = trimmed_front(s);
    trimmed_front_parts(s);
    trimmed_back_parts(inner);
    let front = s.take(s.len() - inner.len());
    let back = inner.skip(trimmed(s).len() as int);
    assert(s =~= front + trimmed(s) + back);
    assert forall|i: int| 0 <= i < back.len() implies is_white(#[trigger] back[i]) by {
        assert(is_white(inner[i + trimmed(s).len()]));
    }
    assert(trimmed(s).len() > 0 ==> trimmed(s).first() == inner.first());
}

/// Trimming twice is trimming once.
pub proof fn trimming_is_idempotent(s: Seq<char>)
    ensures
        trimmed(trimmed(s)) == trimmed(s),
{
    trimming_cuts_only_outer_whitespace(s);
}

/// Whether `part` stands somewhere in `whole`.
pub open spec fn holds_text(whole: Seq<char>, part: Seq<char>) -> bool {
    exists|before: Seq<char>, after: Seq<char>| whole == #[trigger] (before + part + after)
}

/// Whether `body` is what is left of `text` when the whitespace around it is cut
/// off.
pub open spec fn is_cut_from(body: Seq<char>, text: Seq<char>) -> bool {
    &&& body.len() > 0 ==> !is_white(body.first()) && !is_white(body.last())
    &&& exists|front: Seq<char>, back: Seq<char>|
        {
            &&& text == #[trigger] (front + body + back)
            &&& forall|i: int| 0 <= i < front.len() ==> is_white(#[trigger] front[i])
            &&& forall|i: int| 0 <= i < back.len() ==> is_white(#[trigger] back[i])
        }
}

/// The number that decimal digits stand for.
pub open spec fn number(digits: Seq<char>) -> nat
    decreases digits.len(),
{
    if digits.len() == 0 {
        0
    } else {
        number(digits.drop_last()) * 10 + ((digits.last() as int) - ('0' as int)) as nat
    }
}

/// A number in decimal is made of digits, has no leading zeros and reads back as the
/// number.
pub proof fn decimals_read_back(n: nat)
    ensures
        number(decimal(n)) == n,
        decimal(n).len() > 0,
        decimal(n).len() > 1 ==> decimal(n).first() != '0',
        forall|i: int| 0 <= i < decimal(n).len() ==> '0' <= #[trigger] decimal(n)[i] <= '9',
    decreases n,
{
    if n < 10 {
        assert(decimal(n).drop_last() =~= Seq::empty());
        assert(number(Seq::empty()) == 0);
    } else {
        decimals_read_back(n / 10);
        assert(decimal(n).drop_last() =~= decimal(n / 10));
        assert(number(decimal(n)) == number(decimal(n / 10)) * 10 + n % 10);
        assert(decimal(n).first() == decimal(n / 10).first());
        if decimal(n / 10).len() == 1 {
            let only = decimal(n / 10);
            reveal_with_fuel(number, 2);
            assert(number(only) == ((only.last() as int) - ('0' as int)) as nat);
        }
    }
}

/// A number with a sign reads back as well: the digits are those of its magnitude,
/// and a minus sign stands in front of them exactly if it is negative.
pub proof fn signed_decimals_read_back(n: int)
    ensures
        n >= 0 ==> number(signed_decimal(n)) == n && signed_decimal(n).first() != '-',
        n < 0 ==> signed_decimal(n).first() == '-' && number(signed_decimal(n).drop_first()) == -n
            && signed_decimal(n).drop_first() == signed_decimal(-n),
{
    if n >= 0 {
        decimals_read_back(n as nat);
        assert('0' <= decimal(n as nat)[0] <= '9');
    } else {
        decimals_read_back((-n) as nat);
        assert(signed_decimal(n).drop_first() =~= decimal((-n) as nat));
    }
}

/// Joining keeps the words in their order with one space between neighbours: a list
/// joins to its two halves with a space between them, a single word to itself and no
/// words to nothing.
pub proof fn words_join_in_order(first: Seq<Seq<char>>, rest: Seq<Seq<char>>, word: Seq<char>)
    ensures
        joined(Seq::empty()) == Seq::<char>::empty(),
        joined(seq![word]) == word,
        first.len() > 0 && rest.len() > 0 ==> joined(first + rest) == joined(first) + seq![' ']
            + joined(rest),
    decreases rest.len(),
{
    if first.len() > 0 && rest.len() > 0 {
        let all = first + rest;
        assert(all.drop_last() =~= first + rest.drop_last());
        if rest.len() == 1 {
            assert(first + rest.drop_last() =~= first);
        } else {
            words_join_in_order(first, rest.drop_last(), word);
            assert(joined(all) =~= joined(first) + seq![' '] + joined(rest));
        }
    }
}

/// What trimming leaves is the text without the whitespace around it, and it is the
/// only text of which this can be said.
pub proof fn trimming_leaves_the_inner_text(text: Seq<char>, body: Seq<char>)
    ensures
        is_cut_from(trimmed(text), text),
        is_cut_from(body, text) ==> body == trimmed(text),
{
    trimming_cuts_only_outer_whitespace(text);
    if is_cut_from(body, text) {
        let (front, back) = choose|front: Seq<char>, back: Seq<char>|
            {
                &&& text == #[trigger] (front + body + back)
                &&& forall|i: int| 0 <= i < front.len() ==> is_white(#[trigger] front[i])
                &&& forall|i: int| 0 <= i < back.len() ==> is_white(#[trigger] back[i])
            };
        let inner = trimmed(text);
        let (ahead, behind) = choose|ahead: Seq<char>, behind: Seq<char>|
            {
                &&& text == #[trigger] (ahead + inner + behind)
                &&& forall|i: int| 0 <= i < ahead.len() ==> is_white(#[trigger] ahead[i])
                &&& forall|i: int| 0 <= i < behind.len() ==> is_white(#[trigger] behind[i])
            };
        cuts_agree(text, front, body, back, ahead, inner, behind);
    }
}

proof fn cuts_agree(
    text: Seq<char>,
    front: Seq<char>,
    body: Seq<char>,
    back: Seq<char>,
    ahead: Seq<char>,
    inner: Seq<char>,
    behind: Seq<char>,
)
    requires
        text == front + body + back,
        text == ahead + inner + behind,
        forall|i: int| 0 <= i < front.len() ==> is_white(#[trigger] front[i]),
        forall|i: int| 0 <= i < back.len() ==> is_white(#[trigger] back[i]),
        forall|i: int| 0 <= i < ahead.len() ==> is_white(#[trigger] ahead[i]),
        forall|i: int| 0 <= i < behind.len() ==> is_white(#[trigger] behind[i]),
        body.len() > 0 ==> !is_white(body.first()) && !is_white(body.last()),
        inner.len() > 0 ==> !is_white(inner.first()) && !is_white(inner.last()),
    ensures
        body == inner,
{
    assert forall|i: int|
        0 <= i < text.len() && (i < front.len() || i >= front.len() + body.len()) implies is_white(
        #[trigger] text[i],
    ) by {
        if i < front.len() {
            assert(text[i] == front[i]);
        } else {
            assert(text[i] == back[i - front.len() - body.len()]);
        }
    }
    assert forall|i: int|
        0 <= i < text.len() && (i < ahead.len() || i >= ahead.len() + inner.len()) implies is_white(
        #[trigger] text[i],
    ) by {
        if i < ahead.len() {
            assert(text[i] == ahead[i]);
        } else {
            assert(text[i] == behind[i - ahead.len() - inner.len()]);
        }
    }
    if body.len() > 0 {
        assert(text[front.len() as int] == body.first());
        assert(text[front.len() + body.len() - 1] == body.last());
    }
    if inner.len() > 0 {
        assert(text[ahead.len() as int] == inner.first());
        assert(text[ahead.len() + inner.len() - 1] == inner.last());
    }
    if body.len() > 0 {
        assert(front.len() == ahead.len());
        assert(body.len() == inner.len());
        assert(body =~= text.subrange(front.len() as int, (front.len() + body.len()) as int));
        assert(inner =~= text.subrange(front.len() as int, (front.len() + body.len()) as int));
    } else {
        assert(body =~= inner);
    }
}

/// Among the ASCII characters, whitespace is the tab, the line breaks, the vertical
/// tab, the form feed and the space, and nothing else.
pub proof fn ascii_white_space(c: char)
    requires
        (c as int) < 128,
    ensures
        is_white(c) <==> c == '\t' || c == '\n' || c == '\r' || c == ' ' || c == '\u{b}' || c
            == '\u{c}',
{
}

} // verus!

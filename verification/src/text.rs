//! Text: what the library says of strings, and the questions about them
//! that the standard library answers.
//!
//! The functions marked as trusted each call one method of `str`, with a
//! contract that states what the documentation of that method says. The
//! others are verified against the same vocabulary.

use vstd::prelude::*;
use vstd::string::StrSliceExecFns;
use vstd::string::StringExecFns;

verus! {

/// `needle` occurs in `hay` at position `at`.
pub open spec fn occurs_at(hay: Seq<char>, needle: Seq<char>, at: int) -> bool {
    &&& 0 <= at
    &&& at + needle.len() <= hay.len()
    &&& hay.subrange(at, at + needle.len()) == needle
}

/// `needle` occurs somewhere in `hay`.
pub open spec fn has_substring(hay: Seq<char>, needle: Seq<char>) -> bool {
    exists|at: int| occurs_at(hay, needle, at)
}

/// The characters of each string of a list.
pub open spec fn strings(list: Seq<String>) -> Seq<Seq<char>> {
    Seq::new(list.len(), |i: int| list[i]@)
}

/// Appending a string to a list appends its characters to the list's strings.
pub proof fn lemma_strings_push(list: Seq<String>, last: String)
    ensures
        strings(list.push(last)) == strings(list).push(last@),
{
    assert(strings(list.push(last)) =~= strings(list).push(last@));
}

/// `text` without its first character; nothing where `text` is empty.
pub open spec fn without_first(text: Seq<char>) -> Seq<char> {
    if text.len() == 0 {
        text
    } else {
        text.subrange(1, text.len() as int)
    }
}

/// A copy of `text` without its first character.
pub fn strip_first(text: &str) -> (rest: String)
    ensures
        rest@ == without_first(text@),
{
    let n = text.unicode_len();
    if n == 0 {
        String::new()
    } else {
        text.substring_char(1, n).to_owned()
    }
}

/// `text` without the characters `c` that it begins with.
pub open spec fn without_leading(text: Seq<char>, c: char) -> Seq<char>
    decreases text.len(),
{
    if text.len() > 0 && text[0] == c {
        without_leading(text.drop_first(), c)
    } else {
        text
    }
}

/// The characters that Unicode gives the property `White_Space`.
pub open spec fn is_white_space(c: char) -> bool {
    let code = c as u32;
    ||| 0x9 <= code <= 0xd
    ||| code == 0x20
    ||| code == 0x85
    ||| code == 0xa0
    ||| code == 0x1680
    ||| 0x2000 <= code <= 0x200a
    ||| code == 0x2028
    ||| code == 0x2029
    ||| code == 0x202f
    ||| code == 0x205f
    ||| code == 0x3000
}

/// `text` without the white space that it begins with.
pub open spec fn without_leading_space(text: Seq<char>) -> Seq<char>
    decreases text.len(),
{
    if text.len() > 0 && is_white_space(text[0]) {
        without_leading_space(text.drop_first())
    } else {
        text
    }
}

/// `text` without the white space that it ends with.
pub open spec fn without_trailing_space(text: Seq<char>) -> Seq<char>
    decreases text.len(),
{
    if text.len() > 0 && is_white_space(text.last()) {
        without_trailing_space(text.drop_last())
    } else {
        text
    }
}

/// `text` without the characters `c` that it ends with.
pub open spec fn without_trailing(text: Seq<char>, c: char) -> Seq<char>
    decreases text.len(),
{
    if text.len() > 0 && text.last() == c {
        without_trailing(text.drop_last(), c)
    } else {
        text
    }
}

/// `text` without the white space at either end.
pub open spec fn trimmed(text: Seq<char>) -> Seq<char> {
    without_trailing_space(without_leading_space(text))
}

/// The character that stands for a digit.
pub open spec fn digit_char(d: nat) -> char {
    if d == 0 {
        '0'
    } else if d == 1 {
        '1'
    } else if d == 2 {
        '2'
    } else if d == 3 {
        '3'
    } else if d == 4 {
        '4'
    } else if d == 5 {
        '5'
    } else if d == 6 {
        '6'
    } else if d == 7 {
        '7'
    } else if d == 8 {
        '8'
    } else {
        '9'
    }
}

/// The decimal numeral of `n`, without leading zeros.
pub open spec fn numeral(n: nat) -> Seq<char>
    decreases n,
{
    if n < 10 {
        seq![digit_char(n)]
    } else {
        numeral(n / 10).push(digit_char(n % 10))
    }
}

/// The decimal numeral of an integer, with a minus sign where it is negative.
pub open spec fn signed_numeral(n: int) -> Seq<char> {
    if n < 0 {
        seq!['-'] + numeral((-n) as nat)
    } else {
        numeral(n as nat)
    }
}

/// The text of one digit.
fn digit_text(d: u8) -> (text: &'static str)
    requires
        d < 10,
    ensures
        text@ == seq![digit_char(d as nat)],
{
    proof {
        reveal_strlit("0");
        reveal_strlit("1");
        reveal_strlit("2");
        reveal_strlit("3");
        reveal_strlit("4");
        reveal_strlit("5");
        reveal_strlit("6");
        reveal_strlit("7");
        reveal_strlit("8");
        reveal_strlit("9");
    }
    let text = if d == 0 {
        "0"
    } else if d == 1 {
        "1"
    } else if d == 2 {
        "2"
    } else if d == 3 {
        "3"
    } else if d == 4 {
        "4"
    } else if d == 5 {
        "5"
    } else if d == 6 {
        "6"
    } else if d == 7 {
        "7"
    } else if d == 8 {
        "8"
    } else {
        "9"
    };
    assert(text@ =~= seq![digit_char(d as nat)]);
    text
}

/// Appends the decimal numeral of `n` to `out`.
pub fn push_decimal(n: u64, out: &mut String)
    ensures
        final(out)@ == old(out)@ + numeral(n as nat),
    decreases n,
{
    if n >= 10 {
        push_decimal(n / 10, out);
    }
    let ghost before = out@;
    let digit: u8 = (n % 10) as u8;
    out.append(digit_text(digit));
    proof {
        if n < 10 {
            assert(before + seq![digit_char(n as nat)] =~= old(out)@ + numeral(n as nat));
        } else {
            let head = numeral((n / 10) as nat);
            assert((old(out)@ + head) + seq![digit_char((n % 10) as nat)] =~= old(out)@ + head.push(
                digit_char((n % 10) as nat),
            ));
        }
    }
}

/// The decimal numeral of `n`.
pub fn decimal(n: u64) -> (text: String)
    ensures
        text@ == numeral(n as nat),
{
    let mut text = String::new();
    push_decimal(n, &mut text);
    assert(Seq::<char>::empty() + numeral(n as nat) =~= numeral(n as nat));
    text
}

/// The decimal numeral of `n`, with a minus sign where it is negative.
pub fn signed_decimal(n: i64) -> (text: String)
    ensures
        text@ == signed_numeral(n as int),
{
    if n < 0 {
        proof {
            reveal_strlit("-");
        }
        let mut text = String::from_str("-");
        let magnitude: u64 = (-(n as i128)) as u64;
        push_decimal(magnitude, &mut text);
        assert("-"@ =~= seq!['-']);
        text
    } else {
        decimal(n as u64)
    }
}

/// Whether `text` is among `list`.
pub fn contains_text(list: &Vec<String>, text: &str) -> (found: bool)
    ensures
        found == strings(list@).contains(text@),
{
    let mut i: usize = 0;
    while i < list.len()
        invariant
            i <= list@.len(),
            forall|k: int| 0 <= k < i ==> strings(list@)[k] != text@,
        decreases list@.len() - i,
    {
        if same(list[i].as_str(), text) {
            assert(strings(list@)[i as int] == text@);
            return true;
        }
        i = i + 1;
    }
    false
}

/// `first` followed by `second`.
pub fn join(first: &str, second: &str) -> (text: String)
    ensures
        text@ == first@ + second@,
{
    let mut text = String::from_str(first);
    text.append(second);
    text
}

/// `str::eq`: two strings are equal when they hold the same characters.
#[verifier::external_body]
pub(crate) fn same(a: &str, b: &str) -> (eq: bool)
    ensures
        eq == (a@ == b@),
{
    a == b
}

/// `str::contains` with a string pattern: whether the pattern matches a
/// sub-slice of the text.
#[verifier::external_body]
pub(crate) fn contains(hay: &str, needle: &str) -> (found: bool)
    ensures
        found == has_substring(hay@, needle@),
{
    hay.contains(needle)
}

/// `str::starts_with` with a string pattern: whether the pattern matches a
/// prefix of the text.
#[verifier::external_body]
pub(crate) fn starts_with(text: &str, prefix: &str) -> (yes: bool)
    ensures
        yes == prefix@.is_prefix_of(text@),
{
    text.starts_with(prefix)
}

/// `str::trim`: the text with leading and trailing white space removed,
/// white space being the characters with the Unicode property `White_Space`.
#[verifier::external_body]
pub(crate) fn trim(text: &str) -> (rest: &str)
    ensures
        rest@ == trimmed(text@),
{
    text.trim()
}

/// `str::trim_start_matches` with a character pattern: the text with every
/// leading occurrence of the character removed.
#[verifier::external_body]
pub(crate) fn trim_start_matches(text: &str, c: char) -> (rest: &str)
    ensures
        rest@ == without_leading(text@, c),
{
    text.trim_start_matches(c)
}

/// The parts into which the separator `c` divides `text`: one more than
/// there are separators, empty where two separators meet or one stands at
/// an end.
pub open spec fn pieces(text: Seq<char>, c: char) -> Seq<Seq<char>>
    decreases text.len(),
{
    if text.len() == 0 {
        seq![Seq::empty()]
    } else {
        let rest = pieces(text.drop_first(), c);
        if text[0] == c {
            seq![Seq::empty()] + rest
        } else {
            seq![seq![text[0]] + rest[0]] + rest.drop_first()
        }
    }
}

/// A text always has a first part.
pub proof fn lemma_pieces_nonempty(text: Seq<char>, c: char)
    ensures
        pieces(text, c).len() >= 1,
    decreases text.len(),
{
    if text.len() > 0 {
        lemma_pieces_nonempty(text.drop_first(), c);
    }
}

/// `str::split` with a character pattern, each part copied: the substrings
/// that the character separates, in order.
#[verifier::external_body]
pub(crate) fn split(text: &str, c: char) -> (parts: Vec<String>)
    ensures
        strings(parts@) == pieces(text@, c),
{
    text.split(c).map(String::from).collect()
}

/// `text` without the copies of `prefix` that it begins with.
pub open spec fn without_leading_text(text: Seq<char>, prefix: Seq<char>) -> Seq<char>
    decreases text.len(),
{
    if prefix.len() > 0 && prefix.is_prefix_of(text) {
        without_leading_text(text.skip(prefix.len() as int), prefix)
    } else {
        text
    }
}

/// `str::trim_start_matches` with a string pattern: the text with every
/// leading copy of the pattern removed.
#[verifier::external_body]
pub(crate) fn trim_start_matches_text<'a>(text: &'a str, prefix: &str) -> (rest: &'a str)
    ensures
        rest@ == without_leading_text(text@, prefix@),
{
    text.trim_start_matches(prefix)
}

/// `str::strip_suffix` with a string pattern: the text without the suffix,
/// where it ends with it.
#[verifier::external_body]
pub(crate) fn strip_suffix<'a>(text: &'a str, suffix: &str) -> (rest: Option<&'a str>)
    ensures
        match rest {
            Some(r) => text@ == r@ + suffix@,
            None => !suffix@.is_suffix_of(text@),
        },
{
    text.strip_suffix(suffix)
}

/// Where `c` first occurs in `text`, or the length of `text` where it does
/// not occur.
pub open spec fn position(text: Seq<char>, c: char) -> int
    decreases text.len(),
{
    if text.len() == 0 {
        0
    } else if text[0] == c {
        0
    } else {
        1 + position(text.drop_first(), c)
    }
}

/// What stands before the first occurrence of `c` in `text` and what
/// stands after it; nothing where `c` does not occur.
pub open spec fn halves_of(text: Seq<char>, c: char) -> Option<(Seq<char>, Seq<char>)> {
    let at = position(text, c);
    if at < text.len() {
        Some((text.take(at), text.skip(at + 1)))
    } else {
        None
    }
}

/// `str::split_once` with a character, both halves copied: what stands
/// before the first occurrence of the character and what stands after it,
/// where it occurs.
#[verifier::external_body]
pub(crate) fn split_once(text: &str, c: char) -> (halves: Option<(String, String)>)
    ensures
        match halves {
            Some((before, after)) => halves_of(text@, c) == Some((before@, after@)),
            None => halves_of(text@, c) is None,
        },
{
    text.split_once(c).map(|(a, b)| (a.to_string(), b.to_string()))
}

/// `line` without the carriage return that it ends with, where it ends
/// with one.
pub open spec fn without_return(line: Seq<char>) -> Seq<char> {
    if line.len() > 0 && line.last() == '\r' {
        line.drop_last()
    } else {
        line
    }
}

/// The lines of a text. Line feeds divide the text into parts. Every part
/// that a line feed ends is a line, without the carriage return that may
/// stand before that line feed; what follows the last line feed is a line
/// as it stands, unless it is empty.
pub open spec fn lines_of(text: Seq<char>) -> Seq<Seq<char>> {
    let parts = pieces(text, '\n');
    let ended = Seq::new((parts.len() - 1) as nat, |i: int| without_return(parts[i]));
    if parts.last().len() == 0 {
        ended
    } else {
        ended.push(parts.last())
    }
}

/// `str::lines`, each line copied: the lines of the text, which end at a
/// line feed or at a carriage return with a line feed after it, without
/// those endings. A carriage return that no line feed follows belongs to
/// its line, and a last line need not be ended.
#[verifier::external_body]
pub(crate) fn lines(text: &str) -> (all: Vec<String>)
    ensures
        strings(all@) == lines_of(text@),
{
    text.lines().map(String::from).collect()
}

/// `str::trim_end_matches` with a character pattern: the text with every
/// trailing occurrence of the character removed.
#[verifier::external_body]
pub(crate) fn trim_end_matches(text: &str, c: char) -> (rest: &str)
    ensures
        rest@ == without_trailing(text@, c),
{
    text.trim_end_matches(c)
}

/// What `str::to_lowercase` makes of a text.
pub uninterp spec fn lowercase(text: Seq<char>) -> Seq<char>;

/// `str::to_lowercase`: the lowercase equivalent of the text, by the Unicode
/// property `Lowercase`. The contract names the result.
#[verifier::external_body]
pub(crate) fn to_lowercase(text: &str) -> (lower: String)
    ensures
        lower@ == lowercase(text@),
{
    text.to_lowercase()
}

/// What `str::parse` makes of a text that is to be an `i8`: the number, or
/// nothing where the text is no numeral of one.
pub uninterp spec fn parsed_i8(text: Seq<char>) -> Option<i8>;

/// `str::parse::<i8>`, an error as `None`. The contract names the result.
#[verifier::external_body]
pub(crate) fn parse_i8(text: &str) -> (number: Option<i8>)
    ensures
        number == parsed_i8(text@),
{
    text.parse::<i8>().ok()
}

} // verus!

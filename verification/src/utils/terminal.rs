//! Terminal text decoration.

use vstd::prelude::*;
use vstd::string::StringExecFns;
use vstd::string::StringSliceAdditionalSpecFns;
use crate::text::{lines, lines_of, same, starts_with, strings, to_lowercase, lowercase, trim, trimmed};

verus! {

/// Colours that text on the terminal can take.
#[derive(Clone, Copy)]
pub enum TerminalColor {
    Reset,
    Red,
    Green,
    Blue,
}

/// The ANSI escape sequence that switches the terminal to `color`.
pub open spec fn color_code(color: TerminalColor) -> Seq<char> {
    match color {
        TerminalColor::Red => "\x1b[31m"@,
        TerminalColor::Green => "\x1b[32m"@,
        TerminalColor::Blue => "\x1b[34m"@,
        TerminalColor::Reset => "\x1b[0m"@,
    }
}

/// `txt` wrapped in the escape sequence of `color` and followed by a reset.
pub fn set_text_color(txt: &str, color: TerminalColor) -> (out: String)
    ensures
        out@ == color_code(color) + txt@ + "\x1b[0m"@,
        out@ == colored(txt@, color),
{
    let code = match color {
        TerminalColor::Red => "\x1b[31m",
        TerminalColor::Green => "\x1b[32m",
        TerminalColor::Blue => "\x1b[34m",
        TerminalColor::Reset => "\x1b[0m",
    };
    let mut out = String::from_str(code);
    out.append(txt);
    out.append("\x1b[0m");
    out
}

/// `txt` in a colour.
pub open spec fn colored(txt: Seq<char>, color: TerminalColor) -> Seq<char> {
    color_code(color) + txt + "\x1b[0m"@
}

/// Inline code as it is shown: green, between backticks.
pub open spec fn code_span(code: Seq<char>) -> Seq<char> {
    "`"@ + colored(code, TerminalColor::Green) + "`"@
}

/// What is put in place of a match: a code span, or the text in blue.
pub open spec fn decorated(as_code: bool, text: Seq<char>) -> Seq<char> {
    if as_code {
        code_span(text)
    } else {
        colored(text, TerminalColor::Blue)
    }
}

/// What is put in place of a match.
pub fn decorate(as_code: bool, text: &str) -> (out: String)
    ensures
        out@ == decorated(as_code, text@),
{
    if as_code {
        let mut out = String::from_str("`");
        out.append(set_text_color(text, TerminalColor::Green).as_str());
        out.append("`");
        out
    } else {
        set_text_color(text, TerminalColor::Blue)
    }
}

/// One match of a pattern in a text.
pub struct Found {
    /// The text that the pattern matched.
    pub whole: String,
    /// The text that one group of the pattern matched, where the group took
    /// part in the match.
    pub group: Option<String>,
}

/// The content of a [`Found`].
pub struct FoundView {
    pub whole: Seq<char>,
    pub group: Option<Seq<char>>,
}

impl View for Found {
    type V = FoundView;

    open spec fn view(&self) -> FoundView {
        FoundView {
            whole: self.whole@,
            group: match self.group {
                Some(g) => Some(g@),
                None => None,
            },
        }
    }
}

/// The content of a list of matches.
pub open spec fn found_views(found: Seq<Found>) -> Seq<FoundView> {
    Seq::new(found.len(), |i: int| found[i]@)
}

/// What `Regex::split` yields for `text` and the regular expression
/// `pattern`: the parts of the text that lie between the matches, before the
/// first and after the last; nothing where `Regex::new` refuses the pattern.
pub uninterp spec fn parts_between(pattern: Seq<char>, text: Seq<char>) -> Option<Seq<Seq<char>>>;

/// What `Regex::captures_iter` yields for `text` and the regular expression
/// `pattern`: the matches in order, each with what its group `group`
/// matched; nothing where `Regex::new` refuses the pattern.
pub uninterp spec fn matches_found(pattern: Seq<char>, text: Seq<char>, group: usize) -> Option<
    Seq<FoundView>,
>;

/// `Regex::new` and `Regex::split`, each part copied: the parts of the text
/// that no match covers, in order. The contract names the result.
#[verifier::external_body]
fn split_at_matches(pattern: &str, text: &str) -> (parts: Option<Vec<String>>)
    ensures
        match parts {
            Some(p) => parts_between(pattern@, text@) == Some(strings(p@)),
            None => parts_between(pattern@, text@) is None,
        },
{
    let regex = regex::Regex::new(pattern).ok()?;
    Some(regex.split(text).map(String::from).collect())
}

/// `Regex::new` and `Regex::captures_iter`, each match copied with
/// `Captures::get` of the group: the matches of the pattern in order. The
/// contract names the result, and says of it what the source shows of the
/// two iterators: both walk the same matches, and `split` yields the part
/// before each match and the part after the last, one part more than there
/// are matches.
#[verifier::external_body]
fn find_matches(pattern: &str, text: &str, group: usize) -> (found: Option<Vec<Found>>)
    ensures
        match found {
            Some(f) => matches_found(pattern@, text@, group) == Some(found_views(f@)) && (
            parts_between(pattern@, text@) matches Some(parts) && parts.len() == f@.len() + 1),
            None => matches_found(pattern@, text@, group) is None && parts_between(
                pattern@,
                text@,
            ) is None,
        },
{
    let regex = regex::Regex::new(pattern).ok()?;
    let copy = |found: regex::Captures| {
        Found { whole: found[0].to_string(), group: found.get(group).map(|m| m.as_str().to_string()) }
    };
    Some(regex.captures_iter(text).map(copy).collect())
}

/// What stands in place of a match: the decoration of its group, or the
/// match as it stands where the group took no part in it.
pub open spec fn shown_match(found: FoundView, as_code: bool) -> Seq<char> {
    match found.group {
        Some(g) => decorated(as_code, g),
        None => found.whole,
    }
}

/// A text put together again from the parts between its matches, with every
/// match shown in its place: a part, a match, a part, and so on. Parts
/// beyond the one that follows the last match are left out, and so are
/// matches beyond the last part.
pub open spec fn stitched(parts: Seq<Seq<char>>, found: Seq<FoundView>, as_code: bool) -> Seq<char>
    decreases parts.len(),
{
    if parts.len() == 0 {
        Seq::empty()
    } else if found.len() == 0 {
        parts[0]
    } else {
        parts[0] + shown_match(found[0], as_code) + stitched(
            parts.drop_first(),
            found.drop_first(),
            as_code,
        )
    }
}

/// Puts a text together again from the parts between its matches, with
/// every match shown in its place.
pub fn stitch(parts: &Vec<String>, found: &Vec<Found>, as_code: bool) -> (out: String)
    ensures
        out@ == stitched(strings(parts@), found_views(found@), as_code),
{
    let ghost all_parts = strings(parts@);
    let ghost all_found = found_views(found@);
    let mut out = String::new();
    let mut i: usize = 0;
    assert(all_parts.skip(0) =~= all_parts);
    assert(all_found.skip(0) =~= all_found);
    assert(out@ + stitched(all_parts, all_found, as_code) =~= stitched(
        all_parts,
        all_found,
        as_code,
    ));
    while i < parts.len()
        invariant
            i <= parts@.len(),
            all_parts == strings(parts@),
            all_found == found_views(found@),
            i <= found@.len(),
            out@ + stitched(all_parts.skip(i as int), all_found.skip(i as int), as_code)
                == stitched(all_parts, all_found, as_code),
        decreases parts@.len() - i,
    {
        let ghost before = out@;
        let ghost rest_parts = all_parts.skip(i as int);
        let ghost rest_found = all_found.skip(i as int);
        proof {
            assert(rest_parts[0] == parts@[i as int]@);
            assert(rest_parts.drop_first() =~= all_parts.skip(i as int + 1));
        }
        out.append(parts[i].as_str());
        if i < found.len() {
            proof {
                assert(rest_found[0] == found@[i as int]@);
                assert(rest_found.drop_first() =~= all_found.skip(i as int + 1));
            }
            match &found[i].group {
                Some(g) => {
                    let shown = decorate(as_code, g.as_str());
                    out.append(shown.as_str());
                },
                None => {
                    out.append(found[i].whole.as_str());
                },
            }
            proof {
                let shown = shown_match(rest_found[0], as_code);
                let tail = stitched(rest_parts.drop_first(), rest_found.drop_first(), as_code);
                assert(out@ == before + rest_parts[0] + shown);
                assert((before + rest_parts[0] + shown) + tail =~= before + (rest_parts[0] + shown
                    + tail));
            }
            i = i + 1;
        } else {
            assert(rest_found.len() == 0);
            return out;
        }
    }
    assert(all_parts.skip(i as int).len() == 0);
    assert(out@ + Seq::<char>::empty() =~= out@);
    out
}

/// `text` with every match of `pattern` shown in its place; `text` itself
/// where the pattern is no regular expression.
pub open spec fn matches_shown(pattern: Seq<char>, text: Seq<char>, group: usize, as_code: bool) -> Seq<
    char,
> {
    match (parts_between(pattern, text), matches_found(pattern, text, group)) {
        (Some(parts), Some(found)) => stitched(parts, found, as_code),
        _ => text,
    }
}

/// `text` with every match of `pattern` shown in its place.
pub fn show_matches(pattern: &str, text: &str, group: usize, as_code: bool) -> (out: String)
    ensures
        out@ == matches_shown(pattern@, text@, group, as_code),
{
    match find_matches(pattern, text, group) {
        Some(found) => match split_at_matches(pattern, text) {
            Some(parts) => stitch(&parts, &found, as_code),
            None => String::from_str(text),
        },
        None => String::from_str(text),
    }
}

/// The pattern of inline code in an explanation.
pub open spec fn code_pattern() -> Seq<char> {
    "<code>(.*?)</code>"@
}

/// The pattern of a hunk marker in a diff.
pub open spec fn hunk_pattern() -> Seq<char> {
    "(@@.*?@@)"@
}

/// An explanation with its inline code shown as code.
pub fn format_code(code: &str) -> (out: String)
    ensures
        out@ == matches_shown(code_pattern(), code@, 1, true),
{
    show_matches("<code>(.*?)</code>", code, 1, true)
}

/// One line of a diff as it is shown: headers and changes in colour.
pub open spec fn diff_line(line: Seq<char>) -> Seq<char> {
    if "diff --git"@.is_prefix_of(line) {
        line
    } else if "index"@.is_prefix_of(line) {
        colored(line, TerminalColor::Blue)
    } else if "---"@.is_prefix_of(line) {
        colored(line, TerminalColor::Red)
    } else if "+++"@.is_prefix_of(line) {
        colored(line, TerminalColor::Green)
    } else if "@@"@.is_prefix_of(line) {
        matches_shown(hunk_pattern(), line, 0, false)
    } else if "-"@.is_prefix_of(line) {
        colored(line, TerminalColor::Red)
    } else if "+"@.is_prefix_of(line) {
        colored(line, TerminalColor::Green)
    } else {
        line
    }
}

/// The lines of a diff as they are shown, each followed by a line feed.
pub open spec fn diff_text(lines: Seq<Seq<char>>) -> Seq<char>
    decreases lines.len(),
{
    if lines.len() == 0 {
        Seq::empty()
    } else {
        diff_text(lines.drop_last()) + diff_line(lines.last()) + "\n"@
    }
}

/// One line of a diff as it is shown.
pub fn format_diff_line(line: &str) -> (out: String)
    ensures
        out@ == diff_line(line@),
{
    if starts_with(line, "diff --git") {
        String::from_str(line)
    } else if starts_with(line, "index") {
        set_text_color(line, TerminalColor::Blue)
    } else if starts_with(line, "---") {
        set_text_color(line, TerminalColor::Red)
    } else if starts_with(line, "+++") {
        set_text_color(line, TerminalColor::Green)
    } else if starts_with(line, "@@") {
        show_matches("(@@.*?@@)", line, 0, false)
    } else if starts_with(line, "-") {
        set_text_color(line, TerminalColor::Red)
    } else if starts_with(line, "+") {
        set_text_color(line, TerminalColor::Green)
    } else {
        String::from_str(line)
    }
}

/// A diff as it is shown.
pub fn format_diff(diff: &str) -> (out: String)
    ensures
        out@ == diff_text(lines_of(diff@)),
{
    let all = lines(diff);
    let ghost shown = strings(all@);
    let mut out = String::new();
    let mut i: usize = 0;
    assert(shown.take(0) =~= Seq::<Seq<char>>::empty());
    while i < all.len()
        invariant
            i <= all@.len(),
            shown == strings(all@),
            out@ == diff_text(shown.take(i as int)),
        decreases all@.len() - i,
    {
        proof {
            assert(shown.take(i as int + 1).drop_last() =~= shown.take(i as int));
            assert(shown.take(i as int + 1).last() == all@[i as int]@);
        }
        let line = format_diff_line(all[i].as_str());
        out.append(line.as_str());
        out.append("\n");
        i = i + 1;
    }
    assert(shown.take(i as int) =~= shown);
    out
}

/// What an answer to a question means: yes, no, or nothing, so that the
/// question is put again. An answer that is neither yes nor no means yes
/// where yes is the default.
pub open spec fn answer_meaning(answer: Seq<char>, should_default: bool) -> Option<bool> {
    let given = lowercase(trimmed(answer));
    if given == "y"@ || given == "yes"@ {
        Some(true)
    } else if given == "n"@ || given == "no"@ {
        Some(false)
    } else if should_default {
        Some(true)
    } else {
        None
    }
}

/// What an answer to a question means.
pub fn ask_yes_no(answer: &str, should_default: bool) -> (meaning: Option<bool>)
    ensures
        meaning == answer_meaning(answer@, should_default),
{
    let given = to_lowercase(trim(answer));
    if same(given.as_str(), "y") || same(given.as_str(), "yes") {
        Some(true)
    } else if same(given.as_str(), "n") || same(given.as_str(), "no") {
        Some(false)
    } else if should_default {
        Some(true)
    } else {
        None
    }
}

/// The length of a text in bytes.
pub open spec fn byte_len(text: Seq<char>) -> usize {
    vstd::utf8::encode_utf8(text).len() as usize
}

/// The width of a column: the length in bytes of the longest cell that the
/// rows hold in it.
pub open spec fn column_width(rows: Seq<Vec<String>>, column: int) -> usize
    decreases rows.len(),
{
    if rows.len() == 0 {
        0
    } else {
        let above = column_width(rows.drop_last(), column);
        let row = rows.last()@;
        if 0 <= column < row.len() && byte_len(row[column]@) > above {
            byte_len(row[column]@)
        } else {
            above
        }
    }
}

/// The widths of the columns of a table, whose first row says how many
/// columns there are.
pub fn column_widths(table: &Vec<Vec<String>>) -> (widths: Vec<usize>)
    requires
        table@.len() > 0,
        forall|i: int| 0 <= i < table@.len() ==> (#[trigger] table@[i])@.len() <= table@[0]@.len(),
    ensures
        widths@.len() == table@[0]@.len(),
        forall|j: int| 0 <= j < widths@.len() ==> #[trigger] widths@[j] == column_width(table@, j),
{
    let columns = table[0].len();
    let mut widths: Vec<usize> = Vec::new();
    let mut j: usize = 0;
    while j < columns
        invariant
            j <= columns,
            columns == table@[0]@.len(),
            table@.len() > 0,
            widths@.len() == j,
            forall|k: int| 0 <= k < j ==> #[trigger] widths@[k] == column_width(table@, k),
        decreases columns - j,
    {
        let mut width: usize = 0;
        let mut i: usize = 0;
        assert(table@.take(0) =~= Seq::<Vec<String>>::empty());
        while i < table.len()
            invariant
                i <= table@.len(),
                width == column_width(table@.take(i as int), j as int),
            decreases table@.len() - i,
        {
            proof {
                assert(table@.take(i as int + 1).drop_last() =~= table@.take(i as int));
                assert(table@.take(i as int + 1).last() == table@[i as int]);
            }
            if j < table[i].len() {
                let cell = table[i][j].as_str();
                let len = cell.len();
                assert(len == byte_len(table@[i as int]@[j as int]@)) by {
                    assert(cell@ == table@[i as int]@[j as int]@);
                    assert(cell.spec_bytes() == vstd::utf8::encode_utf8(cell@));
                }
                if len > width {
                    width = len;
                }
            }
            i = i + 1;
        }
        assert(table@.take(i as int) =~= table@);
        widths.push(width);
        j = j + 1;
    }
    widths
}

} // verus!

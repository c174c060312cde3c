//! Plain text: comparing, counting, numbering and splitting it into lines.
use crate::probe::{are_digits, digit_value, digits_value};
use vstd::prelude::*;

verus! {

/// The texts of a sequence of strings, in order.
pub open spec fn texts(strings: Seq<String>) -> Seq<Seq<char>> {
    strings.map_values(|s: String| s@)
}

/// The text of an optional string.
pub open spec fn optional_text(string: Option<String>) -> Option<Seq<char>> {
    match string {
        Some(s) => Some(s@),
        None => None,
    }
}

/// Whether the two hold the same characters.
pub fn same_text(a: &str, b: &str) -> (same: bool)
    ensures
        same == (a@ == b@),
{
    a.to_owned() == b.to_owned()
}

/// The characters of `text`, one by one.
pub fn characters(text: &str) -> (chars: Vec<char>)
    ensures
        chars@ == text@,
{
    let mut chars: Vec<char> = Vec::new();
    for c in iter: text.chars()
        invariant
            iter.seq() == text@,
            chars@ == text@.take(iter.index()),
    {
        chars.push(c);
        assert(text@.take(iter.index() + 1) =~= text@.take(iter.index()).push(c));
    }
    assert(chars@ =~= text@);
    chars
}

/// A run of `count` spaces.
pub open spec fn blanks(count: nat) -> Seq<char> {
    Seq::new(count, |i: int| ' ')
}

/// A run of `count` spaces.
pub fn spaces(count: usize) -> (text: String)
    ensures
        text@ == blanks(count as nat),
{
    let mut text = String::new();
    let mut i: usize = 0;
    proof {
        reveal_strlit(" ");
    }
    while i < count
        invariant
            i <= count,
            text@ == blanks(i as nat),
            " "@.len() == 1,
            " "@[0] == ' ',
        decreases count - i,
    {
        text.append(" ");
        assert(text@ =~= blanks((i + 1) as nat));
        i += 1;
    }
    text
}

/// The character that stands for a decimal digit.
pub open spec fn digit_char(digit: nat) -> char {
    if digit == 0 {
        '0'
    } else if digit == 1 {
        '1'
    } else if digit == 2 {
        '2'
    } else if digit == 3 {
        '3'
    } else if digit == 4 {
        '4'
    } else if digit == 5 {
        '5'
    } else if digit == 6 {
        '6'
    } else if digit == 7 {
        '7'
    } else if digit == 8 {
        '8'
    } else {
        '9'
    }
}

/// A number in decimal, without leading zeros.
pub open spec fn decimal_text(n: nat) -> Seq<char>
    decreases n,
{
    if n < 10 {
        seq![digit_char(n)]
    } else {
        decimal_text(n / 10).push(digit_char(n % 10))
    }
}

/// A number in decimal, with as many leading zeros as it takes to fill `width` digits.
pub open spec fn padded_text(n: nat, width: nat) -> Seq<char> {
    let digits = decimal_text(n);
    if digits.len() < width {
        Seq::new((width - digits.len()) as nat, |i: int| '0') + digits
    } else {
        digits
    }
}

fn digit(d: u64) -> (text: &'static str)
    requires
        d < 10,
    ensures
        text@ == seq![digit_char(d as nat)],
{
    proof {
        reveal_strlit("0");
        reveal_strlit("1");
        reveal_strlit("2");
        reveal_strlit("3");
        reveal_strlit("4");
        reveal_strlit("5");
        reveal_strlit("6");
        reveal_strlit("7");
        reveal_strlit("8");
        reveal_strlit("9");
    }
    match d {
        0 => "0",
        1 => "1",
        2 => "2",
        3 => "3",
        4 => "4",
        5 => "5",
        6 => "6",
        7 => "7",
        8 => "8",
        _ => "9",
    }
}

/// A number in decimal, without leading zeros.
pub fn decimal(n: u64) -> (text: String)
    ensures
        text@ == decimal_text(n as nat),
    decreases n,
{
    if n < 10 {
        digit(n).to_owned()
    } else {
        let text = decimal(n / 10).concat(digit(n % 10));
        assert(text@ =~= decimal_text(n as nat));
        text
    }
}

/// `line` without one carriage return at its end.
pub open spec fn without_return(line: Seq<char>) -> Seq<char> {
    if line.len() > 0 && line.last() == '\r' {
        line.drop_last()
    } else {
        line
    }
}

/// The lines of a text. A line ends at `\n` or `\r\n`, which are not part of it; the last line may
/// lack its ending, and then keeps a carriage return at its end.
pub open spec fn lines_of(text: Seq<char>) -> Seq<Seq<char>>
    decreases text.len(),
{
    proof {
        text.index_of_first_ensures('\n');
    }
    match text.index_of_first('\n') {
        Some(end) => seq![without_return(text.take(end))] + lines_of(text.skip(end + 1)),
        None => if text.len() == 0 {
            Seq::empty()
        } else {
            seq![text]
        },
    }
}

/// The lines of `text`.
pub fn lines(text: &str) -> (lines: Vec<String>)
    ensures
        texts(lines@) == lines_of(text@),
{
    let chars = characters(text);
    let mut lines: Vec<String> = Vec::new();
    let mut start: usize = 0;
    let mut i: usize = 0;
    assert(text@.skip(0) =~= text@);
    assert(texts(lines@) + lines_of(text@) =~= lines_of(text@));
    while i < chars.len()
        invariant
            chars@ == text@,
            start <= i <= chars.len(),
            forall|j: int| start <= j < i ==> text@[j] != '\n',
            texts(lines@) + lines_of(text@.skip(start as int)) == lines_of(text@),
        decreases chars.len() - i,
    {
        if chars[i] == '\n' {
            let end: usize = if start < i && chars[i - 1] == '\r' {
                i - 1
            } else {
                i
            };
            let line = text.substring_char(start, end).to_owned();
            let ghost rest = text@.skip(start as int);
            let ghost known = texts(lines@);
            proof {
                let k = i - start;
                rest.index_of_first_ensures('\n');
                assert(rest[k] == '\n');
                assert(rest.contains('\n'));
                assert(rest.index_of_first('\n') == Some(k));
                assert(line@ =~= without_return(rest.take(k)));
                assert(rest.skip(k + 1) =~= text@.skip(i + 1));
            }
            lines.push(line);
            assert(texts(lines@) =~= known.push(line@));
            assert(known + lines_of(rest) =~= texts(lines@) + lines_of(text@.skip(i + 1)));
            start = i + 1;
        }
        i += 1;
    }
    let ghost rest = text@.skip(start as int);
    proof {
        rest.index_of_first_ensures('\n');
        assert(!rest.contains('\n'));
    }
    if start < chars.len() {
        let line = text.substring_char(start, chars.len()).to_owned();
        let ghost known = texts(lines@);
        assert(line@ =~= rest);
        lines.push(line);
        assert(texts(lines@) =~= known + lines_of(rest));
    } else {
        assert(lines_of(rest) =~= Seq::empty());
        assert(texts(lines@) =~= lines_of(text@));
    }
    lines
}

/// No line of a text holds a line feed.
pub proof fn law_lines_hold_no_line_feed(text: Seq<char>, i: int)
    requires
        0 <= i < lines_of(text).len(),
    ensures
        !lines_of(text)[i].contains('\n'),
    decreases text.len(),
{
    text.index_of_first_ensures('\n');
    match text.index_of_first('\n') {
        Some(end) => {
            if i > 0 {
                law_lines_hold_no_line_feed(text.skip(end + 1), i - 1);
                assert(lines_of(text)[i] == lines_of(text.skip(end + 1))[i - 1]);
            } else {
                let line = without_return(text.take(end));
                assert(lines_of(text)[0] == line);
                assert forall|j: int| 0 <= j < line.len() implies line[j] != '\n' by {
                    assert(line[j] == text[j]);
                }
            }
        },
        None => {},
    }
}

/// A line up to a line feed stands before the lines of what follows, and loses a carriage return
/// before the line feed but no other.
pub proof fn law_lines_end_at_line_feeds(line: Seq<char>, rest: Seq<char>)
    requires
        !line.contains('\n'),
    ensures
        lines_of(line + seq!['\r', '\n'] + rest) == seq![line] + lines_of(rest),
        line.len() == 0 || line.last() != '\r' ==> lines_of(line + seq!['\n'] + rest) == seq![line]
            + lines_of(rest),
{
    lemma_first_line(line, rest);
    let returned = line.push('\r');
    assert(!returned.contains('\n')) by {
        assert forall|j: int| 0 <= j < returned.len() implies returned[j] != '\n' by {
            if j < line.len() {
                assert(line.contains(line[j]));
            }
        }
    }
    lemma_first_line(returned, rest);
    assert(returned + seq!['\n'] + rest =~= line + seq!['\r', '\n'] + rest);
    assert(returned.drop_last() =~= line);
}

proof fn lemma_first_line(line: Seq<char>, rest: Seq<char>)
    requires
        !line.contains('\n'),
    ensures
        lines_of(line + seq!['\n'] + rest) == seq![without_return(line)] + lines_of(rest),
{
    let text = line + seq!['\n'] + rest;
    text.index_of_first_ensures('\n');
    assert(text[line.len() as int] == '\n');
    let end = text.index_of_first('\n')->0;
    if end < line.len() {
        assert(line[end] == text[end]);
        assert(line.contains(line[end]));
    }
    assert(end == line.len());
    assert(text.take(end) =~= line);
    assert(text.skip(end + 1) =~= rest);
}

/// What stands behind the last line feed is a line as it is, unless there is nothing.
pub proof fn law_last_line_may_lack_its_end(line: Seq<char>)
    requires
        !line.contains('\n'),
    ensures
        line.len() > 0 ==> lines_of(line) == seq![line],
        line.len() == 0 ==> lines_of(line).len() == 0,
{
    line.index_of_first_ensures('\n');
}

/// A number in decimal reads back as that number, in digits alone and without a leading zero.
pub proof fn law_decimals_read_back(n: nat)
    ensures
        are_digits(decimal_text(n), 10),
        digits_value(decimal_text(n), 10) == n,
        n > 0 ==> decimal_text(n)[0] != '0',
        n == 0 ==> decimal_text(n).len() == 1,
    decreases n,
{
    let text = decimal_text(n);
    assert(digit_value(digit_char(n % 10)) == n % 10);
    if n < 10 {
        reveal_with_fuel(digits_value, 2);
        assert(text.drop_last() =~= Seq::empty());
        assert(n % 10 == n);
        assert(text.last() == digit_char(n));
    } else {
        law_decimals_read_back(n / 10);
        assert(text.drop_last() =~= decimal_text(n / 10));
        assert(text[0] == decimal_text(n / 10)[0]);
        assert forall|i: int| 0 <= i < text.len() implies digit_value(#[trigger] text[i]) < 10 by {
            if i < text.len() - 1 {
                assert(text[i] == decimal_text(n / 10)[i]);
            }
        }
    }
}

/// A number keeps its value when zeros fill it up, and takes as much room as was asked for, or more
/// where it needs more.
pub proof fn law_padding_keeps_the_number(n: nat, width: nat)
    ensures
        digits_value(padded_text(n, width), 10) == n,
        padded_text(n, width).len() == (if decimal_text(n).len() < width {
            width
        } else {
            decimal_text(n).len()
        }),
{
    law_decimals_read_back(n);
    let digits = decimal_text(n);
    if digits.len() < width {
        lemma_leading_zeros((width - digits.len()) as nat, digits);
    }
}

proof fn lemma_leading_zeros(count: nat, digits: Seq<char>)
    ensures
        digits_value(Seq::new(count, |i: int| '0') + digits, 10) == digits_value(digits, 10),
    decreases digits.len(), count,
{
    let zeros = Seq::new(count, |i: int| '0');
    let all = zeros + digits;
    if digits.len() > 0 {
        lemma_leading_zeros(count, digits.drop_last());
        assert(all.drop_last() =~= zeros + digits.drop_last());
        assert(all.last() == digits.last());
    } else if count > 0 {
        let fewer = Seq::new((count - 1) as nat, |i: int| '0');
        lemma_leading_zeros((count - 1) as nat, digits);
        assert(all.drop_last() =~= fewer + digits);
        assert(all.last() == '0');
        assert(digit_value('0') == 0);
    } else {
        assert(all =~= digits);
    }
}

/// Blanks are spaces, as many as were asked for.
pub proof fn law_blanks_are_spaces(count: nat, i: int)
    ensures
        blanks(count).len() == count,
        0 <= i < count ==> blanks(count)[i] == ' ',
{
}

} // verus!

//! What the tool prints: the report of an error and the lines that tell how far a run has come.
use crate::text::{blanks, lines, lines_of, spaces, texts, without_return};
use colored::Colorize;
use vstd::prelude::*;

verus! {

/// Whether `painted` can come of printing `text` between the given codes and the one that switches
/// a terminal back: the plain text comes where colors are off, the text between the codes where
/// they are on, and the text with only the last code where they are switched off meanwhile.
pub open spec fn is_painted(painted: Seq<char>, text: Seq<char>, codes: Seq<char>) -> bool {
    ||| painted == text
    ||| painted == codes + text + "\x1b[0m"@
    ||| painted == text + "\x1b[0m"@
}

/// Calls `red` and `bold` of `colored::Colorize` and prints the `ColoredString`. `colored` looks at
/// the environment, the terminal and the switch in `colored::control` to decide whether to color at
/// all, so it is not claimed which of the texts of `is_painted` comes back; the last one comes only
/// where another thread turns the switch during the call. A text that holds codes of its own may be
/// changed further, and is left out.
#[verifier::external_body]
fn paint_red(text: &str) -> (painted: String)
    requires
        !text@.contains('\x1b'),
    ensures
        is_painted(painted@, text@, "\x1b[1;31m"@),
{
    text.red().bold().to_string()
}

/// Calls `green` and `bold` of `colored::Colorize` and prints the `ColoredString`, of which the same
/// is claimed as in `paint_red`, with the codes for green.
#[verifier::external_body]
fn paint_green(text: &str) -> (painted: String)
    requires
        !text@.contains('\x1b'),
    ensures
        is_painted(painted@, text@, "\x1b[1;32m"@),
{
    text.green().bold().to_string()
}

/// What stands before the line of a report with the given number: the margin, then the label on
/// the first line and as many blanks on the others, then one blank.
pub open spec fn report_head(number: nat, label: Seq<char>, width: nat) -> Seq<char> {
    "       "@ + (if number == 0 {
        label
    } else {
        blanks(width)
    }) + " "@
}

/// The report of an error whose text has the given lines.
pub open spec fn report_of(lines: Seq<Seq<char>>, label: Seq<char>, width: nat) -> Seq<char>
    decreases lines.len(),
{
    if lines.len() == 0 {
        Seq::empty()
    } else {
        let above = lines.drop_last();
        report_of(above, label, width) + report_head(above.len(), label, width) + lines.last()
            + "\n"@
    }
}

/// The report of an error under a label that takes `width` columns.
pub fn labelled_report(error: &str, label: &str, width: usize) -> (report: String)
    ensures
        report@ == report_of(lines_of(error@), label@, width as nat),
{
    let lines = lines(error);
    let ghost all = texts(lines@);
    let margin = spaces(width);
    let mut report = String::new();
    let mut i: usize = 0;
    assert(all.take(0) =~= Seq::empty());
    while i < lines.len()
        invariant
            i <= lines.len(),
            all == texts(lines@),
            margin@ == blanks(width as nat),
            report@ == report_of(all.take(i as int), label@, width as nat),
        decreases lines.len() - i,
    {
        let ghost above = report@;
        report.append("       ");
        if i == 0 {
            report.append(label);
        } else {
            report.append(margin.as_str());
        }
        report.append(" ");
        report.append(lines[i].as_str());
        report.append("\n");
        proof {
            let head = report_head(i as nat, label@, width as nat);
            assert(report@ =~= above + head + all[i as int] + "\n"@);
            assert(all.take(i + 1).drop_last() =~= all.take(i as int));
            assert(all.take(i + 1).last() == all[i as int]);
        }
        i += 1;
    }
    assert(all.take(i as int) =~= all);
    report
}

/// The report of an error under the label `Error`, which is in color where colors are on. The lines
/// below the first are set in as far as the label reaches, whatever its color.
pub fn error_report(error: &str) -> (report: String)
    ensures
        exists|label: Seq<char>| #[trigger]
            is_painted(label, "Error"@, "\x1b[1;31m"@) && report@ == report_of(
                lines_of(error@),
                label,
                5,
            ),
{
    proof {
        reveal_strlit("Error");
    }
    let label = "Error";
    let width = label.unicode_len();
    let painted = paint_red(label);
    labelled_report(error, painted.as_str(), width)
}

/// What a run has begun or ended.
#[derive(Debug, Clone, Copy, PartialEq, Eq, Structural)]
pub enum StatusWord {
    /// The file is about to be written to the target.
    Flashing,
    /// The file has been written to the target.
    Finished,
}

/// The word as it is printed.
pub open spec fn word_text(word: StatusWord) -> Seq<char> {
    match word {
        StatusWord::Flashing => "Flashing"@,
        StatusWord::Finished => "Finished"@,
    }
}

/// A line that tells how far a run has come.
pub open spec fn status_of(word: Seq<char>, text: Seq<char>) -> Seq<char> {
    "    "@ + word + " "@ + text
}

/// A line that tells how far a run has come, under a word that is ready to print.
pub fn labelled_status(word: &str, text: &str) -> (line: String)
    ensures
        line@ == status_of(word@, text@),
{
    "    ".to_owned().concat(word).concat(" ").concat(text)
}

/// A line that tells how far a run has come, with its word in color where colors are on.
pub fn status_line(word: StatusWord, text: &str) -> (line: String)
    ensures
        exists|label: Seq<char>| #[trigger]
            is_painted(label, word_text(word), "\x1b[1;32m"@) && line@ == status_of(label, text@),
{
    proof {
        reveal_strlit("Flashing");
        reveal_strlit("Finished");
    }
    let plain = match word {
        StatusWord::Flashing => "Flashing",
        StatusWord::Finished => "Finished",
    };
    let painted = paint_green(plain);
    assert(is_painted(painted@, word_text(word), "\x1b[1;32m"@));
    labelled_status(painted.as_str(), text)
}

proof fn lemma_lines_of_one_more(above: Seq<char>, line: Seq<char>)
    requires
        above.len() > 0 ==> above.last() == '\n',
        !line.contains('\n'),
    ensures
        lines_of(above + line + "\n"@) == lines_of(above) + seq![without_return(line)],
    decreases above.len(),
{
    reveal_strlit("\n");
    let whole = above + line + "\n"@;
    whole.index_of_first_ensures('\n');
    above.index_of_first_ensures('\n');
    assert(whole.last() == '\n');
    assert(whole.contains('\n')) by {
        assert(whole[whole.len() - 1] == '\n');
    }
    let end = whole.index_of_first('\n')->0;
    if above.len() == 0 {
        assert(whole =~= line + "\n"@);
        assert(whole[line.len() as int] == '\n');
        assert(end <= line.len());
        if end < line.len() {
            assert(line[end] == whole[end]);
        }
        assert(whole.take(end) =~= line);
        assert(whole.skip(end + 1) =~= Seq::empty());
        whole.skip(end + 1).index_of_first_ensures('\n');
        assert(lines_of(whole.skip(end + 1)) =~= Seq::empty());
        assert(lines_of(above) =~= Seq::empty());
        assert(lines_of(whole) =~= lines_of(above) + seq![without_return(line)]);
    } else {
        assert(above[above.len() - 1] == '\n');
        assert(above.contains('\n'));
        let first = above.index_of_first('\n')->0;
        assert(whole[first] == above[first]);
        assert(end <= first);
        assert(above[end] == whole[end]);
        assert(end == first);
        let rest = above.skip(end + 1);
        assert(whole.take(end) =~= above.take(end));
        assert(whole.skip(end + 1) =~= rest + line + "\n"@);
        if rest.len() > 0 {
            assert(rest.last() == above.last());
        }
        lemma_lines_of_one_more(rest, line);
        assert(lines_of(whole) =~= lines_of(above) + seq![without_return(line)]);
    }
}

proof fn lemma_report_lines(lines: Seq<Seq<char>>, label: Seq<char>, width: nat)
    requires
        !label.contains('\n'),
        forall|i: int| 0 <= i < lines.len() ==> !(#[trigger] lines[i]).contains('\n'),
    ensures
        ({
            let report = report_of(lines, label, width);
            &&& report.len() > 0 ==> report.last() == '\n'
            &&& lines_of(report).len() == lines.len()
            &&& forall|i: int|
                0 <= i < lines.len() ==> #[trigger] lines_of(report)[i] == without_return(
                    report_head(i as nat, label, width) + lines[i],
                )
        }),
    decreases lines.len(),
{
    reveal_strlit("\n");
    reveal_strlit(" ");
    reveal_strlit("       ");
    let report = report_of(lines, label, width);
    if lines.len() == 0 {
        report.index_of_first_ensures('\n');
        assert(lines_of(report) =~= Seq::empty());
    } else {
        let above = lines.drop_last();
        assert forall|i: int| 0 <= i < above.len() implies !(#[trigger] above[i]).contains(
            '\n',
        ) by {
            assert(above[i] == lines[i]);
        }
        lemma_report_lines(above, label, width);
        let head = report_head(above.len(), label, width);
        let line = head + lines.last();
        assert forall|j: int| 0 <= j < line.len() implies line[j] != '\n' by {
            if j >= head.len() {
                assert(line[j] == lines[lines.len() - 1][j - head.len()]);
            } else if 7 <= j < head.len() - 1 && above.len() == 0 {
                assert(line[j] == label[j - 7]);
            }
        }
        let shorter = report_of(above, label, width);
        assert(report =~= shorter + line + "\n"@);
        lemma_lines_of_one_more(shorter, line);
        assert(report.last() == '\n');
        assert forall|i: int| 0 <= i < lines.len() implies #[trigger] lines_of(report)[i]
            == without_return(report_head(i as nat, label, width) + lines[i]) by {
            if i < above.len() {
                assert(lines_of(report)[i] == lines_of(shorter)[i]);
                assert(above[i] == lines[i]);
            }
        }
    }
}

/// A report has one line for each line of the error's text, and that text follows the head of its
/// line. (A carriage return at the very end of the text is lost to the line feed behind it.)
pub proof fn law_report_keeps_the_lines(error: Seq<char>, label: Seq<char>, width: nat, i: int)
    requires
        !label.contains('\n'),
        0 <= i < lines_of(error).len(),
    ensures
        ({
            let report = lines_of(report_of(lines_of(error), label, width));
            &&& report.len() == lines_of(error).len()
            &&& report[i] == without_return(
                report_head(i as nat, label, width) + lines_of(error)[i],
            )
        }),
{
    assert forall|k: int| 0 <= k < lines_of(error).len() implies !(#[trigger] lines_of(
        error,
    )[k]).contains('\n') by {
        crate::text::law_lines_hold_no_line_feed(error, k);
    }
    lemma_report_lines(lines_of(error), label, width);
}

/// Under a plain label as wide as the indent, all lines of a report begin in the same column.
pub proof fn law_report_is_aligned(label: Seq<char>, i: nat, j: nat)
    ensures
        report_head(i, label, label.len()).len() == report_head(j, label, label.len()).len(),
{
}

/// A report begins with the label and the first line of the error; each line behind it is set in by
/// the margin and the label's width; and every line ends with a line feed. An error without lines
/// is reported by nothing.
pub proof fn law_report_grows_by_lines(
    lines: Seq<Seq<char>>,
    line: Seq<char>,
    label: Seq<char>,
    width: nat,
)
    ensures
        report_of(Seq::empty(), label, width) == Seq::<char>::empty(),
        lines.len() == 0 ==> report_of(lines.push(line), label, width) == "       "@ + label + " "@
            + line + "\n"@,
        lines.len() > 0 ==> report_of(lines.push(line), label, width) == report_of(
            lines,
            label,
            width,
        ) + "       "@ + Seq::new(width, |i: int| ' ') + " "@ + line + "\n"@,
{
    let more = lines.push(line);
    assert(more.drop_last() =~= lines);
    let report = report_of(more, label, width);
    if lines.len() == 0 {
        assert(report_of(lines, label, width) =~= Seq::empty());
        assert(report =~= "       "@ + label + " "@ + line + "\n"@);
    } else {
        assert(blanks(width) =~= Seq::new(width, |i: int| ' '));
        assert(report =~= report_of(lines, label, width) + "       "@ + Seq::new(
            width,
            |i: int| ' ',
        ) + " "@ + line + "\n"@);
    }
}

/// A status line is set in by four blanks and holds the word, a blank and the whole text.
pub proof fn law_status_shows_word_and_text(word: Seq<char>, text: Seq<char>)
    ensures
        status_of(word, text).len() == 5 + word.len() + text.len(),
        status_of(word, text).take(4) == Seq::new(4, |i: int| ' '),
        status_of(word, text).subrange(4, 4 + word.len() as int) == word,
        status_of(word, text)[4 + word.len() as int] == ' ',
        status_of(word, text).skip(5 + word.len() as int) == text,
        word_text(StatusWord::Flashing) == "Flashing"@,
        word_text(StatusWord::Finished) == "Finished"@,
{
    reveal_strlit("    ");
    reveal_strlit(" ");
    let line = status_of(word, text);
    assert(line.take(4) =~= Seq::new(4, |i: int| ' '));
    assert(line.subrange(4, 4 + word.len() as int) =~= word);
    assert(line.skip(5 + word.len() as int) =~= text);
}

} // verus!

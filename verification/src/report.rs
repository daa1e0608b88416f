//! The textual report of a graded rubric.

use crate::grade::Grade;
use crate::aggregator::{contribution, share, Rubric};
use vstd::prelude::*;
use vstd::string::StringExecFns;

verus! {

pub const LINK_LABEL: &'static str = "Contains a link to a youtube video";

pub const SPELLING_LABEL: &'static str = "No spelling mistakes";

pub const PUNCTUATION_LABEL: &'static str = "No punctuation mistakes";

pub const CAPITALIZATION_LABEL: &'static str = "No capitalization mistakes";

pub const QUESTIONS_LABEL: &'static str = "Answered all the questions in complete sentences";

/// What follows the number on the line of a criterion.
pub const CRITERION_WEIGHT: &'static str = "%(20%): ";

/// The line between the criteria and the final score.
pub const SEPARATOR: &'static str = "#== === === === =#= === === === ==#\n";

/// What follows the number on the last line.
pub const FINAL_LINE: &'static str = "%(100%): Final score\n";

/// The character of a decimal digit.
pub open spec fn digit_char(d: nat) -> char {
    if d == 0 {
        '0'
    } else if d == 1 {
        '1'
    } else if d == 2 {
        '2'
    } else if d == 3 {
        '3'
    } else if d == 4 {
        '4'
    } else if d == 5 {
        '5'
    } else if d == 6 {
        '6'
    } else if d == 7 {
        '7'
    } else if d == 8 {
        '8'
    } else {
        '9'
    }
}

/// The decimal numeral of `n`, without leading zeros.
pub open spec fn decimal(n: nat) -> Seq<char>
    decreases n,
{
    if n < 10 {
        seq![digit_char(n)]
    } else {
        decimal(n / 10).push(digit_char(n % 10))
    }
}

/// The numeral of `n` hundredths: the whole part, then a point and one or two
/// digits where the hundredths do not make a whole.
pub open spec fn hundredths(n: nat) -> Seq<char> {
    let whole = decimal(n / 100);
    let rest = n % 100;
    if rest == 0 {
        whole
    } else if rest % 10 == 0 {
        whole + seq!['.', digit_char(rest / 10)]
    } else {
        whole + seq!['.', digit_char(rest / 10), digit_char(rest % 10)]
    }
}

/// The line of one criterion: what the grade adds to the final score, in
/// percent, and the criterion's label.
pub open spec fn criterion_line(grade: Grade, label: Seq<char>) -> Seq<char> {
    hundredths(contribution(grade.value())) + CRITERION_WEIGHT@ + label + seq!['\n']
}

/// The whole report: a line for each criterion, the separator, and the final
/// score in whole percent.
pub open spec fn report(rubric: Rubric) -> Seq<char> {
    criterion_line(rubric.link, LINK_LABEL@) + criterion_line(rubric.spel, SPELLING_LABEL@)
        + criterion_line(rubric.punc, PUNCTUATION_LABEL@) + criterion_line(
        rubric.caps,
        CAPITALIZATION_LABEL@,
    ) + criterion_line(rubric.ques, QUESTIONS_LABEL@) + SEPARATOR@ + decimal(rubric.final_score())
        + FINAL_LINE@
}

/// The digit that a character stands for; zero for any other character.
pub open spec fn digit_value(c: char) -> nat {
    if c == '1' {
        1
    } else if c == '2' {
        2
    } else if c == '3' {
        3
    } else if c == '4' {
        4
    } else if c == '5' {
        5
    } else if c == '6' {
        6
    } else if c == '7' {
        7
    } else if c == '8' {
        8
    } else if c == '9' {
        9
    } else {
        0
    }
}

/// The number that a sequence of decimal digits stands for.
pub open spec fn numeral_value(digits: Seq<char>) -> nat
    decreases digits.len(),
{
    if digits.len() == 0 {
        0
    } else {
        10 * numeral_value(digits.drop_last()) + digit_value(digits.last())
    }
}

/// The numeral of a number reads back as that number, and starts with a zero
/// only where the number is zero.
pub proof fn law_decimal_reads_back(n: nat)
    ensures
        numeral_value(decimal(n)) == n,
        decimal(n).len() >= 1,
        n > 0 ==> decimal(n)[0] != '0',
    decreases n,
{
    if n < 10 {
        assert(decimal(n).drop_last().len() == 0);
        assert(numeral_value(decimal(n).drop_last()) == 0);
    } else {
        law_decimal_reads_back(n / 10);
        let front = decimal(n / 10);
        assert(decimal(n).drop_last() == front);
        assert(decimal(n)[0] == front[0]);
    }
}

/// A whole number of hundreds is written without a point.
pub proof fn law_whole_percent_has_no_point(n: nat)
    ensures
        hundredths(100 * n) == decimal(n),
{
}

/// `String::push`. Not proved: the character is appended to the end of the
/// string.
pub assume_specification[ String::push ](s: &mut String, ch: char)
    ensures
        final(s)@ == old(s)@.push(ch),
;

fn push_digit(out: &mut String, d: u32)
    requires
        d < 10,
    ensures
        final(out)@ == old(out)@.push(digit_char(d as nat)),
{
    let c = match d {
        0 => '0',
        1 => '1',
        2 => '2',
        3 => '3',
        4 => '4',
        5 => '5',
        6 => '6',
        7 => '7',
        8 => '8',
        _ => '9',
    };
    out.push(c);
}

fn push_decimal(out: &mut String, n: u32)
    ensures
        final(out)@ == old(out)@ + decimal(n as nat),
    decreases n,
{
    if n >= 10 {
        push_decimal(out, n / 10);
    }
    push_digit(out, n % 10);
}

fn push_hundredths(out: &mut String, n: u32)
    ensures
        final(out)@ == old(out)@ + hundredths(n as nat),
{
    push_decimal(out, n / 100);
    let rest: u32 = n % 100;
    if rest != 0 {
        out.push('.');
        push_digit(out, rest / 10);
        if rest % 10 != 0 {
            push_digit(out, rest % 10);
        }
    }
}

fn push_criterion(out: &mut String, grade: &Grade, label: &str)
    ensures
        final(out)@ == old(out)@ + criterion_line(*grade, label@),
{
    push_hundredths(out, share(grade));
    out.append(CRITERION_WEIGHT);
    out.append(label);
    out.push('\n');
}

/// The decimal numeral of `n`.
pub fn decimal_text(n: u32) -> (text: String)
    ensures
        text@ == decimal(n as nat),
{
    let mut text = String::new();
    push_decimal(&mut text, n);
    text
}

/// The numeral of `n` hundredths.
pub fn hundredths_text(n: u32) -> (text: String)
    ensures
        text@ == hundredths(n as nat),
{
    let mut text = String::new();
    push_hundredths(&mut text, n);
    text
}

impl Rubric {
    /// Renders the report. The rubric is left as it was.
    pub fn output(&mut self) -> (text: String)
        ensures
            text@ == report(*old(self)),
            *final(self) == *old(self),
    {
        let score = self.percent();
        let mut out = String::new();
        push_criterion(&mut out, &self.link, LINK_LABEL);
        push_criterion(&mut out, &self.spel, SPELLING_LABEL);
        push_criterion(&mut out, &self.punc, PUNCTUATION_LABEL);
        push_criterion(&mut out, &self.caps, CAPITALIZATION_LABEL);
        push_criterion(&mut out, &self.ques, QUESTIONS_LABEL);
        out.append(SEPARATOR);
        push_decimal(&mut out, score);
        out.append(FINAL_LINE);
        out
    }
}

} // verus!

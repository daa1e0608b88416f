//! The rubric: five equally weighted grades and the score they add up to.

use crate::answer::{affirmative, answers_yes, lowercased, trimmed};
use crate::grade::{mark, Grade, FULL_MARK};
use crate::link::{contains_link, regex_compiles, regex_is_match, BadPattern, LINK_PATTERN};
use crate::finding::{categories_of, passes, LintCategory};
use crate::lint::{punc_spell_caps, rubric_findings};
use vstd::prelude::*;

verus! {

/// The five criteria of one grading run.
#[derive(Clone, Copy, Debug)]
pub struct Rubric {
    /// The text links to a recognized video host.
    pub link: Grade,
    /// No capitalization mistakes.
    pub caps: Grade,
    /// No punctuation mistakes.
    pub punc: Grade,
    /// No spelling mistakes.
    pub spel: Grade,
    /// All questions answered in complete sentences.
    pub ques: Grade,
}

/// What a fully met criterion adds to the final score, in hundredths of a
/// percent: a fifth of a hundred percent.
pub const FULL_SHARE: u32 = 2000;

/// What a grade of `value` thousandths adds to the final score, in hundredths
/// of a percent: of the share of a criterion, the part that the grade has of
/// the full mark.
pub open spec fn contribution(value: nat) -> nat {
    value * FULL_SHARE as nat / FULL_MARK as nat
}

/// A score in hundredths of a percent, rounded to whole percent, a half
/// rounding up.
pub open spec fn rounded_percent(hundredths: nat) -> nat {
    (hundredths + 50) / 100
}

/// Whether a text passes the criterion of a category: the linting engine has
/// no finding on it that counts against the category.
pub open spec fn text_passes(contents: Seq<char>, category: LintCategory) -> bool {
    passes(categories_of(rubric_findings(contents)), category)
}

/// What a grade adds to the final score, in hundredths of a percent.
pub fn share(grade: &Grade) -> (added: u32)
    ensures
        added == contribution(grade.value()),
        added <= FULL_SHARE,
{
    grade.perc() * FULL_SHARE / FULL_MARK
}

impl Rubric {
    /// The sum of the five grades, in thousandths.
    pub open spec fn total(self) -> nat {
        self.link.value() + self.caps.value() + self.punc.value() + self.spel.value()
            + self.ques.value()
    }

    /// The mean of the five grades in hundredths of a percent: the sum of what
    /// each grade adds.
    pub open spec fn mean(self) -> nat {
        contribution(self.link.value()) + contribution(self.caps.value()) + contribution(
            self.punc.value(),
        ) + contribution(self.spel.value()) + contribution(self.ques.value())
    }

    /// The final score in whole percent.
    pub open spec fn final_score(self) -> nat {
        rounded_percent(self.mean())
    }

    /// A rubric with every grade unset.
    pub fn new() -> (rubric: Rubric)
        ensures
            rubric.link@ is None,
            rubric.caps@ is None,
            rubric.punc@ is None,
            rubric.spel@ is None,
            rubric.ques@ is None,
            rubric.mean() == 0,
    {
        Rubric {
            link: Grade::empty(),
            caps: Grade::empty(),
            punc: Grade::empty(),
            spel: Grade::empty(),
            ques: Grade::empty(),
        }
    }

    /// The mean of the five grades, in hundredths of a percent. The rubric is
    /// left as it was.
    pub fn get(&mut self) -> (mean: u32)
        ensures
            mean == old(self).mean(),
            mean <= 10000,
            *final(self) == *old(self),
    {
        share(&self.link) + share(&self.caps) + share(&self.punc) + share(&self.spel) + share(
            &self.ques,
        )
    }

    /// The final score in whole percent: the mean rounded, a half rounding up.
    pub fn percent(&self) -> (score: u32)
        ensures
            score == self.final_score(),
            score <= 100,
    {
        let mut copy = *self;
        (copy.get() + 50) / 100
    }

    /// Merges the results of one run into a rubric: whether a link was found,
    /// whether punctuation, spelling and capitalization passed, in that order,
    /// and whether the assessor answered yes.
    pub fn assemble(link: bool, psc: (bool, bool, bool), yes: bool) -> (rubric: Rubric)
        ensures
            rubric.link@ == Some(mark(link)),
            rubric.punc@ == Some(mark(psc.0)),
            rubric.spel@ == Some(mark(psc.1)),
            rubric.caps@ == Some(mark(psc.2)),
            rubric.ques@ == Some(mark(yes)),
    {
        let mut out = Rubric::new();
        out.link = Grade::new(link);
        if yes {
            out.ques.pass();
        } else {
            out.ques.fail();
        }
        out.punc = Grade::new(psc.0);
        out.spel = Grade::new(psc.1);
        out.caps = Grade::new(psc.2);
        out
    }

    /// Grades `contents`, with `response` the assessor's answer to whether all
    /// questions were answered in complete sentences. Punctuation, spelling and
    /// capitalization go by the findings of the linting engine. Fails only if
    /// the engine for regular expressions rejects the pattern of the recognized
    /// hosts.
    pub fn from_string(contents: String, response: &str) -> (graded: Result<Rubric, BadPattern>)
        ensures
            graded is Ok <==> regex_compiles(LINK_PATTERN@),
            graded matches Ok(rubric) ==> {
                &&& rubric.link@ == Some(mark(regex_is_match(LINK_PATTERN@, contents@)))
                &&& rubric.ques@ == Some(mark(affirmative(lowercased(trimmed(response@)))))
                &&& rubric.punc@ == Some(mark(text_passes(contents@, LintCategory::Punctuation)))
                &&& rubric.spel@ == Some(mark(text_passes(contents@, LintCategory::Spelling)))
                &&& rubric.caps@ == Some(
                    mark(text_passes(contents@, LintCategory::Capitalization)),
                )
            },
    {
        let link = match contains_link(contents.as_str()) {
            Ok(found) => found,
            Err(bad) => {
                return Err(bad);
            },
        };
        let psc = punc_spell_caps(contents.as_str());
        let yes = answers_yes(response);
        Ok(Rubric::assemble(link, psc, yes))
    }
}

/// Rounding picks the nearest whole percent, and the upper one of two that are
/// equally near.
pub proof fn law_rounding_is_nearest(hundredths: nat)
    ensures
        100 * rounded_percent(hundredths) - 50 <= hundredths < 100 * rounded_percent(hundredths) + 50,
{
}

/// The mean is the arithmetic mean of the five grades: as a part of ten
/// thousand hundredths of a percent it is what a fifth of their sum is as a
/// part of the full mark.
pub proof fn law_mean_is_arithmetic(rubric: Rubric)
    ensures
        rubric.mean() * 5 * FULL_MARK == rubric.total() * 10000,
{
}

/// One for a criterion that is met, nothing for one that is not.
pub open spec fn one_if(met: bool) -> nat {
    if met {
        1
    } else {
        0
    }
}

/// The number of criteria among five that are met.
pub open spec fn count_met(link: bool, psc: (bool, bool, bool), yes: bool) -> nat {
    one_if(link) + one_if(psc.0) + one_if(psc.1) + one_if(psc.2) + one_if(yes)
}

/// Where each criterion is either met or not met, each one met adds twenty
/// percent to the final score, and nothing is lost to rounding.
pub proof fn law_each_criterion_is_a_fifth(
    rubric: Rubric,
    link: bool,
    psc: (bool, bool, bool),
    yes: bool,
)
    requires
        rubric.link@ == Some(mark(link)),
        rubric.punc@ == Some(mark(psc.0)),
        rubric.spel@ == Some(mark(psc.1)),
        rubric.caps@ == Some(mark(psc.2)),
        rubric.ques@ == Some(mark(yes)),
    ensures
        rubric.mean() == FULL_SHARE * count_met(link, psc, yes),
        rubric.final_score() == 20 * count_met(link, psc, yes),
        rubric.final_score() <= 100,
{
}

} // verus!

//! The grade of one rubric criterion: unset, or resolved to a score.

use vstd::prelude::*;

verus! {

/// The score of a fully met criterion, in thousandths.
pub const FULL_MARK: u32 = 1000;

/// The score of a criterion that a yes-or-no check settles.
pub open spec fn mark(met: bool) -> nat {
    if met {
        FULL_MARK as nat
    } else {
        0
    }
}

/// What a grade holds once `pass` has been called on it.
pub open spec fn after_pass(state: Option<nat>) -> Option<nat> {
    match state {
        Some(score) => Some(score),
        None => Some(FULL_MARK as nat),
    }
}

/// What a grade holds once `fail` has been called on it.
pub open spec fn after_fail(state: Option<nat>) -> Option<nat> {
    match state {
        Some(score) => Some(score),
        None => Some(0nat),
    }
}

/// The numeric contribution of a grade: its score, or nothing while unset.
pub open spec fn value_of(state: Option<nat>) -> nat {
    match state {
        Some(score) => score,
        None => 0,
    }
}

/// `v` limited to the range from `lo` to `hi`.
pub open spec fn clamp(v: int, lo: int, hi: int) -> int {
    if v < lo {
        lo
    } else if v > hi {
        hi
    } else {
        v
    }
}

/// The outcome of one criterion. It starts unset and is resolved to a score
/// between zero and `FULL_MARK`; a criterion that is either met or not met
/// uses these two scores only.
#[derive(Clone, Copy, Debug)]
pub struct Grade {
    val: Option<u32>,
}

impl View for Grade {
    type V = Option<nat>;

    /// `None` while unset, else the score in thousandths.
    closed spec fn view(&self) -> Option<nat> {
        match self.val {
            Some(score) => Some(score as nat),
            None => None,
        }
    }
}

impl Grade {
    #[verifier::type_invariant]
    spec fn in_range(self) -> bool {
        match self.val {
            Some(score) => score <= FULL_MARK,
            None => true,
        }
    }

    /// The numeric contribution of this grade, in thousandths.
    pub open spec fn value(self) -> nat {
        value_of(self@)
    }

    /// A grade that nothing has resolved yet.
    pub fn empty() -> (grade: Grade)
        ensures
            grade@ is None,
            grade.value() == 0,
    {
        Grade { val: None }
    }

    /// A grade resolved at once from a yes-or-no check.
    pub fn new(v: bool) -> (grade: Grade)
        ensures
            grade@ == Some(mark(v)),
    {
        Grade { val: Some(if v { FULL_MARK } else { 0 }) }
    }

    /// Resolves an unset grade to zero; a resolved grade keeps its score.
    pub fn fail(&mut self)
        ensures
            final(self)@ == after_fail(old(self)@),
    {
        proof {
            use_type_invariant(&*self);
        }
        self.val = match self.val {
            Some(_) => self.val,
            None => Some(0),
        };
    }

    /// Resolves an unset grade to the full mark; a resolved grade keeps its
    /// score.
    pub fn pass(&mut self)
        ensures
            final(self)@ == after_pass(old(self)@),
    {
        proof {
            use_type_invariant(&*self);
        }
        self.val = match self.val {
            Some(_) => self.val,
            None => Some(FULL_MARK),
        };
    }

    /// Resolves the grade to `v` thousandths limited to the range from zero to
    /// `FULL_MARK`, whatever it held before.
    pub fn set_score(&mut self, v: i64)
        ensures
            final(self)@ == Some(clamp(v as int, 0, FULL_MARK as int) as nat),
            final(self).value() == clamp(v as int, 0, FULL_MARK as int),
    {
        let score: u32 = if v < 0 {
            0
        } else if v > FULL_MARK as i64 {
            FULL_MARK
        } else {
            v as u32
        };
        self.val = Some(score);
    }

    /// Whether the criterion is fully met.
    pub fn get(&self) -> (met: bool)
        ensures
            met == (self@ == Some(FULL_MARK as nat)),
    {
        match self.val {
            Some(score) => score == FULL_MARK,
            _ => false,
        }
    }

    /// The numeric contribution of this grade in thousandths: its score, or
    /// zero while unset.
    pub fn perc(&self) -> (score: u32)
        ensures
            score == self.value(),
            score <= FULL_MARK,
    {
        proof {
            use_type_invariant(self);
        }
        match self.val {
            Some(score) => score,
            None => 0,
        }
    }
}

/// What a grade holds once `fail` has been called on it `times` times.
pub open spec fn after_fails(state: Option<nat>, times: nat) -> Option<nat>
    decreases times,
{
    if times == 0 {
        state
    } else {
        after_fail(after_fails(state, (times - 1) as nat))
    }
}

/// What a grade holds once `pass` has been called on it `times` times.
pub open spec fn after_passes(state: Option<nat>, times: nat) -> Option<nat>
    decreases times,
{
    if times == 0 {
        state
    } else {
        after_pass(after_passes(state, (times - 1) as nat))
    }
}

/// A resolved grade is changed neither by `pass` nor by `fail`, and both
/// resolve an unset one.
pub proof fn law_resolved_stays(state: Option<nat>)
    ensures
        state is Some ==> after_pass(state) == state && after_fail(state) == state,
        after_pass(state) is Some,
        after_fail(state) is Some,
{
}

/// The first determination wins: once `pass` has resolved a grade, no number
/// of calls of `fail` changes its value, and once `fail` has, no number of
/// calls of `pass` does.
pub proof fn law_first_write_wins(state: Option<nat>, times: nat)
    ensures
        after_fails(after_pass(state), times) == after_pass(state),
        after_passes(after_fail(state), times) == after_fail(state),
        value_of(after_fails(after_pass(state), times)) == value_of(after_pass(state)),
        value_of(after_passes(after_fail(state), times)) == value_of(after_fail(state)),
    decreases times,
{
    if times > 0 {
        law_first_write_wins(state, (times - 1) as nat);
    }
}

/// A score set directly reads back limited to the range from zero to the full
/// mark.
pub proof fn law_score_is_clamped(v: int)
    ensures
        0 <= clamp(v, 0, FULL_MARK as int) <= FULL_MARK,
        v < 0 ==> clamp(v, 0, FULL_MARK as int) == 0,
        v > FULL_MARK ==> clamp(v, 0, FULL_MARK as int) == FULL_MARK,
        0 <= v <= FULL_MARK ==> clamp(v, 0, FULL_MARK as int) == v,
{
}

} // verus!

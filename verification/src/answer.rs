//! The assessor's answer to the yes-or-no question.

use vstd::prelude::*;

verus! {

/// Whether `c` has the Unicode property `White_Space`.
pub uninterp spec fn is_white_space(c: char) -> bool;

/// The lowercase equivalent of `s`, as `str::to_lowercase` gives it.
pub uninterp spec fn lowercased(s: Seq<char>) -> Seq<char>;

/// `s` without its leading white space.
pub open spec fn trim_start_of(s: Seq<char>) -> Seq<char>
    decreases s.len(),
{
    if s.len() > 0 && is_white_space(s.first()) {
        trim_start_of(s.drop_first())
    } else {
        s
    }
}

/// `s` without its trailing white space.
pub open spec fn trim_end_of(s: Seq<char>) -> Seq<char>
    decreases s.len(),
{
    if s.len() > 0 && is_white_space(s.last()) {
        trim_end_of(s.drop_last())
    } else {
        s
    }
}

/// `s` without its leading and trailing white space.
pub open spec fn trimmed(s: Seq<char>) -> Seq<char> {
    trim_end_of(trim_start_of(s))
}

/// Whether a trimmed, lowercased answer counts as a yes: it is empty or starts
/// with `y`.
pub open spec fn affirmative(normalized: Seq<char>) -> bool {
    normalized.len() == 0 || normalized[0] == 'y'
}

/// `str::trim`. Not proved: the slice returned is the text with its leading
/// and trailing characters of the Unicode property `White_Space` removed, so
/// that it neither starts nor ends with one.
pub assume_specification[ str::trim ](s: &str) -> (r: &str)
    ensures
        r@ == trimmed(s@),
        r@.len() > 0 ==> !is_white_space(r@.first()) && !is_white_space(r@.last()),
;

/// `str::to_lowercase`. Not proved: the string returned depends on the text
/// alone, and is empty for an empty text.
pub assume_specification[ str::to_lowercase ](s: &str) -> (r: String)
    ensures
        r@ == lowercased(s@),
        s@.len() == 0 ==> r@.len() == 0,
;

/// What is left of a text after trimming neither starts nor ends with white
/// space, and nothing is left of a text of white space only.
pub proof fn law_trimmed_has_no_margin(s: Seq<char>)
    ensures
        trimmed(s).len() > 0 ==> !is_white_space(trimmed(s).first()) && !is_white_space(
            trimmed(s).last(),
        ),
        (forall|i: int| 0 <= i < s.len() ==> is_white_space(#[trigger] s[i])) ==> trimmed(s).len()
            == 0,
{
    lemma_trim_start(s);
    lemma_trim_end(trim_start_of(s));
}

proof fn lemma_trim_start(s: Seq<char>)
    ensures
        trim_start_of(s).len() > 0 ==> !is_white_space(trim_start_of(s).first()),
        (forall|i: int| 0 <= i < s.len() ==> is_white_space(#[trigger] s[i])) ==> trim_start_of(
            s,
        ).len() == 0,
    decreases s.len(),
{
    if s.len() > 0 && is_white_space(s.first()) {
        lemma_trim_start(s.drop_first());
        if forall|i: int| 0 <= i < s.len() ==> is_white_space(#[trigger] s[i]) {
            assert forall|i: int| 0 <= i < s.drop_first().len() implies is_white_space(
                #[trigger] s.drop_first()[i],
            ) by {
                assert(s.drop_first()[i] == s[i + 1]);
            }
        }
    } else if s.len() > 0 {
        assert(!is_white_space(s[0]));
    }
}

proof fn lemma_trim_end(s: Seq<char>)
    ensures
        trim_end_of(s).len() > 0 ==> !is_white_space(trim_end_of(s).last()) && trim_end_of(
            s,
        ).first() == s.first(),
        trim_end_of(s).len() <= s.len(),
    decreases s.len(),
{
    if s.len() > 0 && is_white_space(s.last()) {
        lemma_trim_end(s.drop_last());
    }
}

/// Whether a trimmed, lowercased answer counts as a yes.
pub fn starts_with_yes(normalized: &str) -> (yes: bool)
    ensures
        yes == affirmative(normalized@),
{
    let mut chars = normalized.chars();
    match chars.next() {
        Some(first) => first == 'y',
        None => true,
    }
}

/// Whether the assessor's answer counts as a yes. Surrounding white space and
/// case are ignored; an empty answer is a yes, and so is one that starts with
/// `y`.
pub fn answers_yes(response: &str) -> (yes: bool)
    ensures
        yes == affirmative(lowercased(trimmed(response@))),
        trimmed(response@).len() == 0 ==> yes,
{
    let lowered = response.trim().to_lowercase();
    starts_with_yes(lowered.as_str())
}

} // verus!

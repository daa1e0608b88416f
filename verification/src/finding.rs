//! Findings of the linting engine, sorted into the categories the rubric
//! tracks, and the three grades that follow from them.

use crate::grade::Grade;
use vstd::prelude::*;

verus! {

/// The kind of one finding, as far as the rubric tells kinds apart.
#[derive(Clone, Copy, Debug, PartialEq, Eq, Structural)]
pub enum FindingKind {
    BoundaryError,
    Capitalization,
    Eggcorn,
    Malapropism,
    Punctuation,
    Spelling,
    Typo,
    /// Any kind the rubric does not track.
    Other,
}

/// A rubric category that a finding counts against.
#[derive(Clone, Copy, Debug, PartialEq, Eq, Structural)]
pub enum LintCategory {
    Punctuation,
    Spelling,
    Capitalization,
}

/// The category a kind counts against, if the rubric tracks it.
pub open spec fn category_of(kind: FindingKind) -> Option<LintCategory> {
    match kind {
        FindingKind::BoundaryError => Some(LintCategory::Spelling),
        FindingKind::Capitalization => Some(LintCategory::Capitalization),
        FindingKind::Eggcorn => Some(LintCategory::Spelling),
        FindingKind::Malapropism => Some(LintCategory::Spelling),
        FindingKind::Punctuation => Some(LintCategory::Punctuation),
        FindingKind::Spelling => Some(LintCategory::Spelling),
        FindingKind::Typo => Some(LintCategory::Spelling),
        FindingKind::Other => None,
    }
}

/// The categories of the tracked findings among `kinds`, in their order.
pub open spec fn categories_of(kinds: Seq<FindingKind>) -> Seq<LintCategory>
    decreases kinds.len(),
{
    if kinds.len() == 0 {
        Seq::empty()
    } else {
        match category_of(kinds.last()) {
            Some(category) => categories_of(kinds.drop_last()).push(category),
            None => categories_of(kinds.drop_last()),
        }
    }
}

/// Whether a criterion passes: no finding counts against its category.
pub open spec fn passes(lints: Seq<LintCategory>, category: LintCategory) -> bool {
    !lints.contains(category)
}

/// Sorts one finding into its rubric category; an untracked kind has none.
pub fn classify(kind: FindingKind) -> (category: Option<LintCategory>)
    ensures
        category == category_of(kind),
{
    match kind {
        FindingKind::BoundaryError => Some(LintCategory::Spelling),
        FindingKind::Capitalization => Some(LintCategory::Capitalization),
        FindingKind::Eggcorn => Some(LintCategory::Spelling),
        FindingKind::Malapropism => Some(LintCategory::Spelling),
        FindingKind::Punctuation => Some(LintCategory::Punctuation),
        FindingKind::Spelling => Some(LintCategory::Spelling),
        FindingKind::Typo => Some(LintCategory::Spelling),
        FindingKind::Other => None,
    }
}

/// Sorts a sequence of findings into categories, dropping the untracked ones
/// and keeping the order of the rest.
pub fn bucket_kinds(kinds: &Vec<FindingKind>) -> (buckets: Vec<LintCategory>)
    ensures
        buckets@ == categories_of(kinds@),
{
    let mut buckets: Vec<LintCategory> = Vec::new();
    let mut i: usize = 0;
    while i < kinds.len()
        invariant
            i <= kinds.len(),
            buckets@ == categories_of(kinds@.take(i as int)),
        decreases kinds.len() - i,
    {
        proof {
            let next = kinds@.take(i + 1);
            assert(next.drop_last() == kinds@.take(i as int));
            assert(next.last() == kinds@[i as int]);
        }
        match classify(kinds[i]) {
            Some(category) => buckets.push(category),
            None => {},
        }
        i += 1;
    }
    proof {
        assert(kinds@.take(kinds.len() as int) == kinds@);
    }
    buckets
}

/// The state of a grade that has failed on each finding of `category` among
/// `seen` and has not been passed yet.
spec fn unset_or_failed(seen: Seq<LintCategory>, category: LintCategory) -> Option<nat> {
    if seen.contains(category) {
        Some(0nat)
    } else {
        None
    }
}

/// Grades punctuation, spelling and capitalization, in that order, from the
/// categories of the findings: each grade starts unset, fails on every finding
/// of its category, and passes once all findings have been seen.
pub fn grade_buckets(lints: &Vec<LintCategory>) -> (psc: (bool, bool, bool))
    ensures
        psc.0 == passes(lints@, LintCategory::Punctuation),
        psc.1 == passes(lints@, LintCategory::Spelling),
        psc.2 == passes(lints@, LintCategory::Capitalization),
{
    let mut punc = Grade::empty();
    let mut spel = Grade::empty();
    let mut caps = Grade::empty();
    let mut i: usize = 0;
    while i < lints.len()
        invariant
            i <= lints.len(),
            punc@ == unset_or_failed(lints@.take(i as int), LintCategory::Punctuation),
            spel@ == unset_or_failed(lints@.take(i as int), LintCategory::Spelling),
            caps@ == unset_or_failed(lints@.take(i as int), LintCategory::Capitalization),
        decreases lints.len() - i,
    {
        proof {
            let seen = lints@.take(i as int);
            let next = lints@.take(i + 1);
            assert(next == seen.push(lints@[i as int]));
            assert forall|c: LintCategory| next.contains(c) <==> seen.contains(c) || c == lints@[i as int] by {
                if seen.contains(c) {
                    let j = choose|j: int| 0 <= j < seen.len() && seen[j] == c;
                    assert(next[j] == c);
                }
                if c == lints@[i as int] {
                    assert(next[i as int] == c);
                }
            }
        }
        match lints[i] {
            LintCategory::Punctuation => punc.fail(),
            LintCategory::Spelling => spel.fail(),
            LintCategory::Capitalization => caps.fail(),
        }
        i += 1;
    }
    proof {
        assert(lints@.take(lints.len() as int) == lints@);
    }
    punc.pass();
    spel.pass();
    caps.pass();
    (punc.get(), spel.get(), caps.get())
}

/// A category occurs among the sorted findings just when some finding counts
/// against it.
pub proof fn lemma_category_occurs(kinds: Seq<FindingKind>, category: LintCategory)
    ensures
        categories_of(kinds).contains(category) <==> exists|i: int|
            0 <= i < kinds.len() && category_of(#[trigger] kinds[i]) == Some(category),
    decreases kinds.len(),
{
    if kinds.len() > 0 {
        let front = kinds.drop_last();
        lemma_category_occurs(front, category);
        let sorted_front = categories_of(front);
        let sorted = categories_of(kinds);
        if sorted.contains(category) {
            let j = choose|j: int| 0 <= j < sorted.len() && sorted[j] == category;
            if j < sorted_front.len() {
                assert(sorted_front[j] == category);
                let i = choose|i: int|
                    0 <= i < front.len() && category_of(#[trigger] front[i]) == Some(category);
                assert(kinds[i] == front[i]);
            } else {
                assert(category_of(kinds[kinds.len() - 1]) == Some(category));
            }
        }
        if exists|i: int| 0 <= i < kinds.len() && category_of(#[trigger] kinds[i]) == Some(category) {
            let i = choose|i: int|
                0 <= i < kinds.len() && category_of(#[trigger] kinds[i]) == Some(category);
            if i < front.len() {
                assert(front[i] == kinds[i]);
                let j = choose|j: int| 0 <= j < sorted_front.len() && sorted_front[j] == category;
                assert(sorted[j] == category);
            } else {
                assert(sorted[sorted.len() - 1] == category);
            }
        }
    }
}

/// A criterion fails just when at least one finding counts against its
/// category, whatever else is found: spelling fails on a sequence that holds
/// a boundary error, an eggcorn, a malapropism, a misspelling or a typo, and
/// passes on an empty sequence and on one of untracked kinds only.
pub proof fn law_fails_on_any_finding(kinds: Seq<FindingKind>, category: LintCategory)
    ensures
        !passes(categories_of(kinds), category) <==> exists|i: int|
            0 <= i < kinds.len() && category_of(#[trigger] kinds[i]) == Some(category),
        kinds.len() == 0 ==> passes(categories_of(kinds), category),
        (forall|i: int| 0 <= i < kinds.len() ==> #[trigger] kinds[i] == FindingKind::Other)
            ==> passes(categories_of(kinds), category),
{
    lemma_category_occurs(kinds, category);
}

/// No finding counts against more than one category, and the untracked kind
/// counts against none.
pub proof fn law_one_category_at_most(kind: FindingKind, first: LintCategory, second: LintCategory)
    requires
        category_of(kind) == Some(first),
        category_of(kind) == Some(second),
    ensures
        first == second,
        kind != FindingKind::Other,
{
}

/// The order of the findings does not matter: two sequences that hold the same
/// findings, each as often, pass the same criteria.
pub proof fn law_order_does_not_matter(
    kinds: Seq<FindingKind>,
    shuffled: Seq<FindingKind>,
    category: LintCategory,
)
    requires
        kinds.to_multiset() == shuffled.to_multiset(),
    ensures
        passes(categories_of(kinds), category) == passes(categories_of(shuffled), category),
{
    lemma_category_occurs(kinds, category);
    lemma_category_occurs(shuffled, category);
    kinds.to_multiset_ensures();
    shuffled.to_multiset_ensures();
    if exists|i: int| 0 <= i < kinds.len() && category_of(#[trigger] kinds[i]) == Some(category) {
        let i = choose|i: int|
            0 <= i < kinds.len() && category_of(#[trigger] kinds[i]) == Some(category);
        assert(kinds.contains(kinds[i]));
        assert(kinds.to_multiset().count(kinds[i]) > 0);
        assert(shuffled.to_multiset().count(kinds[i]) > 0);
        assert(shuffled.contains(kinds[i]));
        let j = choose|j: int| 0 <= j < shuffled.len() && shuffled[j] == kinds[i];
        assert(category_of(shuffled[j]) == Some(category));
    }
    if exists|i: int|
        0 <= i < shuffled.len() && category_of(#[trigger] shuffled[i]) == Some(category) {
        let i = choose|i: int|
            0 <= i < shuffled.len() && category_of(#[trigger] shuffled[i]) == Some(category);
        assert(shuffled.contains(shuffled[i]));
        assert(shuffled.to_multiset().count(shuffled[i]) > 0);
        assert(kinds.to_multiset().count(shuffled[i]) > 0);
        assert(kinds.contains(shuffled[i]));
        let j = choose|j: int| 0 <= j < kinds.len() && kinds[j] == shuffled[i];
        assert(category_of(kinds[j]) == Some(category));
    }
}

} // verus!

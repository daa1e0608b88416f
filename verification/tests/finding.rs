use rubric::finding::{bucket_kinds, classify, grade_buckets, FindingKind, LintCategory};

#[test]
fn spelling_kinds_count_against_spelling() {
    assert_eq!(classify(FindingKind::BoundaryError), Some(LintCategory::Spelling));
    assert_eq!(classify(FindingKind::Eggcorn), Some(LintCategory::Spelling));
    assert_eq!(classify(FindingKind::Malapropism), Some(LintCategory::Spelling));
    assert_eq!(classify(FindingKind::Spelling), Some(LintCategory::Spelling));
    assert_eq!(classify(FindingKind::Typo), Some(LintCategory::Spelling));
}

#[test]
fn punctuation_counts_against_punctuation() {
    assert_eq!(classify(FindingKind::Punctuation), Some(LintCategory::Punctuation));
}

#[test]
fn capitalization_counts_against_capitalization() {
    assert_eq!(classify(FindingKind::Capitalization), Some(LintCategory::Capitalization));
}

#[test]
fn other_kinds_are_dropped() {
    assert_eq!(classify(FindingKind::Other), None);
}

#[test]
fn buckets_keep_the_order_of_the_tracked_findings() {
    let kinds = vec![
        FindingKind::Other,
        FindingKind::Typo,
        FindingKind::Punctuation,
        FindingKind::Other,
        FindingKind::Capitalization,
        FindingKind::Eggcorn,
    ];
    assert_eq!(
        bucket_kinds(&kinds),
        vec![
            LintCategory::Spelling,
            LintCategory::Punctuation,
            LintCategory::Capitalization,
            LintCategory::Spelling,
        ]
    );
}

#[test]
fn no_findings_give_no_buckets() {
    assert_eq!(bucket_kinds(&Vec::new()), Vec::new());
    assert_eq!(bucket_kinds(&vec![FindingKind::Other, FindingKind::Other]), Vec::new());
}

#[test]
fn no_findings_pass_everything() {
    assert_eq!(grade_buckets(&Vec::new()), (true, true, true));
}

#[test]
fn untracked_findings_pass_everything() {
    let buckets = bucket_kinds(&vec![FindingKind::Other, FindingKind::Other, FindingKind::Other]);
    assert_eq!(grade_buckets(&buckets), (true, true, true));
}

#[test]
fn one_spelling_finding_fails_spelling_only() {
    for kind in [
        FindingKind::BoundaryError,
        FindingKind::Eggcorn,
        FindingKind::Malapropism,
        FindingKind::Spelling,
        FindingKind::Typo,
    ] {
        let buckets = bucket_kinds(&vec![FindingKind::Other, kind, FindingKind::Other]);
        assert_eq!(grade_buckets(&buckets), (true, false, true));
    }
}

#[test]
fn spelling_fails_whatever_else_is_found() {
    let kinds = vec![
        FindingKind::Punctuation,
        FindingKind::Other,
        FindingKind::Spelling,
        FindingKind::Capitalization,
        FindingKind::Spelling,
    ];
    assert_eq!(grade_buckets(&bucket_kinds(&kinds)), (false, false, false));
}

#[test]
fn one_punctuation_finding_fails_punctuation_only() {
    assert_eq!(grade_buckets(&vec![LintCategory::Punctuation]), (false, true, true));
}

#[test]
fn one_capitalization_finding_fails_capitalization_only() {
    assert_eq!(grade_buckets(&vec![LintCategory::Capitalization]), (true, true, false));
}

#[test]
fn many_findings_of_one_category_fail_it_once() {
    let buckets = vec![LintCategory::Punctuation; 50];
    assert_eq!(grade_buckets(&buckets), (false, true, true));
}

#[test]
fn the_order_of_findings_does_not_matter() {
    let one = vec![FindingKind::Typo, FindingKind::Other, FindingKind::Capitalization];
    let other = vec![FindingKind::Capitalization, FindingKind::Typo, FindingKind::Other];
    assert_eq!(grade_buckets(&bucket_kinds(&one)), grade_buckets(&bucket_kinds(&other)));
    assert_eq!(grade_buckets(&bucket_kinds(&one)), (true, false, false));
}

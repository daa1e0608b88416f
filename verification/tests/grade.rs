use rubric::grade::{Grade, FULL_MARK};

fn fraction(grade: &Grade) -> f32 {
    grade.perc() as f32 / FULL_MARK as f32
}

#[test]
fn empty_grade_is_worth_nothing() {
    let g = Grade::empty();
    assert_eq!(g.perc(), 0);
    assert_eq!(fraction(&g), 0.0);
    assert!(!g.get());
}

#[test]
fn new_grade_is_resolved_at_once() {
    assert_eq!(Grade::new(true).perc(), 1000);
    assert!(Grade::new(true).get());
    assert_eq!(Grade::new(false).perc(), 0);
    assert!(!Grade::new(false).get());
}

#[test]
fn pass_resolves_an_unset_grade_to_the_full_mark() {
    let mut g = Grade::empty();
    g.pass();
    assert_eq!(g.perc(), FULL_MARK);
    assert_eq!(fraction(&g), 1.0);
    assert!(g.get());
}

#[test]
fn fail_resolves_an_unset_grade_to_zero() {
    let mut g = Grade::empty();
    g.fail();
    assert_eq!(g.perc(), 0);
    assert!(!g.get());
}

#[test]
fn pass_then_fail_keeps_the_full_mark() {
    let mut g = Grade::empty();
    g.pass();
    g.fail();
    g.fail();
    g.fail();
    assert_eq!(g.perc(), FULL_MARK);
    assert!(g.get());
}

#[test]
fn fail_then_pass_keeps_zero() {
    let mut g = Grade::empty();
    g.fail();
    g.pass();
    g.pass();
    assert_eq!(g.perc(), 0);
    assert!(!g.get());
}

#[test]
fn failed_grade_stays_failed_after_the_trailing_pass() {
    let mut g = Grade::empty();
    g.fail();
    g.fail();
    g.pass();
    assert_eq!(g.perc(), 0);
}

#[test]
fn new_grade_is_not_changed_by_pass_or_fail() {
    let mut met = Grade::new(true);
    met.fail();
    assert_eq!(met.perc(), FULL_MARK);
    let mut unmet = Grade::new(false);
    unmet.pass();
    assert_eq!(unmet.perc(), 0);
}

#[test]
fn set_score_keeps_a_score_in_range() {
    let mut g = Grade::empty();
    g.set_score(333);
    assert_eq!(g.perc(), 333);
    assert!(!g.get());
    g.set_score(0);
    assert_eq!(g.perc(), 0);
    g.set_score(1000);
    assert_eq!(g.perc(), 1000);
    assert!(g.get());
}

#[test]
fn set_score_raises_a_negative_score_to_zero() {
    let mut g = Grade::empty();
    g.set_score(-1);
    assert_eq!(g.perc(), 0);
    g.set_score(-2500);
    assert_eq!(g.perc(), 0);
    g.set_score(i64::MIN);
    assert_eq!(g.perc(), 0);
}

#[test]
fn set_score_lowers_a_score_above_the_full_mark() {
    let mut g = Grade::empty();
    g.set_score(1001);
    assert_eq!(g.perc(), 1000);
    g.set_score(2500);
    assert_eq!(g.perc(), 1000);
    g.set_score(i64::MAX);
    assert_eq!(g.perc(), 1000);
    assert_eq!(fraction(&g), 1.0);
}

#[test]
fn set_score_overwrites_an_earlier_value() {
    let mut g = Grade::empty();
    g.pass();
    g.set_score(250);
    assert_eq!(g.perc(), 250);
    g.fail();
    g.pass();
    assert_eq!(g.perc(), 250);
    g.set_score(750);
    assert_eq!(g.perc(), 750);
}

#[test]
fn a_copy_is_graded_on_its_own() {
    let mut g = Grade::empty();
    let copy = g;
    g.pass();
    assert_eq!(g.perc(), FULL_MARK);
    assert_eq!(copy.perc(), 0);
}

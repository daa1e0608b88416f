use harper_core::linting::Linter;
use harper_core::Document;
use rubric::finding::{FindingKind, LintCategory};
use rubric::lint::{bucket_lints, lint_findings, punc_spell_caps, rubric_linter};
use rubric::Rubric;

const RULES: [&str; 19] = [
    "Spelling",
    "AnA",
    "CapitalizePersonalPronouns",
    "CommaFixes",
    "CompoundNouns",
    "CorrectNumberSuffix",
    "CurrencyPlacement",
    "DiscourseMarkers",
    "EllipsisLength",
    "HopHope",
    "ItsContraction",
    "LetsConfusion",
    "NounVerbConfusion",
    "NumberSuffixCapitalization",
    "PhrasalVerbAsCompoundNoun",
    "PronounContraction",
    "UnclosedQuotes",
    "InflectedVerbAfterTo",
    "SentenceCapitalization",
];

const CLEAN: &str = "I made a short video about the water cycle. You can watch it at https://youtube.com/watch?v=x today.";

fn findings_of_rubric_linter(text: &str) -> usize {
    let document = Document::new_plain_english_curated(text);
    rubric_linter().lint(&document).len()
}

#[test]
fn rubric_linter_holds_each_rule() {
    let linter = rubric_linter();
    for rule in RULES {
        assert!(linter.contains_key(rule), "{}", rule);
    }
}

#[test]
fn rubric_linter_holds_no_other_rule() {
    let linter = rubric_linter();
    assert_eq!(linter.iter_keys().count(), 19);
    for key in linter.iter_keys() {
        assert!(RULES.contains(&key), "{}", key);
    }
}

#[test]
fn rubric_linter_switches_each_rule_on() {
    let linter = rubric_linter();
    for rule in RULES {
        assert!(linter.config.is_rule_enabled(rule), "{}", rule);
    }
}

#[test]
fn word_choice_rules_run_though_the_rubric_does_not_track_them() {
    assert!(findings_of_rubric_linter("I hop we can clarify this soon.") > 0);
    assert!(findings_of_rubric_linter("The crutch let's him walk.") > 0);
    assert!(findings_of_rubric_linter("Your the man") > 0);
    assert_eq!(lint_findings("I hop we can clarify this soon."), vec![FindingKind::Other]);
    assert_eq!(bucket_lints("I hop we can clarify this soon."), Vec::new());
}

#[test]
fn findings_come_by_kind_in_the_order_of_the_rule_names() {
    assert_eq!(lint_findings("This sentence has a speling mistake."), vec![FindingKind::Spelling]);
    assert_eq!(lint_findings("i went to the store."), vec![FindingKind::Capitalization]);
    assert_eq!(
        lint_findings("i like aples , and pears."),
        vec![FindingKind::Capitalization, FindingKind::Punctuation, FindingKind::Spelling]
    );
    assert_eq!(lint_findings(""), Vec::new());
}

#[test]
fn findings_are_the_same_on_every_run() {
    let text = "i like aples , and pears. However the plan failed in the end because nobody came.";
    let first = lint_findings(text);
    assert_eq!(lint_findings(text), first);
    assert_eq!(lint_findings(text), first);
    assert_eq!(bucket_lints(text).len(), first.iter().filter(|kind| **kind != FindingKind::Other).count());
}

#[test]
fn misspelt_word_counts_against_spelling() {
    assert_eq!(bucket_lints("This sentence has a speling mistake."), vec![LintCategory::Spelling]);
}

#[test]
fn lower_case_pronoun_counts_against_capitalization() {
    assert_eq!(bucket_lints("i went to the store."), vec![LintCategory::Capitalization]);
}

#[test]
fn number_suffix_in_capitals_counts_against_capitalization() {
    assert_eq!(bucket_lints("First the 2Nd item was lost."), vec![LintCategory::Capitalization]);
}

#[test]
fn missing_comma_after_a_discourse_marker_counts_against_punctuation() {
    assert_eq!(
        bucket_lints("However the plan failed in the end because nobody came."),
        vec![LintCategory::Punctuation]
    );
}

#[test]
fn space_before_a_comma_counts_against_punctuation() {
    assert_eq!(bucket_lints("I like apples , and pears."), vec![LintCategory::Punctuation]);
}

#[test]
fn clean_text_has_no_findings() {
    assert_eq!(bucket_lints(CLEAN), Vec::new());
    assert_eq!(bucket_lints("The quick brown fox jumps over the lazy dog."), Vec::new());
    assert_eq!(bucket_lints(""), Vec::new());
}

#[test]
fn clean_text_passes_all_three() {
    assert_eq!(punc_spell_caps(CLEAN), (true, true, true));
}

#[test]
fn each_of_the_three_can_fail_alone() {
    assert_eq!(punc_spell_caps("I like apples , and pears."), (false, true, true));
    assert_eq!(punc_spell_caps("This sentence has a speling mistake."), (true, false, true));
    assert_eq!(punc_spell_caps("i went to the store."), (true, true, false));
}

#[test]
fn several_findings_fail_several_criteria() {
    assert_eq!(punc_spell_caps("i like aples , and pears."), (false, false, false));
}

#[test]
fn clean_text_with_link_and_a_yes_scores_a_hundred() {
    let mut rubric = Rubric::from_string(CLEAN.to_string(), "y").unwrap();
    assert_eq!(rubric.link.perc() as f32 / 1000.0, 1.0);
    assert_eq!(rubric.punc.perc() as f32 / 1000.0, 1.0);
    assert_eq!(rubric.spel.perc() as f32 / 1000.0, 1.0);
    assert_eq!(rubric.caps.perc() as f32 / 1000.0, 1.0);
    assert_eq!(rubric.ques.perc() as f32 / 1000.0, 1.0);
    assert_eq!(
        rubric.output(),
        "20%(20%): Contains a link to a youtube video\n\
         20%(20%): No spelling mistakes\n\
         20%(20%): No punctuation mistakes\n\
         20%(20%): No capitalization mistakes\n\
         20%(20%): Answered all the questions in complete sentences\n\
         #== === === === =#= === === === ==#\n\
         100%(100%): Final score\n"
    );
}

#[test]
fn punctuation_finding_without_link_and_a_no_scores_forty() {
    let text = "However the plan failed in the end because nobody came.";
    let mut rubric = Rubric::from_string(text.to_string(), "n").unwrap();
    assert_eq!(rubric.link.perc(), 0);
    assert_eq!(rubric.punc.perc(), 0);
    assert_eq!(rubric.ques.perc(), 0);
    assert_eq!(rubric.spel.perc(), 1000);
    assert_eq!(rubric.caps.perc(), 1000);
    assert_eq!(rubric.percent(), 40);
    assert!(rubric.output().ends_with("\n40%(100%): Final score\n"));
}

#[test]
fn empty_answer_counts_as_a_yes_in_the_rubric() {
    let rubric = Rubric::from_string("The quick brown fox jumps over the lazy dog.".to_string(), "\n").unwrap();
    assert!(rubric.ques.get());
    assert!(!rubric.link.get());
    assert_eq!(rubric.percent(), 80);
}

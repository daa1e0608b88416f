//! The linting engine: the rules the rubric runs, and the findings they give.

use crate::finding::{bucket_kinds, categories_of, grade_buckets, passes, FindingKind, LintCategory};
use harper_core::linting::{
    AnA, CapitalizePersonalPronouns, CommaFixes, CompoundNouns, CorrectNumberSuffix,
    CurrencyPlacement, DiscourseMarkers, EllipsisLength, HopHope, InflectedVerbAfterTo,
    ItsContraction, LetsConfusion, LintGroup, LintKind, Linter, NounVerbConfusion,
    NumberSuffixCapitalization, PhrasalVerbAsCompoundNoun, PronounContraction,
    SentenceCapitalization, SpellCheck, UnclosedQuotes,
};
use harper_core::spell::FstDictionary;
use harper_core::{Dialect, Document};
use vstd::prelude::*;

verus! {

/// `harper_core::linting::LintGroup`, a collection of named rules with a
/// switch for each. Of it only `rules_held` and `enabled_rules` are visible.
#[verifier::external_type_specification]
#[verifier::external_body]
pub struct ExLintGroup(LintGroup);

/// A rule of the linting engine that the rubric runs. Each stands for the rule
/// that the engine's type of the same name makes by default; three are made
/// over the engine's curated dictionary instead, as noted.
#[derive(Clone, Copy, Debug, PartialEq, Eq, Structural)]
pub enum Rule {
    /// `SpellCheck` over the curated dictionary, for American English.
    SpellCheck,
    AnA,
    CapitalizePersonalPronouns,
    CommaFixes,
    CompoundNouns,
    CorrectNumberSuffix,
    CurrencyPlacement,
    DiscourseMarkers,
    EllipsisLength,
    HopHope,
    ItsContraction,
    LetsConfusion,
    NounVerbConfusion,
    NumberSuffixCapitalization,
    PhrasalVerbAsCompoundNoun,
    PronounContraction,
    UnclosedQuotes,
    /// `InflectedVerbAfterTo` over the curated dictionary.
    InflectedVerbAfterTo,
    /// `SentenceCapitalization` over the curated dictionary.
    SentenceCapitalization,
}

/// The rules that a group holds, by the name it holds each under. A name maps
/// to a rule where `LintGroup::add` put that rule under it; under a name that
/// maps to `None` the group holds some other rule, or holds one otherwise.
pub uninterp spec fn rules_held(group: LintGroup) -> Map<Seq<char>, Option<Rule>>;

/// The names that the configuration of a group switches on: those for which
/// `LintGroupConfig::is_rule_enabled` holds.
pub uninterp spec fn enabled_rules(group: LintGroup) -> Set<Seq<char>>;

/// The kinds of the findings that the engine reports on `text`, in its order,
/// when it runs the rules of the rubric.
pub uninterp spec fn rubric_findings(text: Seq<char>) -> Seq<FindingKind>;

/// What `LintGroup::add` does to a group: under a name that it held, nothing;
/// else it holds the rule under the name afterwards. The configuration is as
/// it was.
pub open spec fn rule_added(
    before: LintGroup,
    after: LintGroup,
    name: Seq<char>,
    rule: Rule,
    added: bool,
) -> bool {
    &&& added == !rules_held(before).dom().contains(name)
    &&& rules_held(after) == if added {
        rules_held(before).insert(name, Some(rule))
    } else {
        rules_held(before)
    }
    &&& enabled_rules(after) == enabled_rules(before)
}

/// The rules of a group that holds none.
pub open spec fn no_rules() -> Map<Seq<char>, Option<Rule>> {
    Map::empty()
}

/// The rules the rubric runs, by name.
pub open spec fn rubric_rules() -> Map<Seq<char>, Option<Rule>> {
    map![
        "Spelling"@ => Some(Rule::SpellCheck),
        "AnA"@ => Some(Rule::AnA),
        "CapitalizePersonalPronouns"@ => Some(Rule::CapitalizePersonalPronouns),
        "CommaFixes"@ => Some(Rule::CommaFixes),
        "CompoundNouns"@ => Some(Rule::CompoundNouns),
        "CorrectNumberSuffix"@ => Some(Rule::CorrectNumberSuffix),
        "CurrencyPlacement"@ => Some(Rule::CurrencyPlacement),
        "DiscourseMarkers"@ => Some(Rule::DiscourseMarkers),
        "EllipsisLength"@ => Some(Rule::EllipsisLength),
        "HopHope"@ => Some(Rule::HopHope),
        "ItsContraction"@ => Some(Rule::ItsContraction),
        "LetsConfusion"@ => Some(Rule::LetsConfusion),
        "NounVerbConfusion"@ => Some(Rule::NounVerbConfusion),
        "NumberSuffixCapitalization"@ => Some(Rule::NumberSuffixCapitalization),
        "PhrasalVerbAsCompoundNoun"@ => Some(Rule::PhrasalVerbAsCompoundNoun),
        "PronounContraction"@ => Some(Rule::PronounContraction),
        "UnclosedQuotes"@ => Some(Rule::UnclosedQuotes),
        "InflectedVerbAfterTo"@ => Some(Rule::InflectedVerbAfterTo),
        "SentenceCapitalization"@ => Some(Rule::SentenceCapitalization),
    ]
}

/// `LintGroup::default`. Not proved: the group holds no rule and its
/// configuration switches nothing on.
#[verifier::external_body]
fn new_group() -> (group: LintGroup)
    ensures
        rules_held(group) == no_rules(),
        enabled_rules(group) == Set::<Seq<char>>::empty(),
{
    LintGroup::default()
}

/// `LintGroup::add` of the rule that `SpellCheck::new` over
/// `FstDictionary::curated` for American English makes. Not proved: what
/// `rule_added` says of `add`, and which rule was made.
#[verifier::external_body]
fn add_american_spell_check(group: &mut LintGroup, name: &str) -> (added: bool)
    ensures
        rule_added(*old(group), *final(group), name@, Rule::SpellCheck, added),
{
    group.add(name, SpellCheck::new(FstDictionary::curated(), Dialect::American))
}

/// `LintGroup::add` of the rule that `AnA::default` makes. Not proved: what
/// `rule_added` says of `add`, and which rule was made.
#[verifier::external_body]
fn add_an_a(group: &mut LintGroup, name: &str) -> (added: bool)
    ensures
        rule_added(*old(group), *final(group), name@, Rule::AnA, added),
{
    group.add(name, AnA::default())
}

/// `LintGroup::add` of the rule that `CapitalizePersonalPronouns::default`
/// makes. Not proved: what `rule_added` says of `add`, and which rule was made.
#[verifier::external_body]
fn add_capitalize_personal_pronouns(group: &mut LintGroup, name: &str) -> (added: bool)
    ensures
        rule_added(*old(group), *final(group), name@, Rule::CapitalizePersonalPronouns, added),
{
    group.add(name, CapitalizePersonalPronouns::default())
}

/// `LintGroup::add` of the rule that `CommaFixes::default` makes. Not proved:
/// what `rule_added` says of `add`, and which rule was made.
#[verifier::external_body]
fn add_comma_fixes(group: &mut LintGroup, name: &str) -> (added: bool)
    ensures
        rule_added(*old(group), *final(group), name@, Rule::CommaFixes, added),
{
    group.add(name, CommaFixes::default())
}

/// `LintGroup::add` of the rule that `CompoundNouns::default` makes. Not
/// proved: what `rule_added` says of `add`, and which rule was made.
#[verifier::external_body]
fn add_compound_nouns(group: &mut LintGroup, name: &str) -> (added: bool)
    ensures
        rule_added(*old(group), *final(group), name@, Rule::CompoundNouns, added),
{
    group.add(name, CompoundNouns::default())
}

/// `LintGroup::add` of the rule that `CorrectNumberSuffix::default` makes. Not
/// proved: what `rule_added` says of `add`, and which rule was made.
#[verifier::external_body]
fn add_correct_number_suffix(group: &mut LintGroup, name: &str) -> (added: bool)
    ensures
        rule_added(*old(group), *final(group), name@, Rule::CorrectNumberSuffix, added),
{
    group.add(name, CorrectNumberSuffix::default())
}

/// `LintGroup::add` of the rule that `CurrencyPlacement::default` makes. Not
/// proved: what `rule_added` says of `add`, and which rule was made.
#[verifier::external_body]
fn add_currency_placement(group: &mut LintGroup, name: &str) -> (added: bool)
    ensures
        rule_added(*old(group), *final(group), name@, Rule::CurrencyPlacement, added),
{
    group.add(name, CurrencyPlacement::default())
}

/// `LintGroup::add` of the rule that `DiscourseMarkers::default` makes. Not
/// proved: what `rule_added` says of `add`, and which rule was made.
#[verifier::external_body]
fn add_discourse_markers(group: &mut LintGroup, name: &str) -> (added: bool)
    ensures
        rule_added(*old(group), *final(group), name@, Rule::DiscourseMarkers, added),
{
    group.add(name, DiscourseMarkers::default())
}

/// `LintGroup::add` of the rule that `EllipsisLength::default` makes. Not
/// proved: what `rule_added` says of `add`, and which rule was made.
#[verifier::external_body]
fn add_ellipsis_length(group: &mut LintGroup, name: &str) -> (added: bool)
    ensures
        rule_added(*old(group), *final(group), name@, Rule::EllipsisLength, added),
{
    group.add(name, EllipsisLength::default())
}

/// `LintGroup::add` of the rule that `HopHope::default` makes. Not proved: what
/// `rule_added` says of `add`, and which rule was made.
#[verifier::external_body]
fn add_hop_hope(group: &mut LintGroup, name: &str) -> (added: bool)
    ensures
        rule_added(*old(group), *final(group), name@, Rule::HopHope, added),
{
    group.add(name, HopHope::default())
}

/// `LintGroup::add` of the rule that `ItsContraction::default` makes. Not
/// proved: what `rule_added` says of `add`, and which rule was made.
#[verifier::external_body]
fn add_its_contraction(group: &mut LintGroup, name: &str) -> (added: bool)
    ensures
        rule_added(*old(group), *final(group), name@, Rule::ItsContraction, added),
{
    group.add(name, ItsContraction::default())
}

/// `LintGroup::add` of the rule that `LetsConfusion::default` makes. Not
/// proved: what `rule_added` says of `add`, and which rule was made.
#[verifier::external_body]
fn add_lets_confusion(group: &mut LintGroup, name: &str) -> (added: bool)
    ensures
        rule_added(*old(group), *final(group), name@, Rule::LetsConfusion, added),
{
    group.add(name, LetsConfusion::default())
}

/// `LintGroup::add` of the rule that `NounVerbConfusion::default` makes. Not
/// proved: what `rule_added` says of `add`, and which rule was made.
#[verifier::external_body]
fn add_noun_verb_confusion(group: &mut LintGroup, name: &str) -> (added: bool)
    ensures
        rule_added(*old(group), *final(group), name@, Rule::NounVerbConfusion, added),
{
    group.add(name, NounVerbConfusion::default())
}

/// `LintGroup::add` of the rule that `NumberSuffixCapitalization::default`
/// makes. Not proved: what `rule_added` says of `add`, and which rule was made.
#[verifier::external_body]
fn add_number_suffix_capitalization(group: &mut LintGroup, name: &str) -> (added: bool)
    ensures
        rule_added(*old(group), *final(group), name@, Rule::NumberSuffixCapitalization, added),
{
    group.add(name, NumberSuffixCapitalization::default())
}

/// `LintGroup::add` of the rule that `PhrasalVerbAsCompoundNoun::default`
/// makes. Not proved: what `rule_added` says of `add`, and which rule was made.
#[verifier::external_body]
fn add_phrasal_verb_as_compound_noun(group: &mut LintGroup, name: &str) -> (added: bool)
    ensures
        rule_added(*old(group), *final(group), name@, Rule::PhrasalVerbAsCompoundNoun, added),
{
    group.add(name, PhrasalVerbAsCompoundNoun::default())
}

/// `LintGroup::add` of the rule that `PronounContraction::default` makes. Not
/// proved: what `rule_added` says of `add`, and which rule was made.
#[verifier::external_body]
fn add_pronoun_contraction(group: &mut LintGroup, name: &str) -> (added: bool)
    ensures
        rule_added(*old(group), *final(group), name@, Rule::PronounContraction, added),
{
    group.add(name, PronounContraction::default())
}

/// `LintGroup::add` of the rule that `UnclosedQuotes::default` makes. Not
/// proved: what `rule_added` says of `add`, and which rule was made.
#[verifier::external_body]
fn add_unclosed_quotes(group: &mut LintGroup, name: &str) -> (added: bool)
    ensures
        rule_added(*old(group), *final(group), name@, Rule::UnclosedQuotes, added),
{
    group.add(name, UnclosedQuotes::default())
}

/// `LintGroup::add` of the rule that `InflectedVerbAfterTo::new` over
/// `FstDictionary::curated` makes. Not proved: what `rule_added` says of `add`,
/// and which rule was made.
#[verifier::external_body]
fn add_inflected_verb_after_to(group: &mut LintGroup, name: &str) -> (added: bool)
    ensures
        rule_added(*old(group), *final(group), name@, Rule::InflectedVerbAfterTo, added),
{
    group.add(name, InflectedVerbAfterTo::new(FstDictionary::curated()))
}

/// `LintGroup::add` of the rule that `SentenceCapitalization::new` over
/// `FstDictionary::curated` makes. Not proved: what `rule_added` says of `add`,
/// and which rule was made.
#[verifier::external_body]
fn add_sentence_capitalization(group: &mut LintGroup, name: &str) -> (added: bool)
    ensures
        rule_added(*old(group), *final(group), name@, Rule::SentenceCapitalization, added),
{
    group.add(name, SentenceCapitalization::new(FstDictionary::curated()))
}

/// `LintGroup::set_all_rules_to` with `Some(true)`. Not proved: the group holds
/// the rules it held, and its configuration switches each of them on and
/// nothing off.
#[verifier::external_body]
fn enable_all_rules(group: &mut LintGroup)
    ensures
        rules_held(*final(group)) == rules_held(*old(group)),
        enabled_rules(*final(group)) == enabled_rules(*old(group)).union(
            rules_held(*old(group)).dom(),
        ),
{
    group.set_all_rules_to(Some(true))
}

/// `Document::new_plain_english_curated` on the text, then `Linter::lint` of
/// the group on that document, each finding handed out as its
/// `Lint::lint_kind`. Not proved: for a group that holds the rules of the
/// rubric and no other, each switched on, the kinds of the findings and their
/// order depend on the text alone. The engine documents its rules as
/// stateless, and a group runs those that are switched on in the order of
/// their names.
#[verifier::external_body]
fn lint_text(group: &mut LintGroup, text: &str) -> (kinds: Vec<FindingKind>)
    requires
        rules_held(*old(group)) == rubric_rules(),
        enabled_rules(*old(group)) == rubric_rules().dom(),
    ensures
        kinds@ == rubric_findings(text@),
{
    let document = Document::new_plain_english_curated(text);
    group.lint(&document).iter().map(|lint| match lint.lint_kind {
        LintKind::BoundaryError => FindingKind::BoundaryError,
        LintKind::Capitalization => FindingKind::Capitalization,
        LintKind::Eggcorn => FindingKind::Eggcorn,
        LintKind::Malapropism => FindingKind::Malapropism,
        LintKind::Punctuation => FindingKind::Punctuation,
        LintKind::Spelling => FindingKind::Spelling,
        LintKind::Typo => FindingKind::Typo,
        _ => FindingKind::Other,
    }).collect()
}

/// The names of the rubric's rules differ from one another: no two of them
/// have both the same length and the same first letter.
proof fn lemma_names_differ()
    ensures
        "Spelling"@.len() == 8 && "Spelling"@[0] == 'S',
        "AnA"@.len() == 3 && "AnA"@[0] == 'A',
        "CapitalizePersonalPronouns"@.len() == 26 && "CapitalizePersonalPronouns"@[0] == 'C',
        "CommaFixes"@.len() == 10 && "CommaFixes"@[0] == 'C',
        "CompoundNouns"@.len() == 13 && "CompoundNouns"@[0] == 'C',
        "CorrectNumberSuffix"@.len() == 19 && "CorrectNumberSuffix"@[0] == 'C',
        "CurrencyPlacement"@.len() == 17 && "CurrencyPlacement"@[0] == 'C',
        "DiscourseMarkers"@.len() == 16 && "DiscourseMarkers"@[0] == 'D',
        "EllipsisLength"@.len() == 14 && "EllipsisLength"@[0] == 'E',
        "HopHope"@.len() == 7 && "HopHope"@[0] == 'H',
        "ItsContraction"@.len() == 14 && "ItsContraction"@[0] == 'I',
        "LetsConfusion"@.len() == 13 && "LetsConfusion"@[0] == 'L',
        "NounVerbConfusion"@.len() == 17 && "NounVerbConfusion"@[0] == 'N',
        "NumberSuffixCapitalization"@.len() == 26 && "NumberSuffixCapitalization"@[0] == 'N',
        "PhrasalVerbAsCompoundNoun"@.len() == 25 && "PhrasalVerbAsCompoundNoun"@[0] == 'P',
        "PronounContraction"@.len() == 18 && "PronounContraction"@[0] == 'P',
        "UnclosedQuotes"@.len() == 14 && "UnclosedQuotes"@[0] == 'U',
        "InflectedVerbAfterTo"@.len() == 20 && "InflectedVerbAfterTo"@[0] == 'I',
        "SentenceCapitalization"@.len() == 22 && "SentenceCapitalization"@[0] == 'S',
{
    reveal_strlit("Spelling");
    reveal_strlit("AnA");
    reveal_strlit("CapitalizePersonalPronouns");
    reveal_strlit("CommaFixes");
    reveal_strlit("CompoundNouns");
    reveal_strlit("CorrectNumberSuffix");
    reveal_strlit("CurrencyPlacement");
    reveal_strlit("DiscourseMarkers");
    reveal_strlit("EllipsisLength");
    reveal_strlit("HopHope");
    reveal_strlit("ItsContraction");
    reveal_strlit("LetsConfusion");
    reveal_strlit("NounVerbConfusion");
    reveal_strlit("NumberSuffixCapitalization");
    reveal_strlit("PhrasalVerbAsCompoundNoun");
    reveal_strlit("PronounContraction");
    reveal_strlit("UnclosedQuotes");
    reveal_strlit("InflectedVerbAfterTo");
    reveal_strlit("SentenceCapitalization");
}

/// The linter of the rubric: a group that holds the rubric's rules, each
/// switched on, and no other.
pub fn rubric_linter() -> (linter: LintGroup)
    ensures
        rules_held(linter) == rubric_rules(),
        enabled_rules(linter) == rubric_rules().dom(),
{
    proof {
        lemma_names_differ();
    }
    let mut linter = new_group();
    let added = add_american_spell_check(&mut linter, "Spelling");
    assert(added);
    let added = add_an_a(&mut linter, "AnA");
    assert(added);
    let added = add_capitalize_personal_pronouns(&mut linter, "CapitalizePersonalPronouns");
    assert(added);
    let added = add_comma_fixes(&mut linter, "CommaFixes");
    assert(added);
    let added = add_compound_nouns(&mut linter, "CompoundNouns");
    assert(added);
    let added = add_correct_number_suffix(&mut linter, "CorrectNumberSuffix");
    assert(added);
    let added = add_currency_placement(&mut linter, "CurrencyPlacement");
    assert(added);
    let added = add_discourse_markers(&mut linter, "DiscourseMarkers");
    assert(added);
    let added = add_ellipsis_length(&mut linter, "EllipsisLength");
    assert(added);
    let added = add_hop_hope(&mut linter, "HopHope");
    assert(added);
    let added = add_its_contraction(&mut linter, "ItsContraction");
    assert(added);
    let added = add_lets_confusion(&mut linter, "LetsConfusion");
    assert(added);
    let added = add_noun_verb_confusion(&mut linter, "NounVerbConfusion");
    assert(added);
    let added = add_number_suffix_capitalization(&mut linter, "NumberSuffixCapitalization");
    assert(added);
    let added = add_phrasal_verb_as_compound_noun(&mut linter, "PhrasalVerbAsCompoundNoun");
    assert(added);
    let added = add_pronoun_contraction(&mut linter, "PronounContraction");
    assert(added);
    let added = add_unclosed_quotes(&mut linter, "UnclosedQuotes");
    assert(added);
    let added = add_inflected_verb_after_to(&mut linter, "InflectedVerbAfterTo");
    assert(added);
    let added = add_sentence_capitalization(&mut linter, "SentenceCapitalization");
    assert(added);
    enable_all_rules(&mut linter);
    linter
}

/// The findings of the rubric's rules on `text`, by kind, in the order the
/// engine reports them.
pub fn lint_findings(text: &str) -> (kinds: Vec<FindingKind>)
    ensures
        kinds@ == rubric_findings(text@),
{
    let mut linter = rubric_linter();
    lint_text(&mut linter, text)
}

/// Lints `text` with the rubric's rules and sorts the findings into the
/// categories the rubric tracks, in the order the engine reports them.
pub fn bucket_lints(text: &str) -> (buckets: Vec<LintCategory>)
    ensures
        buckets@ == categories_of(rubric_findings(text@)),
{
    let kinds = lint_findings(text);
    bucket_kinds(&kinds)
}

/// Whether `contents` passes the punctuation, spelling and capitalization
/// criteria, in that order: each passes where the engine has no finding that
/// counts against it.
pub fn punc_spell_caps(contents: &str) -> (psc: (bool, bool, bool))
    ensures
        psc.0 == passes(categories_of(rubric_findings(contents@)), LintCategory::Punctuation),
        psc.1 == passes(categories_of(rubric_findings(contents@)), LintCategory::Spelling),
        psc.2 == passes(categories_of(rubric_findings(contents@)), LintCategory::Capitalization),
{
    let lints = bucket_lints(contents);
    grade_buckets(&lints)
}

} // verus!

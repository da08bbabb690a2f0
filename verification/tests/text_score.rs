use libre_learning::distance::score;
use libre_learning::text::{normalize, ScoringConfig};

fn cfg(ignore_punctuation: bool, fold_to_base_script: bool, match_case: bool, tolerance: usize)
    -> ScoringConfig {
    ScoringConfig { ignore_punctuation, fold_to_base_script, match_case, tolerance }
}

#[test]
fn strips_the_fixed_punctuation_set() {
    let c = cfg(true, false, true, 0);
    assert_eq!(normalize("Thank you, happy eid.", &c), "Thank you happy eid");
    assert_eq!(normalize("?(),\".;:'", &c), "");
    assert_eq!(normalize("a?b(c)d,e\"f.g;h:i'j", &c), "abcdefghij");
}

#[test]
fn keeps_punctuation_when_disabled() {
    let c = cfg(false, false, true, 0);
    assert_eq!(normalize("Thank you, happy eid.", &c), "Thank you, happy eid.");
}

#[test]
fn folds_to_base_script() {
    let c = cfg(false, true, true, 0);
    assert_eq!(normalize("café", &c), "cafe");
    assert_eq!(normalize("Борис", &c), "Boris");
}

#[test]
fn folds_case_when_match_case_is_off() {
    let c = cfg(false, false, false, 0);
    assert_eq!(normalize("AbC dEf", &c), "abc def");
}

#[test]
fn stage_order_is_strip_then_fold_then_lowercase() {
    let c = cfg(true, true, false, 0);
    assert_eq!(normalize("Café, s'il vous plaît!", &c), "cafe sil vous plait!");
}

#[test]
fn normalize_is_idempotent_for_punctuation_stripping() {
    let c = cfg(true, false, true, 0);
    let once = normalize("Kamu dari mana?", &c);
    let twice = normalize(once.as_str(), &c);
    assert_eq!(once, twice);
}

#[test]
fn score_counts_edit_distance_against_tolerance() {
    let exact = cfg(false, false, true, 0);
    assert!(!score("kitten", "sitting", &cfg(false, false, true, 2)));
    assert!(score("kitten", "sitting", &cfg(false, false, true, 3)));
    assert!(score("same", "same", &exact));
    assert!(!score("same", "sama", &exact));
    assert!(score("same", "sama", &cfg(false, false, true, 1)));
}

#[test]
fn score_ignores_case_when_configured() {
    let c = cfg(true, false, false, 0);
    assert!(score("thank you happy eid", "Thank you, happy eid.", &c));
    assert!(!score("thank you happy eid", "Thank you, happy eid.", &cfg(false, false, true, 0)));
}

#[test]
fn score_is_symmetric() {
    let c = cfg(true, true, false, 1);
    assert_eq!(score("Pagi!", "pagi", &c), score("pagi", "Pagi!", &c));
    assert_eq!(score("abc", "xyz", &c), score("xyz", "abc", &c));
}

#[test]
fn score_is_reflexive_for_any_tolerance() {
    for tolerance in 0..4usize {
        let c = cfg(true, true, false, tolerance);
        assert!(score("Selamat idul fitri.", "Selamat idul fitri.", &c));
    }
}

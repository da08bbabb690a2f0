use libre_learning::card::{Card, CardDisplayData, CardMetaData};
use libre_learning::schedule::{
    advance_to_next_card, deck_tallies, evaluate_review, should_fetch_new_card, update_card_list,
};
use libre_learning::text::ScoringConfig;

fn card(id: u16, label: &str) -> Card {
    Card {
        display_data: CardDisplayData {
            question_text: String::from("Translate this sentence"),
            context_text: String::from("Terima kasih"),
            label_text: String::from(label),
            placeholder_text: String::from("Type the English translation"),
            audio_item: None,
            image_item: None,
            image_index: 0,
        },
        meta_data: CardMetaData::new(id),
    }
}

fn ids(deck: &Vec<Card>) -> Vec<u16> {
    deck.iter().map(|c| c.meta_data.id).collect()
}

#[test]
fn review_then_reorder_scenario() {
    // Deck of two unseen cards; tolerance 1, punctuation ignored, case folded.
    let cfg = ScoringConfig {
        ignore_punctuation: true,
        fold_to_base_script: false,
        match_case: false,
        tolerance: 1,
    };
    let mut deck = vec![card(0, "Thank you, happy eid."), card(1, "Good morning")];
    let now: u64 = 1_000_000;

    // The learner answers the head card with a case-different exact match.
    let passed = evaluate_review(&mut deck, "thank you happy eid", &cfg, now);
    assert!(passed);
    assert_eq!(deck[0].meta_data.timestamps, vec![now]);
    assert_eq!(deck[0].meta_data.scores, vec![true]);

    // The pass yields one recent success; the other card is still unseen.
    let due = vec![500u64, 400u64];
    let (t, f, u) = advance_to_next_card(&mut deck, &due, now);
    assert_eq!((t, f, u), (1, 0, 1));

    // progress = 1 / (1 + 0 + 1) = 0.5: a 50% threshold is reached, 50.1% is not
    assert!(should_fetch_new_card(t, f, u, 500, true));
    assert!(!should_fetch_new_card(t, f, u, 501, true));
    assert!(!should_fetch_new_card(t, f, u, 500, false));

    // the reviewed card is no longer in front
    assert_ne!(deck[0].meta_data.id, 0);
}

#[test]
fn deck_tallies_sum_recent_windows_per_card() {
    let mut a = card(0, "a");
    for (ts, outcome) in [(10, true), (20, true), (30, false), (40, true)] {
        a.meta_data.record_attempt(ts, outcome);
    }
    let b = card(1, "b");
    let mut c = card(2, "c");
    c.meta_data.record_attempt(15, false);
    let deck = vec![a, b, c];
    // a's last three outcomes: true, false, true; b unseen; c one fail
    assert_eq!(deck_tallies(&deck), (2, 2, 1));
}

#[test]
fn growth_threshold_edge_cases() {
    // no classified outcomes at all: progress counts as zero
    assert!(!should_fetch_new_card(0, 0, 0, 1, true));
    assert!(should_fetch_new_card(0, 0, 0, 0, true));
    // full progress reaches the 100% threshold
    assert!(should_fetch_new_card(3, 0, 0, 1000, true));
    assert!(!should_fetch_new_card(2, 1, 0, 1000, true));
}

#[test]
fn cards_in_timeout_sink_to_the_end() {
    let now: u64 = 10_000_000;
    let mut hot = card(0, "a");
    hot.meta_data.record_attempt(now - 300_000, false);
    hot.meta_data.record_attempt(now - 200_000, false);
    hot.meta_data.record_attempt(now - 100_000, false);
    let deck_rest = [card(1, "b"), card(2, "c")];
    let mut deck = vec![hot];
    deck.extend(deck_rest);

    // the over-drilled card has the most urgent due time, yet sinks
    let due = vec![1u64, 50u64, 40u64];
    update_card_list(&mut deck, &due, now);
    assert_eq!(ids(&deck), vec![2, 1, 0]);
}

#[test]
fn equal_due_times_keep_their_relative_order() {
    // the head card is most urgent and gets swapped away by the anti-repeat
    // rule; the two tied cards behind it stay in their original order
    let mut deck = vec![card(0, "x"), card(1, "a"), card(2, "b")];
    let due = vec![1u64, 5u64, 5u64];
    update_card_list(&mut deck, &due, 1_000);
    assert_eq!(ids(&deck), vec![1, 0, 2]);
}

#[test]
fn reviewed_head_is_swapped_away() {
    let mut deck = vec![card(0, "a"), card(1, "b")];
    // the reviewed card stays most urgent, so the sort alone would keep it
    let due = vec![1u64, 2u64];
    update_card_list(&mut deck, &due, 1_000);
    assert_eq!(ids(&deck), vec![1, 0]);
}

#[test]
fn a_single_card_deck_is_never_emptied_or_swapped() {
    let mut deck = vec![card(0, "a")];
    update_card_list(&mut deck, &vec![7u64], 1_000);
    assert_eq!(ids(&deck), vec![0]);
}

#[test]
fn failed_review_records_a_fail() {
    let cfg = ScoringConfig {
        ignore_punctuation: false,
        fold_to_base_script: false,
        match_case: true,
        tolerance: 0,
    };
    let mut deck = vec![card(5, "Thank you")];
    let passed = evaluate_review(&mut deck, "thank you", &cfg, 99);
    assert!(!passed);
    assert_eq!(deck[0].meta_data.scores, vec![false]);
    assert_eq!(deck[0].meta_data.timestamps, vec![99]);
}

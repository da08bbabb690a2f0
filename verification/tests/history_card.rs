use libre_learning::card::{Card, CardDisplayData, CardMetaData, CardRecord};

fn meta(id: u16) -> CardMetaData {
    CardMetaData::new(id)
}

#[test]
fn record_attempt_keeps_the_sequences_parallel() {
    let mut m = meta(1);
    assert_eq!(m.timestamps.len(), m.scores.len());
    m.record_attempt(1000, true);
    assert_eq!(m.timestamps.len(), m.scores.len());
    m.record_attempt(2000, false);
    assert_eq!(m.timestamps.len(), m.scores.len());
    assert_eq!(m.timestamps, vec![1000, 2000]);
    assert_eq!(m.scores, vec![true, false]);
}

#[test]
fn is_unseen_until_the_first_attempt() {
    let mut m = meta(3);
    assert!(m.is_unseen());
    m.record_attempt(5, true);
    assert!(!m.is_unseen());
}

#[test]
fn recent_counts_look_at_the_last_three_outcomes() {
    let mut m = meta(0);
    assert_eq!(m.recent_outcome_counts(), (0, 0));
    m.record_attempt(10, true);
    assert_eq!(m.recent_outcome_counts(), (1, 0));
    m.record_attempt(20, false);
    m.record_attempt(30, false);
    assert_eq!(m.recent_outcome_counts(), (1, 2));
    m.record_attempt(40, true);
    // the window now holds false, false, true: the first pass has aged out
    assert_eq!(m.recent_outcome_counts(), (1, 2));
    m.record_attempt(50, true);
    assert_eq!(m.recent_outcome_counts(), (2, 1));
}

#[test]
fn attempt_counts_within_a_window() {
    let mut m = meta(9);
    m.record_attempt(1_000, true);
    m.record_attempt(5_000, false);
    m.record_attempt(9_000, true);
    assert_eq!(m.recent_attempt_count_within(4_000, 9_000), 2);
    assert_eq!(m.recent_attempt_count_within(0, 9_000), 1);
    assert_eq!(m.recent_attempt_count_within(20_000, 9_000), 3);
    assert_eq!(m.recent_attempt_count_within(4_000, 100_000), 0);
}

#[test]
fn timeout_needs_three_attempts_within_seven_minutes() {
    let now: u64 = 10_000_000;
    let mut hot = meta(1);
    hot.record_attempt(now - 300_000, false);
    hot.record_attempt(now - 200_000, false);
    hot.record_attempt(now - 100_000, true);
    assert!(hot.in_timeout(now));

    let mut cooled = meta(2);
    cooled.record_attempt(now - 900_000, false);
    cooled.record_attempt(now - 800_000, false);
    cooled.record_attempt(now - 100_000, true);
    assert!(!cooled.in_timeout(now));

    // five minutes later the early attempts leave the window
    assert!(!hot.in_timeout(now + 300_000));
}

fn record(audio: Option<&str>, images: Option<Vec<&str>>) -> CardRecord {
    CardRecord {
        question_text: String::from("Translate this sentence"),
        context_text: String::from("Terima kasih"),
        label_text: String::from("Thank you"),
        placeholder_text: String::from("Type the English translation"),
        audio_item: audio.map(String::from),
        image_item: images.map(|v| v.into_iter().map(String::from).collect()),
        id: 42,
    }
}

#[test]
fn from_record_assigns_the_given_id_and_an_empty_history() {
    let card = Card::from_record(record(None, None), 7);
    assert_eq!(card.meta_data.id, 7);
    assert!(card.meta_data.timestamps.is_empty());
    assert!(card.meta_data.scores.is_empty());
    assert_eq!(card.display_data.get_question(), "Translate this sentence");
    assert_eq!(card.display_data.get_context(), "Terima kasih");
    assert_eq!(card.display_data.get_label(), "Thank you");
    assert_eq!(card.display_data.get_input_field_placeholder(), "Type the English translation");
    assert!(!card.display_data.has_audio());
    assert!(!card.display_data.has_image());
}

#[test]
fn from_record_keeps_media_references() {
    let card = Card::from_record(record(Some("a.wav"), Some(vec!["x.png", "y.png"])), 0);
    assert!(card.display_data.has_audio());
    assert!(card.display_data.has_image());
    assert_eq!(card.display_data.image_index, 0);
}

#[test]
fn adding_an_image_selects_it() {
    let mut dd = CardDisplayData {
        question_text: String::new(),
        context_text: String::new(),
        label_text: String::new(),
        placeholder_text: String::new(),
        audio_item: None,
        image_item: None,
        image_index: 0,
    };
    assert!(!dd.has_image());
    dd.add_image_from_url("first.png");
    assert!(dd.has_image());
    assert_eq!(dd.image_index, 0);
    dd.add_image_from_url("second.png");
    assert_eq!(dd.image_index, 1);
}

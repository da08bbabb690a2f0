use libre_learning::download::DownloadState;
use libre_learning::view_model::{
    fetch_new_card_follow_up, review_feedback_sound, CardDisplay, ControllerRequest, DisplayKind,
    FetchFollowUp, PropertieKey, StaticSounds,
};

#[test]
fn a_pending_audio_request_clears_only_on_playback() {
    let mut display = CardDisplay::default();
    assert!(!display.play_audio_requested);

    display.take_action(true);
    assert!(!display.play_audio_requested);

    display.play_audio_requested = true;
    display.take_action(false);
    assert!(display.play_audio_requested);
    display.take_action(true);
    assert!(!display.play_audio_requested);
}

#[test]
fn the_shell_opens_on_the_review_panel() {
    assert_eq!(DisplayKind::default(), DisplayKind::AppDisplay);
}

#[test]
fn request_and_property_keys_are_distinguishable() {
    assert_ne!(
        ControllerRequest::TestCustomServerConnection(true),
        ControllerRequest::TestCustomServerConnection(false)
    );
    assert_eq!(PropertieKey::Progress, PropertieKey::Progress);
    assert_ne!(PropertieKey::Progress, PropertieKey::Alert);
}

#[test]
fn fetch_follow_ups_mirror_the_outcome() {
    assert_eq!(fetch_new_card_follow_up(&Ok(())), FetchFollowUp::Refresh);
    assert_eq!(
        fetch_new_card_follow_up(&Err(DownloadState::Failed(String::from("404")))),
        FetchFollowUp::AlertAndRefresh
    );
    assert_eq!(
        fetch_new_card_follow_up(&Err(DownloadState::ParseError)),
        FetchFollowUp::AlertAndRefresh
    );
    assert_eq!(
        fetch_new_card_follow_up(&Err(DownloadState::Null)),
        FetchFollowUp::AlertAndRefresh
    );
    assert_eq!(
        fetch_new_card_follow_up(&Err(DownloadState::InProgress)),
        FetchFollowUp::Retry
    );
    assert_eq!(
        fetch_new_card_follow_up(&Err(DownloadState::NotStarted)),
        FetchFollowUp::Retry
    );
}

#[test]
fn feedback_sounds_depend_on_the_score() {
    assert_eq!(review_feedback_sound(true), StaticSounds::BeginningOfLine);
    assert_eq!(review_feedback_sound(false), StaticSounds::ServiceLogout);
}

//! The vocabulary the UI shell and the controller exchange: request kinds,
//! property keys, and the small per-frame decisions that need no rendering.
//!
//! Property values that carry UI-only payloads (floats, decoded images) live
//! with the shell; the keys and request kinds are fixed here.

use vstd::prelude::*;
use crate::download::DownloadState;

verus! {

/// The built-in feedback sounds.
#[derive(PartialEq, Eq, Hash, Clone, Debug)]
pub enum StaticSounds {
    DialogWarning,
    BeginningOfLine,
    Prompt,
    MessageNewInstant,
    ServiceLogout,
    Start,
}

/// One request handed from the UI to the controller, handled on the next
/// update pass.
#[derive(PartialEq, Eq, Hash, Clone, Debug)]
pub enum ControllerRequest {
    ResetApp,
    SaveCheckpoint,
    LoadCheckpoint,
    DeleteCheckpoint,
    UpdateRequestConfig,
    UpdateAIRequestConfig,
    TestCustomServerConnection(bool),
    TestAIServerConnection(bool),
    FetchNewCard,
    CheckReview,
    HideAlert,
    PlaySound(StaticSounds),
    PlayCardAudio,
    LoadImage,
    LoadAudio,
    CloseReview,
    UpdateCardList,
    FetchNewCardAtThresholdOrContinue,
    RefreshCard,
    RefreshRequestConfig,
}

/// Which panel the shell is showing.
#[derive(PartialEq, Eq, Clone, Debug)]
pub enum DisplayKind {
    AppDisplay,
    APISettingsDisplay,
    SaveLoadSettingsDisplay,
    OptionsSettingsDisplay,
}

impl Default for DisplayKind {
    /// The trainer opens on the review panel.
    fn default() -> (r: Self)
        ensures
            r == DisplayKind::AppDisplay,
    {
        DisplayKind::AppDisplay
    }
}

/// The keys of the persistent settings and review properties.
#[derive(PartialEq, Eq, Hash, Clone, Debug)]
pub enum PropertieKey {
    AutoPlayAudio,
    EnableSounds,
    FetchNextCardAtThreshold,
    ConnectToCustomServer,
    FetchDalleGeneratedImages,
    EnableGPT3CardGeneration,
    AddNewCardThreshold,
    SpellingCorrectionThreshold,
    IgnoreSentencePunctuationSymbols,
    MatchASCII,
    MatchCase,
    CustomServerEndpoint,
    CustomServerUsername,
    CustomServerPassword,
    CustomServerConnectionStatus,
    Progress,
    UserTextInput,
    UserTextInputHint,
    Checkpoints,
    SelectedCheckpoint,
    AIServerEndpoint,
    AIServerUsername,
    AIServerPassword,
    AIServerConnectionStatus,
    CardQuestion,
    CardContext,
    CardHasAudio,
    Alert,
    ReviewScore,
}

/// The keys of the per-frame values that are never persisted.
#[derive(PartialEq, Eq, Hash, Clone, Debug)]
pub enum VolatilePropertieKey {
    CardImage,
    Differences,
}

/// What the controller does after one attempt at fetching a new card.
#[derive(PartialEq, Eq, Structural, Clone, Debug)]
pub enum FetchFollowUp {
    /// The card arrived: refresh the card panel.
    Refresh,
    /// The fetch ended in a failure: surface an alert, forget the attempt,
    /// then refresh the card panel.
    AlertAndRefresh,
    /// The fetch is still underway: queue another attempt.
    Retry,
}

/// The controller's follow-up to a card-fetch attempt: terminal failures
/// (transport, bad status, unparsable payload, missing configuration) are
/// surfaced and abandoned; anything still in flight is simply retried.
pub fn fetch_new_card_follow_up(outcome: &Result<(), DownloadState>) -> (r: FetchFollowUp)
    ensures
        outcome is Ok ==> r == FetchFollowUp::Refresh,
        (outcome matches Err(e) && (e matches DownloadState::Failed(_) || e is ParseError
            || e is Null)) ==> r == FetchFollowUp::AlertAndRefresh,
        (outcome matches Err(e) && !(e matches DownloadState::Failed(_) || e is ParseError
            || e is Null)) ==> r == FetchFollowUp::Retry,
{
    match outcome {
        Ok(()) => FetchFollowUp::Refresh,
        Err(DownloadState::Failed(_)) => FetchFollowUp::AlertAndRefresh,
        Err(DownloadState::ParseError) => FetchFollowUp::AlertAndRefresh,
        Err(DownloadState::Null) => FetchFollowUp::AlertAndRefresh,
        Err(_) => FetchFollowUp::Retry,
    }
}

/// The feedback sound for a scored review: one sound for a pass, another
/// for a fail.
pub fn review_feedback_sound(passed: bool) -> (s: StaticSounds)
    ensures
        passed ==> s == StaticSounds::BeginningOfLine,
        !passed ==> s == StaticSounds::ServiceLogout,
{
    if passed {
        StaticSounds::BeginningOfLine
    } else {
        StaticSounds::ServiceLogout
    }
}

/// The card panel's own bit of state: whether the learner asked for the
/// card's audio and playback is still owed.
#[derive(PartialEq, Eq, Clone, Debug)]
pub struct CardDisplay {
    pub play_audio_requested: bool,
}

impl CardDisplay {
    /// One frame's decision on the pending audio request: it stays pending
    /// until the caller reports that playback was delivered.
    pub fn take_action(&mut self, audio_played: bool)
        ensures
            final(self).play_audio_requested == (old(self).play_audio_requested && !audio_played),
    {
        if self.play_audio_requested && audio_played {
            self.play_audio_requested = false;
        }
    }
}

impl Default for CardDisplay {
    /// No audio request is pending at the start.
    fn default() -> (r: Self)
        ensures
            r.play_audio_requested == false,
    {
        CardDisplay { play_audio_requested: false }
    }
}

} // verus!

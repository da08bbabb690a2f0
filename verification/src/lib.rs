//! Core logic of a flashcard language-learning trainer.
//!
//! The crate covers the parts of the trainer that are worth stating exactly:
//! normalizing and scoring a typed answer against a card's label, keeping the
//! per-card attempt history, reordering the deck for the next review (with a
//! "do not over-drill" timeout rule and an anti-repeat rule), a poll-driven
//! fetch state machine for network resources, and the policy that grows the
//! deck once mastery crosses a threshold.  Rendering and the actual I/O live
//! outside this crate; the library exchanges plain values with them.

pub mod app_data;
pub mod card;
pub mod distance;
pub mod download;
pub mod request;
pub mod schedule;
pub mod strutil;
pub mod text;
pub mod view_model;

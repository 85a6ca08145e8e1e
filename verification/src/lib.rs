//! Change detection and notification messages for a polled board game.
//!
//! A poll fetches the game's status document, compares it with the snapshot
//! kept from the previous poll, and, when the two differ, derives at most one
//! message that says who has to act. The functions here decide; fetching,
//! storing and sending are left to the caller.

pub mod decode;
pub mod error;
pub mod json;
pub mod message;
pub mod poll;
pub mod state;
pub mod text;

pub use decode::{is_game_changed, parse_game_state};
pub use error::NotifyError;
pub use message::{notification_message, notify_full_turn, notify_lingering};
pub use poll::{is_delivered, Action, Event, Poll, Stage};
pub use state::{has_changed, ActionRequirement, GameState};

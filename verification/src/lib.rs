//! Core of a Twitch VIP manager: the data it tracks, the rules that keep VIP
//! removal safe, and the state changes driven by EventSub messages.
pub mod eventsub;
pub mod json;
pub mod models;
pub mod notes;
pub mod removal;
pub mod state;
pub mod text;
pub mod twitch;
pub mod users;
pub mod vips;

pub use removal::validate_removal_request;

//! Twitch: channel names.
pub mod api;

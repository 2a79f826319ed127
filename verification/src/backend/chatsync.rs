//! The bridge between the game's chat and the messenger.

pub mod listener;

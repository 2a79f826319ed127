//! The chat server: authentication, configuration, the real-time messenger
//! and the bridge to the game chat.

pub mod record;
pub mod error;
pub mod user;
pub mod messenger;
pub mod auth;
pub mod config;
pub mod chatsync;
pub mod servers;
pub mod memelicense;
pub mod cors;

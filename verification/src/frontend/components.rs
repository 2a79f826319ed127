//! The client's components: what each decides and renders as text.

pub mod button;
pub mod chat;
pub mod incidents;
pub mod login;
pub mod meme_license;
pub mod navbar;
pub mod serverlist;
pub mod signup;

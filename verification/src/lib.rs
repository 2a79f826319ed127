//! Verified core of the zxq5.dev chat service: the backend's request
//! handling, session tokens, configuration and message routing, and the
//! frontend's page and form logic.

pub mod text;
pub mod backend;
pub mod frontend;

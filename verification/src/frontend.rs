//! The web client: its pages, theme, live message list and forms.

pub mod routes;
pub mod theme;
pub mod websocket;
pub mod components;

//! A scripted, persisted chat dialogue: language, name, confirmation, mode.

pub mod codec;
pub mod commands;
pub mod event;
pub mod handlers;
pub mod keyboard;
pub mod laws;
pub mod model;
pub mod profile;
pub mod render;
pub mod router;
pub mod state;
pub mod store;
pub mod text;

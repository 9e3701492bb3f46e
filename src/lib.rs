//! Preset-driven prompt assembly and a verified token-by-token generation
//! session for a locally hosted language model.

pub mod text;
pub mod session;
pub mod preset;
pub mod request;
pub mod menu;

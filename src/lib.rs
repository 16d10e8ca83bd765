//! Device-code login for a note-taking client: code generation, the
//! polling state machine, the credential record, and the settings around
//! them.

pub mod auth;
pub mod config;
pub mod device_code;
pub mod editor;
pub mod gateway;
pub mod json;
pub mod mock;
pub mod model;
pub mod scripted;

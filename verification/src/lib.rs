//! Provider catalogue, configuration and the request/response logic of a thin
//! command-line client for OpenAI-compatible chat APIs.

pub mod text;
pub mod provider;
pub mod config;
pub mod api;
pub mod json;

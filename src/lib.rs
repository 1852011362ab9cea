//! Relay between issue comments on a code-hosting platform and an
//! experiment-orchestration service: command grammar, experiment-name codec,
//! correlation store, webhook verification and the dispatch decisions.
pub mod text;
pub mod error;
pub mod utils;
pub mod bot;
pub mod store;
pub mod api;
pub mod auth;
pub mod config;
pub mod crater;
pub mod platforms;
pub mod webhook;

//! An AI-agent tool-call policy gate: the decision layer.
//!
//! A proposed tool call is checked against a compiled policy and answered
//! `allow`, `deny` or `ask`. Everything here is computation on plain values;
//! reading files and the environment, and serving requests, is the caller's.

pub mod config;
pub mod engine;
pub mod error;
pub mod pattern;
pub mod policy;
pub mod server;
pub mod store;
pub mod text;
pub mod types;

//! Verified core of the LLM Pulse command-line client.
pub mod text;
pub mod json;
pub mod json_io;
pub mod error;
pub mod config;
pub mod query;
pub mod output;
pub mod cli;
pub mod client;
pub mod commands;
pub mod api_manifest;

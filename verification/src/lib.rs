//! Bridge between a host process and an external JavaScript runtime that
//! evaluates configuration files, speaking line-delimited JSON-RPC 2.0,
//! together with the articles and the configuration that the host works on.

pub mod article;
pub mod bridge;
pub mod config;
pub mod json;
pub mod library;
pub mod state;
pub mod tasks;
pub mod text;

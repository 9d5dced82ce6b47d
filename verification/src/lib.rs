//! Connectivity testing for Azure AI services: signing in, caching tokens,
//! framing the requests of the test scenarios and judging their replies,
//! diagnosing the network, and reporting.
//!
//! The library decides and words; it sends nothing and reads no file, and
//! of the world around it reads the clock only. A caller hands in what it
//! read or received as plain values, and gets back what to send, what to
//! show and how to end. Every function states what it returns, and the
//! statements are proved; where a function calls another crate, what the
//! library relies on is stated beside the call.
//!
//! - `auth` holds the providers of credentials: API key, client
//!   credentials, device code, interactive sign-in in the browser, managed
//!   identity and a token given by hand, with the token caches in memory
//!   and on disk.
//! - `services` holds the scenarios of the five services and the steps of a
//!   run.
//! - `config`, `cli` and `commands` hold the settings, the arguments and
//!   the decisions of the commands.
//! - `network`, `output` and `testing` hold the diagnostics, the report
//!   formats and the test runner.
//! - `text`, `time`, `json` and `paint` hold what the others share: text
//!   helpers, points in time, JSON values and pieces of coloured text.

pub mod auth;
pub mod cli;
pub mod commands;
pub mod config;
pub mod error;
pub mod json;
pub mod network;
pub mod output;
pub mod paint;
pub mod services;
pub mod testing;
pub mod text;
pub mod time;

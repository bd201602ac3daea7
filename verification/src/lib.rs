//! A command-line HTTP client's core: assembling one request from plain
//! flag values — URL and query parameters, headers, cookies, authentication,
//! and body content — and rendering the response, with a recursive,
//! color-aware pretty-printer for JSON bodies.
//!
//! Everything effectful (flag parsing, file and terminal I/O, the transport)
//! stays outside; this crate works on plain values and states what it
//! computes.

pub mod auth;
pub mod body;
pub mod cli;
pub mod error;
pub mod json;
pub mod query;
pub mod render;
pub mod request;
pub mod style;
pub mod text;

//! A client library for the Njalla domain registrar's JSON API.
//!
//! The library performs no input or output of its own. It builds the requests
//! to send, reads the replies that came back, and decides each step of a
//! domain registration; the caller carries the bytes.

pub mod client;
pub mod config;
pub mod error;
pub mod json;
pub mod output;
pub mod register;
pub mod text;
pub mod types;

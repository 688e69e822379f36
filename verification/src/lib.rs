//! Core logic of a line-oriented, multi-client chat relay.
//!
//! The crate holds the protocol engine of one connection: the statement
//! parser that classifies raw input lines, the colour table, the text
//! rendering of prompts and broadcast messages, and the session state
//! machine that turns parsed input and bus traffic into side effects.
//! Socket and bus I/O stay outside; they hand lines and envelopes in and
//! carry the returned actions out.

pub mod error;
pub mod model;
pub mod parse;
pub mod render;
pub mod session;

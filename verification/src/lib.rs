//! The command-line and stream protocol between mdbook and a preprocessor.
//!
//! mdbook starts a preprocessor twice over: once with `supports <renderer>` to
//! ask whether it handles a renderer, answered by the exit code alone, and once
//! with no arguments, the context and the book as one JSON value on standard
//! input, to receive the processed book on standard output.
//!
//! This crate holds the decisions of both conversations. It reads no stream and
//! ends no process: the caller hands over the arguments and the bytes it read,
//! calls the preprocessor when told to, and writes the [`outcome::Outcome`]
//! that comes back.

pub mod dispatch;
pub mod handshake;
pub mod outcome;
pub mod version;

//! A verified formatter for line-delimited JSON logs.
//!
//! Each input line is decoded into a [`record::LogRecord`] (timestamp,
//! severity level, message, and an auxiliary JSON value kept as its compact
//! text), then rendered as one ANSI-styled output line.

pub mod clock;
pub mod decode;
pub mod json;
pub mod record;
pub mod render;
pub mod style;

//! Decoding of the one-line JSON commands that an editor client sends to a
//! test runner.
pub mod json;
pub mod trigger;

pub use trigger::{decode_error, from_line, trigger_from_object, DecodeError, Trigger};

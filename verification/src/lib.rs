//! A single-selection text-cursor engine.
//!
//! The engine tracks one anchor/extent pair of positions over a mutable,
//! line-oriented text buffer and implements directional navigation and
//! in-place editing while keeping cursor state and buffer content mutually
//! consistent.  Each line is held as a sequence of codepoints, so every
//! column is a codepoint index, never a byte offset.
//!
//! The mathematical value of a cursor lives in [`model`]; every public
//! operation states its exact effect on that model, and [`laws`] proves the
//! properties that relate several operations.

pub mod cursor;
pub mod edit;
pub mod laws;
pub mod model;
pub mod position;
pub mod text;

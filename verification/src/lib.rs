//! Property-level engine for the CSS animation shorthand family.
//!
//! The crate parses already-tokenized CSS values into a typed model,
//! serializes the model back into minimal reparse-safe text, and reconciles
//! repeated or vendor-prefixed declarations of the animation properties into
//! the smallest correct output sequence.  Raw tokenization, the stylesheet
//! AST, and the vendor-prefix compatibility oracle are external
//! collaborators: the engine only consumes token streams and the oracle's
//! answers, handed in as plain values.

pub mod text;
pub mod tokens;
pub mod values;
pub mod timeline;
pub mod shorthand;
pub mod properties;
pub mod handler;
pub mod laws;
pub mod reparse;
pub mod vendor;

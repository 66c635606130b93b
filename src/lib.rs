//! A fluent interface for computing SHA-1 and SHA-2 message digests.
//!
//! The digest computation itself is done by `ring`; this library selects the
//! algorithm, drives the incremental state and exposes the result as bytes or
//! as lowercase hexadecimal text.
pub mod algorithm;
pub mod context;
pub mod hex_text;
pub mod lines;

pub use algorithm::Hashing;
pub use context::HashContext;

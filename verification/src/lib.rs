//! Turns a public shared-conversation link into a Markdown transcript.
//!
//! The pipeline normalizes the input reference, extracts a share
//! identifier, builds candidate retrieval URLs, tolerantly extracts
//! structured conversation turns from semi-structured response bodies,
//! falls back to a readability-style full-text extraction, and assembles
//! the final Markdown document. Fetching itself is left to the caller:
//! every function here is a pure computation over the fetched text.

pub mod candidates;
pub mod extract;
pub mod fallback;
pub mod log;
pub mod jsonio;
pub mod normalize;
pub mod render;
pub mod text;

//! Chunked audio generation: a bounded-length segment generator is driven
//! chunk by chunk, each chunk seeded with the tail of the previous one, and
//! the chunks are stitched into one continuous stream. An interactive session
//! feeds the orchestrator with prompts and inline overrides.

pub mod args;
pub mod config;
pub mod compose;
pub mod directives;
pub mod orchestrator;
pub mod processor;
pub mod schedule;
pub mod session;
pub mod text;

//! Job-processing engine of a regular-expression search worker that keeps a
//! fixed corpus of text documents in memory.
//!
//! The engine compiles the pattern of a job, partitions the corpus into
//! contiguous chunks, collects for every document the matched text up to a
//! character budget, and produces one message per chunk.

pub mod bench;
pub mod chunk;
pub mod corpus;
pub mod job;
pub mod message;
pub mod pattern;
pub mod scan;
pub mod snippet;

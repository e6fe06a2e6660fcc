//! Verified control logic of a write-throughput benchmark for a remote
//! key-value store: endpoint selection, corpus generation and mutation, and
//! the sequential and batched write strategies.

pub mod corpus;
pub mod error;
pub mod generator;
pub mod harness;
pub mod json;
pub mod locator;
pub mod mutation;
pub mod object;
pub mod random;
pub mod runner;
mod seqs;
pub mod text;

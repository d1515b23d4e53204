//! A verified model of an autoregressive token-generation loop.
//!
//! The loop drives next-token prediction until a stop condition, keeping a
//! decode-position cursor for an incremental-state model. The tensor work
//! (forward pass, logit penalty, sampling, detokenisation) is performed by a
//! driver outside this crate; the crate owns every decision: which chunk to
//! feed next, the penalty context window, end-of-sequence detection, and the
//! stop conditions.

pub mod bytes;
pub mod config;
pub mod engine;
pub mod laws;
pub mod run;

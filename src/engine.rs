//! What the recognition engine reports, as plain values.

use vstd::prelude::*;

verus! {

/// State of the decoder after one chunk of samples.
#[derive(Debug, Clone, Copy, PartialEq, Eq)]
pub enum DecodingState {
    /// Decoding goes on.
    Running,
    /// Silence was met and an utterance was completed.
    Finalized,
    /// The decoder failed.
    Failed,
}

/// The engine's final result, reduced to its text.
#[derive(Debug, Clone, PartialEq, Eq)]
pub enum FinalResult {
    /// One transcript.
    Single(String),
    /// Alternative transcripts, most likely first.
    Multiple(Vec<String>),
}

} // verus!

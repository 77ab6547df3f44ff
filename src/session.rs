//! How a recognition session is configured, and the transcript rule
//! applied to the engine's final result.

use vstd::prelude::*;
use crate::engine::FinalResult;

verus! {

/// The transcript that a final result gives: its text when it has one,
/// else the first alternative's text, or the empty string when there is none.
pub open spec fn transcript_of(result: FinalResult) -> Seq<char> {
    match result {
        FinalResult::Single(t) => t@,
        FinalResult::Multiple(alts) => if alts.len() == 0 {
            Seq::empty()
        } else {
            alts[0]@
        },
    }
}

/// Extracts the transcript from the engine's final result.
pub fn extract_final_text(result: &FinalResult) -> (r: String)
    ensures
        r@ == transcript_of(*result),
{
    match result {
        FinalResult::Single(t) => t.clone(),
        FinalResult::Multiple(alts) => if alts.len() == 0 {
            String::new()
        } else {
            alts[0].clone()
        },
    }
}

/// With no alternative on offer the transcript is empty.
pub proof fn lemma_no_alternative_is_empty(alts: Vec<String>)
    requires
        alts@.len() == 0,
    ensures
        transcript_of(FinalResult::Multiple(alts)) == Seq::<char>::empty(),
{
}

/// With at least one alternative the transcript is the first one's text,
/// whatever the others hold.
pub proof fn lemma_first_alternative_wins(alts: Vec<String>, others: Vec<String>)
    requires
        alts@.len() >= 1,
        others@.len() >= 1,
        others@[0]@ == alts@[0]@,
    ensures
        transcript_of(FinalResult::Multiple(alts)) == alts@[0]@,
        transcript_of(FinalResult::Multiple(others)) == transcript_of(FinalResult::Multiple(alts)),
{
}

/// Sample rate, in samples per second, that the engine is configured with.
pub const SAMPLE_RATE_HZ: u32 = 16000;

/// How a recognition session is set up: the model's location, the sample
/// rate, one alternative hypothesis, and no word or partial-word timings.
#[derive(Debug, Clone, PartialEq, Eq)]
pub struct RecognitionConfig {
    pub model_path: String,
    pub sample_rate_hz: u32,
    pub max_alternatives: u16,
    pub words: bool,
    pub partial_words: bool,
}

impl RecognitionConfig {
    /// The configuration for the model at `model_path` and the given rate.
    pub fn new(model_path: &str, sample_rate_hz: u32) -> (r: Self)
        ensures
            r.model_path@ == model_path@,
            r.sample_rate_hz == sample_rate_hz,
            r.max_alternatives == 1,
            !r.words,
            !r.partial_words,
    {
        RecognitionConfig {
            model_path: String::from_str(model_path),
            sample_rate_hz,
            max_alternatives: 1,
            words: false,
            partial_words: false,
        }
    }
}

} // verus!

//! Failures of a recognition run.

use vstd::prelude::*;

verus! {

/// Why recognizing one audio file failed, or why one chunk was not decoded.
#[derive(Debug, Clone, PartialEq, Eq)]
pub enum RecognitionError {
    /// The model location does not exist.
    ModelNotFound,
    /// The audio file does not exist.
    AudioNotFound,
    /// The engine could not load the model.
    ModelLoadFailure,
    /// The engine could not build a decoder for the model and sample rate.
    RecognizerInitFailure,
    /// A chunk held an odd number of bytes.
    InvalidBufferLength,
    /// The engine refused one chunk of samples; the run goes on without it.
    DecodingError,
    /// The decoder reported that decoding failed; the run stops.
    DecoderFailed,
    /// Reading the audio source failed.
    IoError,
    /// Writing the transcript failed.
    WriteFailure,
}

/// Checks, before any work, that the model location and the audio file
/// both exist; the model is checked first.
pub fn check_inputs(model_exists: bool, audio_exists: bool) -> (r: Result<(), RecognitionError>)
    ensures
        !model_exists ==> r == Err::<(), RecognitionError>(RecognitionError::ModelNotFound),
        model_exists && !audio_exists ==> r == Err::<(), RecognitionError>(
            RecognitionError::AudioNotFound,
        ),
        model_exists && audio_exists ==> r is Ok,
{
    if !model_exists {
        Err(RecognitionError::ModelNotFound)
    } else if !audio_exists {
        Err(RecognitionError::AudioNotFound)
    } else {
        Ok(())
    }
}

} // verus!

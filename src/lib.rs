//! Streaming speech-to-text: sample decoding, recognition sessions, chunk
//! feeding and transcript file naming, with their contracts.

pub mod audio_processor;
pub mod engine;
pub mod errors;
pub mod file_handler;
pub mod samples;
pub mod session;

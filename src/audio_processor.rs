//! The streaming feeder: reads an audio source chunk by chunk, turns each
//! chunk into samples for the engine, and decides what follows each step.
//! The caller performs the reads and the engine calls and reports back.

use vstd::prelude::*;
use crate::engine::{DecodingState, FinalResult};
use crate::errors::RecognitionError;
use crate::samples::{decode, decoded};
use crate::session::{extract_final_text, transcript_of};

verus! {

/// Bytes read from the source per chunk; even, so no sample straddles two chunks.
pub const CHUNK_SIZE: usize = 16384;

/// Progress is reported each time this many bytes have been processed.
pub const PROGRESS_UPDATE_INTERVAL: u64 = 163840;

/// Progress in tenths of a percent, rounded to nearest, when `processed`
/// falls on a reporting point of a source of `total` bytes.
pub open spec fn progress_tenths(processed: u64, total: u64) -> Option<int> {
    if total > 0 && processed > 0 && processed % PROGRESS_UPDATE_INTERVAL == 0 {
        Some((2000 * processed + total) / (2 * total))
    } else {
        None
    }
}

/// Where the feeder stands.
#[derive(Debug, Clone, Copy, PartialEq, Eq)]
pub enum Phase {
    /// The next chunk is to be read.
    Reading,
    /// The samples of the last chunk are with the engine.
    Submitting,
    /// The source ended; the final result is to be taken.
    Finished,
    /// A fatal error stopped the run.
    Aborted,
}

/// What the caller does after a chunk was read.
#[derive(Debug, Clone, PartialEq, Eq)]
pub enum ReadAction {
    /// Hand these samples to the engine, then report the outcome.
    Submit(Vec<i16>),
    /// The source has ended: take the engine's final result.
    Finalize,
}

/// What one submitted chunk came to.
#[derive(Debug, Clone, Copy, PartialEq, Eq)]
pub struct ChunkReport {
    /// Whether the engine accepted the samples; a refusal is logged and skipped.
    pub accepted: bool,
    /// Progress to report, in tenths of a percent, if this is a reporting point.
    pub progress: Option<u128>,
}

/// Feeds one audio source through the engine in order.
pub struct AudioProcessor {
    total_bytes: u64,
    processed: u64,
    phase: Phase,
    pending: Ghost<Seq<i16>>,
    fed: Ghost<Seq<i16>>,
}

impl AudioProcessor {
    /// Declared length of the source in bytes.
    pub closed spec fn total_bytes(&self) -> u64 {
        self.total_bytes
    }

    /// Bytes read from the source so far.
    pub closed spec fn processed(&self) -> u64 {
        self.processed
    }

    /// Where the feeder stands in its run.
    pub closed spec fn phase(&self) -> Phase {
        self.phase
    }

    /// Samples of the chunk now with the engine.
    pub closed spec fn pending(&self) -> Seq<i16> {
        self.pending@
    }

    /// Every sample that the engine has accepted, in the order fed.
    pub closed spec fn submitted(&self) -> Seq<i16> {
        self.fed@
    }

    /// A feeder for a source of `total_bytes` bytes, before its first read.
    pub fn new(total_bytes: u64) -> (r: Self)
        ensures
            r.total_bytes() == total_bytes,
            r.processed() == 0,
            r.phase() == Phase::Reading,
            r.submitted() == Seq::<i16>::empty(),
    {
        AudioProcessor {
            total_bytes,
            processed: 0,
            phase: Phase::Reading,
            pending: Ghost(Seq::empty()),
            fed: Ghost(Seq::empty()),
        }
    }

    /// Reads a chunk of the source as samples.
    pub fn convert_to_i16_samples(buffer: &[u8]) -> (r: Result<Vec<i16>, RecognitionError>)
        ensures
            buffer@.len() % 2 == 0 <==> r is Ok,
            r matches Ok(s) ==> s@ == decoded(buffer@),
            r matches Err(e) ==> e == RecognitionError::InvalidBufferLength,
    {
        match decode(buffer) {
            Ok(s) => Ok(s),
            Err(_) => Err(RecognitionError::InvalidBufferLength),
        }
    }

    /// Takes in the chunk that the last read returned. An empty chunk ends
    /// the source; an odd-length one aborts the run; any other is decoded
    /// and its samples are handed out for the engine.
    pub fn on_read(&mut self, chunk: &[u8]) -> (r: Result<ReadAction, RecognitionError>)
        requires
            old(self).phase() == Phase::Reading,
            old(self).processed() + chunk@.len() <= u64::MAX,
        ensures
            final(self).total_bytes() == old(self).total_bytes(),
            final(self).submitted() == old(self).submitted(),
            chunk@.len() == 0 ==> r == Ok::<ReadAction, RecognitionError>(ReadAction::Finalize)
                && final(self).phase() == Phase::Finished && final(self).processed()
                == old(self).processed(),
            chunk@.len() % 2 == 1 ==> r == Err::<ReadAction, RecognitionError>(
                RecognitionError::InvalidBufferLength,
            ) && final(self).phase() == Phase::Aborted,
            chunk@.len() > 0 && chunk@.len() % 2 == 0 ==> (r matches Ok(ReadAction::Submit(s))
                && s@ == decoded(chunk@) && final(self).pending() == s@
                && final(self).phase() == Phase::Submitting && final(self).processed()
                == old(self).processed() + chunk@.len()),
    {
        if chunk.len() == 0 {
            self.phase = Phase::Finished;
            return Ok(ReadAction::Finalize);
        }
        match Self::convert_to_i16_samples(chunk) {
            Ok(samples) => {
                self.processed = self.processed + chunk.len() as u64;
                self.pending = Ghost(samples@);
                self.phase = Phase::Submitting;
                Ok(ReadAction::Submit(samples))
            },
            Err(e) => {
                self.phase = Phase::Aborted;
                Err(e)
            },
        }
    }

    /// Decides what the engine's answer to the pending chunk means. An
    /// error from the engine is skipped and the run goes on; a failed
    /// decoder aborts it.
    pub fn feed_audio_data(&mut self, outcome: Result<DecodingState, RecognitionError>) -> (r:
        Result<ChunkReport, RecognitionError>)
        requires
            old(self).phase() == Phase::Submitting,
        ensures
            final(self).total_bytes() == old(self).total_bytes(),
            final(self).processed() == old(self).processed(),
            outcome == Ok::<DecodingState, RecognitionError>(DecodingState::Failed) ==> r
                == Err::<ChunkReport, RecognitionError>(RecognitionError::DecoderFailed)
                && final(self).phase() == Phase::Aborted && final(self).submitted() == old(
                self,
            ).submitted(),
            outcome is Err ==> (r matches Ok(rep) && !rep.accepted) && final(self).phase()
                == Phase::Reading && final(self).submitted() == old(self).submitted(),
            (outcome == Ok::<DecodingState, RecognitionError>(DecodingState::Running) || outcome
                == Ok::<DecodingState, RecognitionError>(DecodingState::Finalized)) ==> (r matches Ok(
                rep,
            ) && rep.accepted) && final(self).phase() == Phase::Reading && final(self).submitted()
                == old(self).submitted() + old(self).pending(),
            r matches Ok(rep) ==> progress_of(rep.progress) == progress_tenths(
                old(self).processed(),
                old(self).total_bytes(),
            ),
    {
        let accepted = match outcome {
            Ok(DecodingState::Failed) => {
                self.phase = Phase::Aborted;
                return Err(RecognitionError::DecoderFailed);
            },
            Ok(_) => true,
            Err(_) => false,
        };
        if accepted {
            self.fed = Ghost(self.fed@ + self.pending@);
        }
        self.phase = Phase::Reading;
        let progress = Self::update_progress(self.processed, self.total_bytes);
        Ok(ChunkReport { accepted, progress })
    }

    /// Progress to report after `processed` bytes of `file_size`, if any.
    pub fn update_progress(processed: u64, file_size: u64) -> (r: Option<u128>)
        ensures
            progress_of(r) == progress_tenths(processed, file_size),
    {
        if file_size > 0 && processed > 0 && processed % PROGRESS_UPDATE_INTERVAL == 0 {
            let p: u128 = processed as u128;
            let t: u128 = file_size as u128;
            let tenths: u128 = (2000 * p + t) / (2 * t);
            Some(tenths)
        } else {
            None
        }
    }

    /// Ends the run once the source has ended: the transcript of the
    /// engine's final result. The feeder is consumed, so this happens once.
    pub fn extract_final_text(self, result: &FinalResult) -> (r: String)
        requires
            self.phase() == Phase::Finished,
        ensures
            r@ == transcript_of(*result),
    {
        extract_final_text(result)
    }
}

/// A progress value as a mathematical integer.
pub open spec fn progress_of(p: Option<u128>) -> Option<int> {
    match p {
        Some(v) => Some(v as int),
        None => None,
    }
}

} // verus!

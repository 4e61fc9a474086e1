//! Pipeline orchestration: capture, resample, transcribe.
//!
//! The manager owns one capture buffer, one lazily-constructed resampler and
//! one transcription engine, and sequences a recording session end to end.
//! The two-phase split — [`AudioManager::prepare_for_transcription`] is
//! cheap and may run under a shared lock, while the inference run between it
//! and [`AudioManager::transcribe_prepared`] is expensive and must not — is
//! the point of the shape of this interface: a caller can release any lock
//! shared with the capture path before the inference runs.

use vstd::prelude::*;

use crate::capture::{evicted, AudioCapturer};
use crate::engine::{trimmed, joined_segments, InferenceOutcome, SttEngine};
use crate::errors::{AudioError, CoreResult};
use crate::resampler::Resampler;

verus! {

/// The sample rate the transcription engine requires.
pub const TARGET_SAMPLE_RATE: u32 = 16_000;

/// How a batch of raw samples becomes the prepared input of the engine.
#[derive(Debug)]
pub enum PrepareStep<'a> {
    /// The device already captures at the target rate: the raw samples are
    /// the prepared samples, borrowed without a copy.
    Ready(&'a Vec<u32>),
    /// The raw samples must be converted: cut them with
    /// [`Resampler::padded_chunk`], run the filter on each chunk, and
    /// reassemble with [`Resampler::resample`].
    Convert(&'a Resampler),
}

/// Orchestrates one recording session: capture, resample, transcribe.
#[derive(Debug)]
pub struct AudioManager {
    capturer: AudioCapturer,
    resampler: Option<Resampler>,
    engine: SttEngine,
}

impl AudioManager {
    /// The samples committed to the capture buffer, oldest first.
    pub open spec fn buffered(&self) -> Seq<u32> {
        self.capturer_state().samples()
    }

    /// The capture-side state.
    pub closed spec fn capturer_state(&self) -> AudioCapturer {
        self.capturer
    }

    /// The converter, present exactly while the session needs resampling.
    pub closed spec fn converter(&self) -> Option<Resampler> {
        self.resampler
    }

    /// The engine configuration.
    pub closed spec fn engine_state(&self) -> SttEngine {
        self.engine
    }

    /// Everything the manager owns is well formed, and a present converter
    /// matches the device rate on one side and the target rate on the
    /// other.
    pub open spec fn inv(&self) -> bool {
        &&& self.capturer_state().inv()
        &&& (self.converter() matches Some(rs) ==> rs.inv() && rs.in_rate()
            == self.capturer_state().rate() && rs.out_rate() == TARGET_SAMPLE_RATE)
    }

    /// Sets the pipeline up for a capture device with the given native
    /// sample rate and for the model at `model_path`.  `model_exists` says
    /// whether the model artifact is present (the caller checks the file
    /// system); construction fails with `ModelNotFound` exactly when it is
    /// not, and nothing is initialized then.
    pub fn new(sample_rate: u32, model_path: String, model_exists: bool, use_gpu: bool) -> (r:
        CoreResult<AudioManager>)
        ensures
            r is Ok <==> model_exists,
            (r matches Ok(m) ==> {
                &&& m.inv()
                &&& m.buffered() == Seq::<u32>::empty()
                &&& !m.capturer_state().is_shutdown()
                &&& m.capturer_state().rate() == sample_rate
                &&& m.converter() is None
                &&& m.engine_state().path() == model_path@
                &&& m.engine_state().gpu() == use_gpu
            }),
            (r matches Err(e) ==> e matches AudioError::ModelNotFound { path } && path@
                == model_path@),
    {
        let capturer = AudioCapturer::new(sample_rate);
        let engine = match SttEngine::new(model_path, model_exists, use_gpu) {
            Ok(e) => e,
            Err(e) => { return Err(e) },
        };
        Ok(AudioManager { capturer, resampler: None, engine })
    }

    /// Starts a recording session: constructs a converter if the device's
    /// native rate differs from the target rate, then resets the capture
    /// buffer and lowers the shutdown fence.  Fails — leaving everything
    /// untouched — only when the device rate is zero, which no converter
    /// can be built for.
    pub fn start_recording(&mut self) -> (r: CoreResult<()>)
        requires
            old(self).inv(),
        ensures
            final(self).inv(),
            r is Ok <==> old(self).capturer_state().rate() >= 1,
            (r matches Err(e) ==> e is ResamplingError && *final(self) == *old(self)),
            r is Ok ==> {
                &&& final(self).buffered() == Seq::<u32>::empty()
                &&& !final(self).capturer_state().is_shutdown()
                &&& final(self).capturer_state().rate() == old(self).capturer_state().rate()
                &&& (old(self).capturer_state().rate() != TARGET_SAMPLE_RATE
                    ==> (final(self).converter() matches Some(rs) && rs.in_rate() == old(
                    self,
                ).capturer_state().rate() && rs.out_rate() == TARGET_SAMPLE_RATE))
                &&& (old(self).capturer_state().rate() == TARGET_SAMPLE_RATE
                    ==> final(self).converter() == old(self).converter())
                &&& final(self).engine_state() == old(self).engine_state()
            },
    {
        let rate = self.capturer.sample_rate();
        if rate != TARGET_SAMPLE_RATE {
            match Resampler::new(rate, TARGET_SAMPLE_RATE) {
                Ok(rs) => {
                    self.resampler = Some(rs);
                },
                Err(e) => {
                    return Err(e);
                },
            }
        }
        self.capturer.start();
        Ok(())
    }

    /// The callback path: commits one frame of captured samples to the
    /// bounded buffer, unless the shutdown fence is up.
    pub fn push_frame(&mut self, frame: &Vec<u32>)
        requires
            old(self).inv(),
        ensures
            final(self).inv(),
            final(self).converter() == old(self).converter(),
            final(self).engine_state() == old(self).engine_state(),
            final(self).capturer_state().rate() == old(self).capturer_state().rate(),
            final(self).capturer_state().is_shutdown() == old(self).capturer_state().is_shutdown(),
            old(self).capturer_state().is_shutdown() ==> final(self).buffered() == old(
                self,
            ).buffered(),
            !old(self).capturer_state().is_shutdown() ==> final(self).buffered() == evicted(
                old(self).buffered() + frame@,
            ),
    {
        self.capturer.push_frame(frame);
    }

    /// Stops the session and hands back everything that was captured, in
    /// order.  Fails with `NoAudioCaptured` — and with nothing else — when
    /// the buffer is empty; the buffer is drained-by-snapshot either way
    /// and the shutdown fence stays up until the next start.
    pub fn stop_recording_raw(&mut self) -> (r: CoreResult<Vec<u32>>)
        requires
            old(self).inv(),
        ensures
            final(self).inv(),
            r is Ok <==> old(self).buffered().len() > 0,
            (r matches Ok(v) ==> v@ == old(self).buffered()),
            (r matches Err(e) ==> e is NoAudioCaptured),
            final(self).capturer_state().is_shutdown(),
            final(self).buffered() == old(self).buffered(),
            final(self).capturer_state().rate() == old(self).capturer_state().rate(),
            final(self).converter() == old(self).converter(),
            final(self).engine_state() == old(self).engine_state(),
    {
        let samples = self.capturer.stop();
        if samples.is_empty() {
            Err(AudioError::NoAudioCaptured)
        } else {
            Ok(samples)
        }
    }

    /// Decides how the raw samples of this session become the engine's
    /// input.  For any non-empty input: a borrowed, zero-copy view when no
    /// conversion is needed, and the session's converter otherwise.  Empty
    /// input fails with `NoAudioCaptured` and nothing else.
    pub fn prepare_for_transcription<'a>(&'a self, samples: &'a Vec<u32>) -> (r: CoreResult<
        PrepareStep<'a>,
    >)
        requires
            self.inv(),
        ensures
            r is Ok <==> samples@.len() > 0,
            (r matches Err(e) ==> e is NoAudioCaptured),
            samples@.len() > 0 ==> (match self.converter() {
                Option::None => (r matches Ok(p) && p matches PrepareStep::Ready(v) && v == samples),
                Option::Some(rs) => (r matches Ok(p) && p matches PrepareStep::Convert(c) && *c
                    == rs),
            }),
    {
        if samples.is_empty() {
            return Err(AudioError::NoAudioCaptured);
        }
        match &self.resampler {
            Option::None => Ok(PrepareStep::Ready(samples)),
            Option::Some(rs) => Ok(PrepareStep::Convert(rs)),
        }
    }

    /// Turns one inference run over the prepared samples into the final
    /// transcript.  Empty prepared input fails with `NoAudioCaptured`
    /// whatever the outcome argument holds; a failed run becomes
    /// `TranscriptionFailed`; a successful run yields the segments joined
    /// by single spaces and trimmed.  The expensive inference run happens
    /// between [`AudioManager::prepare_for_transcription`] and this call,
    /// outside any lock shared with the capture path.
    pub fn transcribe_prepared(&self, prepared: &Vec<u32>, outcome: &InferenceOutcome) -> (r:
        CoreResult<String>)
        ensures
            prepared@.len() == 0 ==> (r matches Err(e) && e is NoAudioCaptured),
            prepared@.len() > 0 ==> (outcome matches InferenceOutcome::Failed(m) ==> r matches Err(
                e,
            ) && e matches AudioError::TranscriptionFailed { reason } && reason@ == m@),
            prepared@.len() > 0 ==> (outcome matches InferenceOutcome::Segments(segs) ==> r
                matches Ok(t) && t@ == trimmed(joined_segments(segs.deep_view()))),
    {
        self.engine.transcribe(prepared, outcome)
    }
}

} // verus!

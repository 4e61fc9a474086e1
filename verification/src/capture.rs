//! Bounded real-time capture buffer.
//!
//! The hardware callback appends frames; when the buffer would grow past
//! [`MAX_BUFFER_SAMPLES`] the oldest samples are evicted first, so the most
//! recent audio is kept contiguously and in order.  A shutdown flag fences
//! the callback: once it is set, no further write is observed.  The device
//! handle, the stream and the lock that shares this state with the callback
//! thread belong to the surrounding application; the state and its
//! transitions live here.

use vstd::prelude::*;

verus! {

/// Maximum samples to buffer: five minutes of mono audio at 48 kHz.
/// Prevents unbounded memory growth during long recordings.
pub const MAX_BUFFER_SAMPLES: usize = 48_000 * 60 * 5;

/// What a buffer holding `s` looks like after eviction brings it back within
/// the bound: the suffix of the most recent [`MAX_BUFFER_SAMPLES`] samples.
pub open spec fn evicted(s: Seq<u32>) -> Seq<u32> {
    if s.len() <= MAX_BUFFER_SAMPLES {
        s
    } else {
        s.skip(s.len() - MAX_BUFFER_SAMPLES)
    }
}

/// The concatenation of a sequence of frames, in push order.
pub open spec fn concat_frames(frames: Seq<Seq<u32>>) -> Seq<u32>
    decreases frames.len(),
{
    if frames.len() == 0 {
        Seq::<u32>::empty()
    } else {
        frames[0] + concat_frames(frames.drop_first())
    }
}

/// The buffer contents after a sequence of frames has been pushed, one
/// [`AudioCapturer::push_frame`] at a time, starting from `init`.
pub open spec fn replay_pushes(init: Seq<u32>, frames: Seq<Seq<u32>>) -> Seq<u32>
    decreases frames.len(),
{
    if frames.len() == 0 {
        init
    } else {
        replay_pushes(evicted(init + frames[0]), frames.drop_first())
    }
}

/// Evicting after every push gives the same buffer as evicting once at the
/// end: the last [`MAX_BUFFER_SAMPLES`] samples of everything ever pushed.
proof fn lemma_evicted_compose(s: Seq<u32>, t: Seq<u32>)
    ensures
        evicted(evicted(s) + t) == evicted(s + t),
{
    if s.len() <= MAX_BUFFER_SAMPLES {
        assert(evicted(s) + t =~= s + t);
    } else {
        let dropped = s.len() - MAX_BUFFER_SAMPLES;
        assert(evicted(s) + t =~= (s + t).skip(dropped as int));
        assert(evicted((s + t).skip(dropped as int)) =~= evicted(s + t));
    }
}

/// However many frames are pushed, and however large they are, the buffer
/// ends up holding exactly the most recent [`MAX_BUFFER_SAMPLES`] samples of
/// everything pushed, in push order — or everything, when the total
/// stays within the bound.  In particular the length never exceeds the
/// bound, reaches it exactly as soon as the total pushed does, and equals
/// the total pushed while under it.
pub proof fn lemma_buffer_retains_most_recent(init: Seq<u32>, frames: Seq<Seq<u32>>)
    requires
        init.len() <= MAX_BUFFER_SAMPLES,
    ensures
        replay_pushes(init, frames) == evicted(init + concat_frames(frames)),
        replay_pushes(init, frames).len() <= MAX_BUFFER_SAMPLES,
        init.len() + concat_frames(frames).len() >= MAX_BUFFER_SAMPLES ==> replay_pushes(
            init,
            frames,
        ).len() == MAX_BUFFER_SAMPLES,
        init.len() + concat_frames(frames).len() <= MAX_BUFFER_SAMPLES ==> replay_pushes(
            init,
            frames,
        ) == init + concat_frames(frames),
    decreases frames.len(),
{
    if frames.len() == 0 {
        assert(init + concat_frames(frames) =~= init);
    } else {
        let first = evicted(init + frames[0]);
        lemma_buffer_retains_most_recent(first, frames.drop_first());
        lemma_evicted_compose(init + frames[0], concat_frames(frames.drop_first()));
        assert((init + frames[0]) + concat_frames(frames.drop_first()) =~= init + concat_frames(
            frames,
        ));
    }
}

/// Capture-side state of one recording session: the bounded sample buffer,
/// the shutdown fence, and the device's native sample rate.
///
/// Samples are carried as the raw 32-bit words of the mono samples; the
/// buffer stores and orders them without interpreting amplitudes.
#[derive(Debug)]
pub struct AudioCapturer {
    samples: Vec<u32>,
    /// Signals the audio callback to stop writing.  Set before the stream is
    /// torn down, so that no in-flight callback writes after the drain.
    shutdown: bool,
    sample_rate: u32,
}

impl AudioCapturer {
    /// The buffered samples, oldest first.
    pub closed spec fn samples(&self) -> Seq<u32> {
        self.samples@
    }

    /// Whether a stop has been requested and writes are fenced off.
    pub closed spec fn is_shutdown(&self) -> bool {
        self.shutdown
    }

    /// The native sample rate of the capture device.
    pub closed spec fn rate(&self) -> u32 {
        self.sample_rate
    }

    /// The buffer never exceeds its bound.
    pub open spec fn inv(&self) -> bool {
        self.samples().len() <= MAX_BUFFER_SAMPLES
    }

    /// A fresh capturer for a device with the given native sample rate:
    /// empty buffer, fence down.
    pub fn new(sample_rate: u32) -> (r: AudioCapturer)
        ensures
            r.inv(),
            r.samples() == Seq::<u32>::empty(),
            !r.is_shutdown(),
            r.rate() == sample_rate,
    {
        AudioCapturer { samples: Vec::new(), shutdown: false, sample_rate }
    }

    /// Begins a recording session: resets the shutdown fence and clears any
    /// samples left over from the previous session.
    pub fn start(&mut self)
        ensures
            final(self).inv(),
            final(self).samples() == Seq::<u32>::empty(),
            !final(self).is_shutdown(),
            final(self).rate() == old(self).rate(),
    {
        self.shutdown = false;
        self.samples.clear();
    }

    /// The callback path: appends one frame, then evicts from the front
    /// until the buffer is back within bound.  If the shutdown fence is up,
    /// the frame is discarded and nothing changes.
    pub fn push_frame(&mut self, frame: &Vec<u32>)
        requires
            old(self).inv(),
        ensures
            final(self).inv(),
            final(self).rate() == old(self).rate(),
            final(self).is_shutdown() == old(self).is_shutdown(),
            old(self).is_shutdown() ==> final(self).samples() == old(self).samples(),
            !old(self).is_shutdown() ==> final(self).samples() == evicted(
                old(self).samples() + frame@,
            ),
    {
        if self.shutdown {
            return ;
        }
        let ghost committed = self.samples@;
        let mut i: usize = 0;
        while i < frame.len()
            invariant
                i <= frame.len(),
                self.samples@ == committed + frame@.take(i as int),
                self.shutdown == old(self).shutdown,
                self.sample_rate == old(self).sample_rate,
            decreases frame.len() - i,
        {
            self.samples.push(frame[i]);
            assert(self.samples@ == committed + frame@.take(i + 1));
            i += 1;
        }
        assert(frame@.take(frame.len() as int) =~= frame@);
        if self.samples.len() > MAX_BUFFER_SAMPLES {
            let excess = self.samples.len() - MAX_BUFFER_SAMPLES;
            let tail = self.samples.split_off(excess);
            self.samples = tail;
            assert(self.samples@ =~= evicted(committed + frame@));
        }
    }

    /// Raises the shutdown fence and returns a snapshot of everything the
    /// session committed, oldest first.  The buffer itself is left intact;
    /// the next [`AudioCapturer::start`] clears it.
    pub fn stop(&mut self) -> (r: Vec<u32>)
        requires
            old(self).inv(),
        ensures
            final(self).inv(),
            final(self).is_shutdown(),
            final(self).samples() == old(self).samples(),
            final(self).rate() == old(self).rate(),
            r@ == old(self).samples(),
    {
        self.shutdown = true;
        let mut r: Vec<u32> = Vec::new();
        let mut i: usize = 0;
        while i < self.samples.len()
            invariant
                i <= self.samples.len(),
                r@ == self.samples@.take(i as int),
                self.samples@ == old(self).samples@,
                self.shutdown,
                self.sample_rate == old(self).sample_rate,
            decreases self.samples.len() - i,
        {
            r.push(self.samples[i]);
            i += 1;
        }
        assert(self.samples@.take(self.samples@.len() as int) =~= self.samples@);
        r
    }

    /// How many samples the buffer currently holds.
    pub fn len(&self) -> (r: usize)
        ensures
            r == self.samples().len(),
    {
        self.samples.len()
    }

    /// The native sample rate of the capture device.
    pub fn sample_rate(&self) -> (r: u32)
        ensures
            r == self.rate(),
    {
        self.sample_rate
    }
}

} // verus!

//! Chunked streaming sample-rate conversion.
//!
//! The converter processes its input in fixed-size chunks through a
//! frequency-domain filter; the last chunk is zero-padded to the chunk size.
//! The filter itself runs outside this library (it computes on the decoded
//! samples); the logic here — how the input is cut into chunks, how the last
//! one is padded, and how the concatenated output is truncated to the length
//! estimated from the rate ratio — is what this module owns and proves.

use vstd::prelude::*;

use crate::capture::MAX_BUFFER_SAMPLES;
use crate::errors::{AudioError, CoreResult};

verus! {

/// Frames per chunk handed to the frequency-domain filter.
pub const RESAMPLER_CHUNK_SIZE: usize = 1024;

/// How many chunks a batch of `input_len` samples is cut into: the last
/// chunk may be partial, so this rounds up.
pub open spec fn chunk_count(input_len: int, chunk_size: int) -> int
    recommends
        chunk_size >= 1,
{
    (input_len + chunk_size - 1) / chunk_size
}

/// The `i`-th chunk of `s`: `chunk_size` samples starting at
/// `i * chunk_size`, zero-padded at the end where `s` runs out.
pub open spec fn padded_chunk_of(s: Seq<u32>, i: int, chunk_size: int) -> Seq<u32>
    recommends
        chunk_size >= 1,
        0 <= i < chunk_count(s.len() as int, chunk_size),
{
    let start = i * chunk_size;
    let end = if start + chunk_size <= s.len() {
        start + chunk_size
    } else {
        s.len() as int
    };
    s.subrange(start, end) + Seq::<u32>::new((chunk_size - (end - start)) as nat, |j: int| 0u32)
}

/// The output length estimated from the exact rate ratio:
/// `input_len * output_rate / input_rate`, rounded to the nearest integer
/// (half away from zero).
pub open spec fn estimated_len(input_len: int, input_rate: int, output_rate: int) -> int
    recommends
        input_rate >= 1,
{
    (input_len * output_rate + input_rate / 2) / input_rate
}

/// A batch of no samples is estimated to produce no output.
proof fn lemma_estimated_len_of_zero(input_rate: int, output_rate: int)
    requires
        input_rate >= 1,
    ensures
        estimated_len(0, input_rate, output_rate) == 0,
{
    vstd::arithmetic::div_mod::lemma_div_pos_is_pos(input_rate, 2);
    vstd::arithmetic::div_mod::lemma_div_decreases(input_rate, 2);
    vstd::arithmetic::div_mod::lemma_basic_div(input_rate / 2, input_rate);
}

/// A streaming sample-rate converter for one (input, output) rate pair.
///
/// Holds the rates and the chunk geometry; the filter state that computes on
/// decoded samples lives with the caller, which converts one padded chunk at
/// a time and hands the results back to [`Resampler::resample`].
#[derive(Debug)]
pub struct Resampler {
    input_rate: u32,
    output_rate: u32,
    chunk_size: usize,
}

impl Resampler {
    /// The input sample rate this converter was built for.
    pub closed spec fn in_rate(&self) -> u32 {
        self.input_rate
    }

    /// The fixed output sample rate.
    pub closed spec fn out_rate(&self) -> u32 {
        self.output_rate
    }

    /// Frames per processing chunk.
    pub closed spec fn chunk_len(&self) -> usize {
        self.chunk_size
    }

    /// Both rates are usable and the chunk geometry is the fixed one.
    pub open spec fn inv(&self) -> bool {
        &&& self.in_rate() >= 1
        &&& self.out_rate() >= 1
        &&& self.chunk_len() == RESAMPLER_CHUNK_SIZE
    }

    /// Builds a converter for the given rate pair.  A rate of zero cannot be
    /// converted to or from, and is rejected with `ResamplingError`; every
    /// other pair is accepted.
    pub fn new(input_rate: u32, output_rate: u32) -> (r: CoreResult<Resampler>)
        ensures
            r is Ok <==> input_rate >= 1 && output_rate >= 1,
            (r matches Ok(rs) ==> rs.inv() && rs.in_rate() == input_rate && rs.out_rate()
                == output_rate),
            (r matches Err(e) ==> e is ResamplingError),
    {
        if input_rate == 0 || output_rate == 0 {
            Err(AudioError::ResamplingError { reason: String::from_str("sample rates must be nonzero") })
        } else {
            Ok(Resampler { input_rate, output_rate, chunk_size: RESAMPLER_CHUNK_SIZE })
        }
    }

    /// The input sample rate this converter was built for.
    pub fn input_rate(&self) -> (r: u32)
        ensures
            r == self.in_rate(),
    {
        self.input_rate
    }

    /// The fixed output sample rate.
    pub fn output_rate(&self) -> (r: u32)
        ensures
            r == self.out_rate(),
    {
        self.output_rate
    }

    /// How many chunks a batch of `input_len` samples is processed in.
    pub fn num_chunks(&self, input_len: usize) -> (r: usize)
        requires
            self.inv(),
            input_len <= MAX_BUFFER_SAMPLES,
        ensures
            r == chunk_count(input_len as int, self.chunk_len() as int),
    {
        (input_len + self.chunk_size - 1) / self.chunk_size
    }

    /// Cuts the `i`-th chunk out of `samples`, zero-padding the tail of the
    /// final partial chunk up to the chunk size.
    pub fn padded_chunk(&self, samples: &Vec<u32>, i: usize) -> (r: Vec<u32>)
        requires
            self.inv(),
            samples@.len() <= MAX_BUFFER_SAMPLES,
            i < chunk_count(samples@.len() as int, self.chunk_len() as int),
        ensures
            r@ == padded_chunk_of(samples@, i as int, self.chunk_len() as int),
            r@.len() == self.chunk_len(),
    {
        proof {
            let len = samples@.len() as int;
            let c = self.chunk_size as int;
            vstd::arithmetic::div_mod::lemma_fundamental_div_mod(len + c - 1, c);
            vstd::arithmetic::mul::lemma_mul_inequality(
                i as int + 1,
                (len + c - 1) / c,
                c,
            );
        }
        let start = i * self.chunk_size;
        let end = if self.chunk_size <= samples.len() - start {
            start + self.chunk_size
        } else {
            samples.len()
        };
        let mut r: Vec<u32> = Vec::new();
        let mut k = start;
        while k < end
            invariant
                start <= k <= end <= samples@.len(),
                r@ == samples@.subrange(start as int, k as int),
            decreases end - k,
        {
            r.push(samples[k]);
            assert(r@ =~= samples@.subrange(start as int, k + 1));
            k += 1;
        }
        while r.len() < self.chunk_size
            invariant
                end - start <= r@.len() <= self.chunk_size,
                r@ == samples@.subrange(start as int, end as int) + Seq::<u32>::new(
                    (r@.len() - (end - start)) as nat,
                    |j: int| 0u32,
                ),
            decreases self.chunk_size - r@.len(),
        {
            r.push(0u32);
            assert(r@ =~= samples@.subrange(start as int, end as int) + Seq::<u32>::new(
                (r@.len() - (end - start)) as nat,
                |j: int| 0u32,
            ));
        }
        r
    }

    /// The output length estimated from the exact rate ratio for a batch of
    /// `input_len` samples.
    pub fn estimated_output_len(&self, input_len: usize) -> (r: u64)
        requires
            self.inv(),
            input_len <= MAX_BUFFER_SAMPLES,
        ensures
            r == estimated_len(input_len as int, self.in_rate() as int, self.out_rate() as int),
    {
        proof {
            vstd::arithmetic::mul::lemma_mul_upper_bound(
                input_len as int,
                MAX_BUFFER_SAMPLES as int,
                self.out_rate() as int,
                u32::MAX as int,
            );
        }
        let num = (input_len as u64) * (self.output_rate as u64) + (self.input_rate as u64) / 2;
        num / (self.input_rate as u64)
    }

    /// Reassembles the converted chunks into the final output: their
    /// concatenation, truncated to the length estimated from the rate ratio.
    /// An empty input yields an empty output whatever was handed back.
    ///
    /// `converted` holds, in order, what the filter returned for each padded
    /// chunk of the input batch of `input_len` samples; the caller converts
    /// the chunks cut by [`Resampler::padded_chunk`] and collects the
    /// results here.  Truncation discards the trailing samples the final
    /// padded chunk produced beyond the estimate; if the filter returned
    /// fewer samples than the estimate, everything is kept.
    pub fn resample(&self, input_len: usize, converted: &Vec<Vec<u32>>) -> (r: Vec<u32>)
        requires
            self.inv(),
            input_len <= MAX_BUFFER_SAMPLES,
        ensures
            ({
                let full = converted.deep_view().flatten();
                let est = estimated_len(
                    input_len as int,
                    self.in_rate() as int,
                    self.out_rate() as int,
                );
                r@ == if est <= full.len() {
                    full.take(est)
                } else {
                    full
                }
            }),
    {
        let ghost deep = converted.deep_view();
        if input_len == 0 {
            proof {
                lemma_estimated_len_of_zero(self.in_rate() as int, self.out_rate() as int);
            }
            assert(deep.flatten().take(0) =~= Seq::<u32>::empty());
            return Vec::new();
        }
        let mut out: Vec<u32> = Vec::new();
        let mut j: usize = 0;
        while j < converted.len()
            invariant
                j <= converted@.len(),
                deep == converted.deep_view(),
                out@ == deep.take(j as int).flatten(),
            decreases converted@.len() - j,
        {
            let piece = &converted[j];
            let ghost sofar = out@;
            let mut k: usize = 0;
            while k < piece.len()
                invariant
                    k <= piece@.len(),
                    out@ == sofar + piece@.take(k as int),
                decreases piece@.len() - k,
            {
                out.push(piece[k]);
                assert(out@ =~= sofar + piece@.take(k + 1));
                k += 1;
            }
            proof {
                assert(piece@.take(piece@.len() as int) =~= piece@);
                assert(deep.take(j + 1) =~= deep.take(j as int).push(deep[j as int]));
                deep.take(j as int).lemma_flatten_push(deep[j as int]);
            }
            j += 1;
        }
        proof {
            assert(deep.take(deep.len() as int) =~= deep);
        }
        let est = self.estimated_output_len(input_len);
        if est < out.len() as u64 {
            out.truncate(est as usize);
        }
        out
    }
}

/// An empty input batch is cut into no chunks, its estimated output length
/// is zero, and reassembly therefore yields an empty output, for every valid
/// rate pair and whatever the filter handed back.
pub proof fn lemma_resample_empty_input(
    input_rate: int,
    output_rate: int,
    converted: Seq<Seq<u32>>,
)
    requires
        input_rate >= 1,
        output_rate >= 1,
    ensures
        chunk_count(0, RESAMPLER_CHUNK_SIZE as int) == 0,
        estimated_len(0, input_rate, output_rate) == 0,
        converted.flatten().take(estimated_len(0, input_rate, output_rate)) == Seq::<u32>::empty(),
{
    lemma_estimated_len_of_zero(input_rate, output_rate);
    assert(converted.flatten().take(0) =~= Seq::<u32>::empty());
}

} // verus!

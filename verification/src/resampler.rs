//! Sample-rate conversion bookkeeping. The interpolation kernel itself is
//! floating-point signal processing and runs outside the verified core;
//! it consumes fixed-size input chunks and emits fixed-size output chunks.
//! Everything around it is arithmetic that is verified here: how many
//! samples to collect for a chunk, how much silence padding a short run
//! needs, how much of the output that padding forfeits, and how many
//! leading samples to discard so the kernel's pipeline delay never
//! reaches a listener.

use vstd::prelude::*;

use crate::format::{ChannelCount, SampleRate};

verus! {

/// The fixed numbers of one resampling pipeline: a kernel that turns
/// `chunk_in` input frames into `chunk_out` output frames, converting
/// `rate_in` to `rate_out`, on interleaved `channels`-channel audio.
/// The chunk sizes carry the rate ratio exactly.
pub struct ResamplerPlan {
    channels: ChannelCount,
    rate_in: SampleRate,
    rate_out: SampleRate,
    chunk_in: usize,
    chunk_out: usize,
}

/// One chunk's worth of work for the kernel: collect `take` samples, pad
/// with `padding` silent samples to fill the chunk, and keep only the
/// first `output_keep` samples of what the kernel returns — the rest
/// answers to injected padding, not to signal.
pub struct ChunkStep {
    pub take: usize,
    pub padding: usize,
    pub output_keep: usize,
}

impl ResamplerPlan {
    pub closed spec fn inv(&self) -> bool {
        &&& self.chunk_in > 0
        &&& self.chunk_out > 0
        &&& self.chunk_out * self.rate_in.spec_get() == self.chunk_in * self.rate_out.spec_get()
        &&& self.chunk_in * self.channels.spec_get() <= usize::MAX
        &&& self.chunk_out * self.channels.spec_get() <= usize::MAX
    }

    pub closed spec fn spec_channels(&self) -> u16 {
        self.channels.spec_get()
    }

    pub closed spec fn spec_rate_in(&self) -> u32 {
        self.rate_in.spec_get()
    }

    pub closed spec fn spec_rate_out(&self) -> u32 {
        self.rate_out.spec_get()
    }

    pub closed spec fn spec_chunk_in(&self) -> usize {
        self.chunk_in
    }

    pub closed spec fn spec_chunk_out(&self) -> usize {
        self.chunk_out
    }

    /// Accepts the kernel's fixed numbers. Rejected unless the chunk sizes
    /// are positive, in range for interleaved counting, and carry the
    /// rate ratio exactly: `chunk_out / chunk_in == rate_out / rate_in`.
    pub fn new(
        channels: ChannelCount,
        rate_in: SampleRate,
        rate_out: SampleRate,
        chunk_in: usize,
        chunk_out: usize,
    ) -> (r: Option<ResamplerPlan>)
        ensures
            r is Some <==> {
                &&& chunk_in > 0
                &&& chunk_out > 0
                &&& chunk_out * rate_in.spec_get() == chunk_in * rate_out.spec_get()
                &&& chunk_in * channels.spec_get() <= usize::MAX
                &&& chunk_out * channels.spec_get() <= usize::MAX
                &&& chunk_out * rate_in.spec_get() <= usize::MAX
            },
            r matches Some(plan) ==> {
                &&& plan.inv()
                &&& plan.spec_channels() == channels.spec_get()
                &&& plan.spec_rate_in() == rate_in.spec_get()
                &&& plan.spec_rate_out() == rate_out.spec_get()
                &&& plan.spec_chunk_in() == chunk_in
                &&& plan.spec_chunk_out() == chunk_out
            },
    {
        if chunk_in == 0 || chunk_out == 0 {
            return None;
        }
        let ch = channels.get() as usize;
        let cross_a = chunk_out.checked_mul(rate_in.get() as usize);
        let cross_b = chunk_in.checked_mul(rate_out.get() as usize);
        let in_samples = chunk_in.checked_mul(ch);
        let out_samples = chunk_out.checked_mul(ch);
        match (cross_a, cross_b, in_samples, out_samples) {
            (Some(a), Some(b), Some(_), Some(_)) => {
                if a == b {
                    Some(ResamplerPlan { channels, rate_in, rate_out, chunk_in, chunk_out })
                } else {
                    None
                }
            },
            _ => None,
        }
    }

    /// Samples one full input chunk holds.
    pub fn input_samples_needed(&self) -> (r: usize)
        requires
            self.inv(),
        ensures
            r == self.spec_chunk_in() * self.spec_channels(),
    {
        self.chunk_in * (self.channels.get() as usize)
    }

    /// Samples one full output chunk holds.
    pub fn output_samples(&self) -> (r: usize)
        requires
            self.inv(),
        ensures
            r == self.spec_chunk_out() * self.spec_channels(),
    {
        self.chunk_out * (self.channels.get() as usize)
    }

    /// Plans the next chunk given how many input samples the source still
    /// has. Nothing left means the stream has ended: no chunk. A short
    /// run is padded with silence to chunk size, and the padding's worth
    /// of output — `padding * rate_out / rate_in` samples — is cut off
    /// the chunk's tail so no injected silence is heard.
    pub fn plan_chunk(&self, available: usize) -> (r: Option<ChunkStep>)
        requires
            self.inv(),
        ensures
            r is Some <==> available > 0,
            r matches Some(step) ==> {
                &&& step.take == (if available <= self.spec_chunk_in() * self.spec_channels() {
                    available as int
                } else {
                    self.spec_chunk_in() * self.spec_channels()
                })
                &&& step.take + step.padding == self.spec_chunk_in() * self.spec_channels()
                &&& step.output_keep == self.spec_chunk_out() * self.spec_channels() - (
                step.padding * self.spec_rate_out()) / (self.spec_rate_in() as int)
                &&& step.output_keep <= self.spec_chunk_out() * self.spec_channels()
                &&& (step.padding == 0 ==> step.output_keep == self.spec_chunk_out()
                    * self.spec_channels())
            },
    {
        if available == 0 {
            return None;
        }
        let _positive_channels = self.channels.get();
        let needed = self.input_samples_needed();
        let take = if available <= needed {
            available
        } else {
            needed
        };
        let padding = needed - take;
        let out_samples = self.output_samples();
        proof {
            vstd::arithmetic::mul::lemma_mul_upper_bound(
                padding as int,
                usize::MAX as int,
                self.spec_rate_out() as int,
                u32::MAX as int,
            );
        }
        let forfeit_wide: u128 = ((padding as u128) * (self.rate_out.get() as u128)) / (
        self.rate_in.get() as u128);
        proof {
            lemma_forfeit_at_most_output(
                padding as int,
                self.spec_chunk_in() as int,
                self.spec_chunk_out() as int,
                self.spec_channels() as int,
                self.spec_rate_in() as int,
                self.spec_rate_out() as int,
            );
        }
        let forfeit: usize = forfeit_wide as usize;
        let output_keep = out_samples - forfeit;
        Some(ChunkStep { take, padding, output_keep })
    }

    /// Plans the next chunk for a format-changing source: collection may
    /// not run past the current span, whose samples all share one format.
    /// A known span shorter than the chunk is padded with silence like a
    /// stream end; when a span and a chunk end on the same sample, the
    /// span boundary decides, so a format change never lands mid-chunk.
    /// `span_len` of `None` means the span runs to the end of the stream.
    pub fn plan_span_chunk(&self, available: usize, span_len: Option<usize>) -> (r: Option<
        ChunkStep,
    >)
        requires
            self.inv(),
            span_len matches Some(s) ==> s > 0,
        ensures
            r is Some <==> available > 0,
            r matches Some(step) ==> {
                &&& step.take == spec_min3(
                    available as int,
                    match span_len {
                        Some(s) => s as int,
                        None => available as int,
                    },
                    self.spec_chunk_in() * self.spec_channels(),
                )
                &&& step.take + step.padding == self.spec_chunk_in() * self.spec_channels()
                &&& step.output_keep == self.spec_chunk_out() * self.spec_channels() - (
                step.padding * self.spec_rate_out()) / (self.spec_rate_in() as int)
                &&& step.output_keep <= self.spec_chunk_out() * self.spec_channels()
            },
    {
        let limit = match span_len {
            Some(s) => if s <= available {
                s
            } else {
                available
            },
            None => available,
        };
        let r = self.plan_chunk(limit);
        proof {
            if available > 0 {
                assert(limit > 0);
            }
        }
        r
    }

    /// How many leading output samples to discard after priming: the
    /// kernel's pipeline delay, measured in output frames, spread over
    /// the interleaved channels. Discarding exactly these makes the first
    /// sample a consumer sees answer the true start of the signal.
    pub fn delay_skip(&self, output_delay_frames: usize) -> (r: Option<usize>)
        requires
            self.inv(),
        ensures
            output_delay_frames * self.spec_channels() <= usize::MAX ==> r == Some(
                (output_delay_frames * self.spec_channels()) as usize,
            ),
            output_delay_frames * self.spec_channels() > usize::MAX ==> r is None,
    {
        output_delay_frames.checked_mul(self.channels.get() as usize)
    }
}

/// The least of three lengths.
pub open spec fn spec_min3(a: int, b: int, c: int) -> int {
    if a <= b && a <= c {
        a
    } else if b <= c {
        b
    } else {
        c
    }
}

/// How many output samples the chunked conversion emits for a stream of
/// `n` input samples: full chunks emit whole output chunks; the padded
/// tail chunk emits an output chunk less the padding's forfeit.
pub open spec fn spec_resampled_length(needed: int, out: int, rate_in: int, rate_out: int, n: int) -> int
    decreases n,
{
    if needed <= 0 || n <= 0 {
        0
    } else if n >= needed {
        out + spec_resampled_length(needed, out, rate_in, rate_out, n - needed)
    } else {
        out - ((needed - n) * rate_out) / rate_in
    }
}

/// Frame-count invariant of the resampler: a stream of `n` input samples
/// comes out as `n * rate_out / rate_in` samples, never under and at most
/// one over — so the emitted length is the rounded ideal length to within
/// one sample, whatever the ratio. `needed` and `out` are the input and
/// output chunk sizes in samples, which carry the rate ratio exactly.
pub proof fn lemma_resampled_length(needed: int, out: int, rate_in: int, rate_out: int, n: int)
    requires
        needed > 0,
        out > 0,
        rate_in > 0,
        rate_out > 0,
        out * rate_in == needed * rate_out,
        n >= 0,
    ensures
        (n * rate_out) / rate_in <= spec_resampled_length(needed, out, rate_in, rate_out, n) <= (
        n * rate_out) / rate_in + 1,
        n % needed == 0 ==> spec_resampled_length(needed, out, rate_in, rate_out, n) == (n
            * rate_out) / rate_in,
    decreases n,
{
    let total = spec_resampled_length(needed, out, rate_in, rate_out, n);
    if n == 0 {
        assert((0int * rate_out) / rate_in == 0) by {
            vstd::arithmetic::div_mod::lemma_basic_div(0, rate_in);
        }
        vstd::arithmetic::div_mod::lemma_mod_multiples_basic(0, needed);
    } else if n >= needed {
        lemma_resampled_length(needed, out, rate_in, rate_out, n - needed);
        // one full chunk shifts the ideal length by exactly one output chunk
        assert((n * rate_out) == ((n - needed) * rate_out) + out * rate_in) by (nonlinear_arith)
            requires
                out * rate_in == needed * rate_out,
        ;
        assert((((n - needed) * rate_out) + out * rate_in) / rate_in == ((n - needed) * rate_out)
            / rate_in + out) by {
            vstd::arithmetic::div_mod::lemma_hoist_over_denominator(
                (n - needed) * rate_out,
                out,
                rate_in as nat,
            );
        }
        assert(n % needed == (n - needed) % needed) by {
            vstd::arithmetic::div_mod::lemma_mod_multiples_vanish(-1, n, needed);
        }
    } else {
        // the padded tail: the emitted length times rate_in equals
        // n * rate_out plus the division remainder of the forfeit
        let forfeit_exact = (needed - n) * rate_out;
        let q = forfeit_exact / rate_in;
        let rem = forfeit_exact % rate_in;
        vstd::arithmetic::div_mod::lemma_fundamental_div_mod(forfeit_exact, rate_in);
        vstd::arithmetic::div_mod::lemma_mod_division_less_than_divisor(forfeit_exact, rate_in);
        assert(forfeit_exact >= 0) by (nonlinear_arith)
            requires
                needed - n >= 0,
                rate_out > 0,
                forfeit_exact == (needed - n) * rate_out,
        ;
        assert(out * rate_in == n * rate_out + forfeit_exact) by (nonlinear_arith)
            requires
                out * rate_in == needed * rate_out,
                forfeit_exact == (needed - n) * rate_out,
        ;
        assert(total == out - q);
        assert(total * rate_in == n * rate_out + rem) by (nonlinear_arith)
            requires
                total == out - q,
                forfeit_exact == rate_in * q + rem,
                out * rate_in == n * rate_out + forfeit_exact,
        ;
        assert(total >= 0) by (nonlinear_arith)
            requires
                total * rate_in == n * rate_out + rem,
                n >= 0,
                rate_out > 0,
                rem >= 0,
                rate_in > 0,
        ;
        assert(total == (n * rate_out + rem) / rate_in) by {
            vstd::arithmetic::div_mod::lemma_div_by_multiple(total, rate_in);
            assert((total * rate_in) / rate_in == total);
        }
        assert((n * rate_out) / rate_in <= total) by {
            vstd::arithmetic::div_mod::lemma_div_is_ordered(
                n * rate_out,
                n * rate_out + rem,
                rate_in,
            );
        }
        assert(total <= (n * rate_out + rate_in) / rate_in) by {
            vstd::arithmetic::div_mod::lemma_div_is_ordered(
                n * rate_out + rem,
                n * rate_out + rate_in,
                rate_in,
            );
        }
        assert((n * rate_out + rate_in) / rate_in == (n * rate_out) / rate_in + 1) by {
            vstd::arithmetic::div_mod::lemma_hoist_over_denominator(
                n * rate_out,
                1,
                rate_in as nat,
            );
        }
        assert(n % needed != 0) by {
            vstd::arithmetic::div_mod::lemma_small_mod(n as nat, needed as nat);
        }
    }
}

/// The padding's forfeit never exceeds one output chunk: padding stays
/// under one input chunk, and the chunk sizes carry the rate ratio.
proof fn lemma_forfeit_at_most_output(
    padding: int,
    chunk_in: int,
    chunk_out: int,
    channels: int,
    rate_in: int,
    rate_out: int,
)
    requires
        0 <= padding <= chunk_in * channels,
        chunk_in > 0,
        chunk_out > 0,
        channels > 0,
        rate_in > 0,
        rate_out > 0,
        chunk_out * rate_in == chunk_in * rate_out,
    ensures
        (padding * rate_out) / rate_in <= chunk_out * channels,
{
    assert(padding * rate_out <= chunk_in * channels * rate_out) by (nonlinear_arith)
        requires
            0 <= padding <= chunk_in * channels,
            rate_out > 0,
    ;
    assert(chunk_in * channels * rate_out == chunk_out * channels * rate_in) by (nonlinear_arith)
        requires
            chunk_out * rate_in == chunk_in * rate_out,
    ;
    assert((padding * rate_out) / rate_in <= (chunk_out * channels * rate_in) / rate_in) by {
        vstd::arithmetic::div_mod::lemma_div_is_ordered(
            padding * rate_out,
            chunk_out * channels * rate_in,
            rate_in,
        );
    }
    assert((chunk_out * channels * rate_in) / rate_in == chunk_out * channels) by {
        vstd::arithmetic::div_mod::lemma_div_by_multiple(chunk_out * channels, rate_in);
    }
}

} // verus!

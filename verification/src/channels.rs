//! Channel-count conversion: rewrites a stream frame by frame from one
//! channel count to another.
//!
//! Each input frame becomes exactly one output frame. Channel slots present
//! in both formats carry the input sample through; a second channel added to
//! a mono frame repeats the frame's only sample; any further added channels
//! are silent; extra input channels are discarded. The converter always
//! consumes a whole input frame per output frame, so it never emits a
//! partial frame.

use vstd::prelude::*;

use crate::format::ChannelCount;
use crate::sample::Sample;
use crate::source::FixedSource;

verus! {

/// One output frame built from one input frame `frame` (of the input's full
/// channel count), widened or narrowed to `cout` channels.
pub open spec fn convert_frame(frame: Seq<u32>, cout: int) -> Seq<u32> {
    Seq::new(
        cout as nat,
        |i: int|
            if i < frame.len() {
                frame[i]
            } else if i == 1 {
                frame[0]
            } else {
                0u32
            },
    )
}

/// The whole-stream conversion: every full `cin`-sample frame of `input`
/// becomes one `cout`-sample frame; a trailing partial frame emits nothing.
pub open spec fn convert_frames(input: Seq<u32>, cin: int, cout: int) -> Seq<u32>
    decreases input.len(),
{
    if cin <= 0 || cout <= 0 || input.len() < cin {
        Seq::empty()
    } else {
        convert_frame(input.take(cin), cout) + convert_frames(input.skip(cin), cin, cout)
    }
}

/// What a converter mid-frame still emits for the current output frame,
/// starting at output position `p`: the not-yet-consumed input samples of
/// the current frame stand at the front of `inp`.
spec fn frame_tail(p: int, rep: u32, inp: Seq<u32>, cin: int, cout: int) -> Seq<u32> {
    Seq::new(
        (cout - p) as nat,
        |i: int|
            {
                let j = p + i;
                if j < cin {
                    inp[j - p]
                } else if j == 1 {
                    rep
                } else {
                    0u32
                }
            },
    )
}

/// Frame alignment: whatever the input length and the channel pair, the
/// conversion emits an exact multiple of the output channel count — one
/// whole output frame per whole input frame, and never a partial frame.
pub proof fn lemma_frame_alignment(input: Seq<u32>, cin: int, cout: int)
    requires
        cin > 0,
        cout > 0,
    ensures
        convert_frames(input, cin, cout).len() == (input.len() as int / cin) * cout,
        convert_frames(input, cin, cout).len() as int % cout == 0,
    decreases input.len(),
{
    let n = input.len() as int;
    if n < cin {
        vstd::arithmetic::div_mod::lemma_basic_div(n, cin);
        vstd::arithmetic::div_mod::lemma_mod_multiples_basic(0, cout);
    } else {
        lemma_frame_alignment(input.skip(cin), cin, cout);
        assert(input.skip(cin).len() == n - cin);
        vstd::arithmetic::div_mod::lemma_div_plus_one(n - cin, cin);
        assert(n / cin == (n - cin) / cin + 1);
        vstd::arithmetic::div_mod::lemma_mod_multiples_basic(n / cin, cout);
        assert(convert_frames(input, cin, cout).len() == cout + ((n - cin) / cin) * cout);
        assert(((n - cin) / cin + 1) * cout == ((n - cin) / cin) * cout + cout) by (nonlinear_arith);
    }
}

/// The mono-to-stereo-to-mono round trip is lossless: duplicating each
/// sample into a second channel and then dropping that channel again
/// reproduces the original sample sequence exactly.
pub proof fn lemma_mono_stereo_round_trip(input: Seq<u32>)
    ensures
        convert_frames(convert_frames(input, 1, 2), 2, 1) == input,
    decreases input.len(),
{
    if input.len() == 0 {
        assert(convert_frames(convert_frames(input, 1, 2), 2, 1) =~= input);
    } else {
        lemma_mono_stereo_round_trip(input.skip(1));
        let wide = convert_frames(input, 1, 2);
        let frame = convert_frame(input.take(1), 2);
        assert(wide == frame + convert_frames(input.skip(1), 1, 2));
        assert(frame.len() == 2);
        assert(frame[0] == input[0] && frame[1] == input[0]);
        assert(wide.take(2) =~= frame);
        assert(wide.skip(2) =~= convert_frames(input.skip(1), 1, 2));
        assert(convert_frames(wide, 2, 1) == convert_frame(wide.take(2), 1) + convert_frames(
            wide.skip(2),
            2,
            1,
        ));
        assert(convert_frames(wide, 2, 1) =~= input);
    }
}

/// Converts the channel count of a runtime-fixed source.
pub struct ChannelConverter<S: FixedSource> {
    input: S,
    target: ChannelCount,
    channels_in: ChannelCount,
    sample_repeat: Option<Sample>,
    next_output_sample_pos: u16,
}

impl<S: FixedSource> ChannelConverter<S> {
    /// Input samples that still belong to the frame being emitted.
    spec fn frame_left(&self) -> int {
        let cin = self.channels_in.spec_get() as int;
        let p = self.next_output_sample_pos as int;
        if p == 0 {
            0
        } else if p < cin {
            cin - p
        } else {
            0
        }
    }

    /// Builds a converter towards `target` channels.
    ///
    /// The input must be well formed, at a frame boundary, and must hold
    /// whole frames only: the converter never emits a partial frame, so it
    /// relies on its input never ending inside one.
    pub fn new(input: S, target: ChannelCount) -> (r: ChannelConverter<S>)
        requires
            input.inv(),
            input.remaining().len() as int % (input.spec_channels() as int) == 0,
        ensures
            r.inv(),
            r.spec_channels() == target.spec_get(),
            r.spec_rate() == input.spec_rate(),
            r.spec_duration() == input.spec_duration(),
            r.remaining() == convert_frames(
                input.remaining(),
                input.spec_channels() as int,
                target.spec_get() as int,
            ),
    {
        let channels_in = input.channels();
        let _positive = channels_in.get();
        let _positive_out = target.get();
        ChannelConverter { input, target, channels_in, sample_repeat: None, next_output_sample_pos: 0 }
    }

    /// The wrapped source as the model sees it.
    pub closed spec fn spec_inner(&self) -> S {
        self.input
    }

    /// Hands the wrapped source back.
    pub fn into_inner(self) -> (r: S)
        ensures
            r == self.spec_inner(),
    {
        self.input
    }
}

impl<S: FixedSource> FixedSource for ChannelConverter<S> {
    closed spec fn inv(&self) -> bool {
        let cin = self.channels_in.spec_get() as int;
        let cout = self.target.spec_get() as int;
        let p = self.next_output_sample_pos as int;
        let inl = self.input.remaining().len() as int;
        &&& self.input.inv()
        &&& cin > 0
        &&& cout > 0
        &&& self.channels_in.spec_get() == self.input.spec_channels()
        &&& 0 <= p < cout
        &&& inl >= self.frame_left()
        &&& (inl - self.frame_left()) % cin == 0
        &&& (p > 0 ==> self.sample_repeat is Some)
    }

    closed spec fn spec_channels(&self) -> u16 {
        self.target.spec_get()
    }

    closed spec fn spec_rate(&self) -> u32 {
        self.input.spec_rate()
    }

    closed spec fn remaining(&self) -> Seq<u32> {
        let cin = self.channels_in.spec_get() as int;
        let cout = self.target.spec_get() as int;
        let p = self.next_output_sample_pos as int;
        let inp = self.input.remaining();
        if p == 0 {
            convert_frames(inp, cin, cout)
        } else {
            let rep = if self.sample_repeat is Some {
                self.sample_repeat.unwrap().bits
            } else {
                0u32
            };
            frame_tail(p, rep, inp, cin, cout) + convert_frames(
                inp.skip(self.frame_left()),
                cin,
                cout,
            )
        }
    }

    closed spec fn spec_duration(&self) -> Option<u64> {
        self.input.spec_duration()
    }

    fn channels(&self) -> (c: ChannelCount)
        ensures
            c.spec_get() == self.spec_channels(),
    {
        self.target
    }

    fn sample_rate(&self) -> (r: crate::format::SampleRate)
        ensures
            r.spec_get() == self.spec_rate(),
    {
        self.input.sample_rate()
    }

    fn total_duration(&self) -> (d: Option<u64>)
        ensures
            d == self.spec_duration(),
    {
        self.input.total_duration()
    }

    fn next(&mut self) -> (s: Option<Sample>) {
        let ghost pre = *self;
        let cin = self.channels_in.get();
        let cout = self.target.get();
        let p = self.next_output_sample_pos;
        proof {
            let icin = cin as int;
            let inl = pre.input.remaining().len() as int;
            if p == 0 && inl > 0 {
                // whole frames only, so a nonempty input holds a full frame
                if inl < icin {
                    vstd::arithmetic::div_mod::lemma_small_mod(inl as nat, icin as nat);
                }
                assert(inl >= icin);
            }
        }

        let result: Option<Sample>;
        if p == 0 {
            // frame boundary: pull the frame's first sample, keep it around
            // for a possible mono repeat
            let value = self.input.next();
            self.sample_repeat = value;
            result = value;
        } else if p < cin {
            // the input holds whole frames, so the rest of this frame is there
            let value = self.input.next();
            result = value;
        } else if p == 1 {
            result = self.sample_repeat;
        } else {
            result = Some(Sample::silence());
        }

        if result.is_none() {
            // the input ended at a frame boundary; nothing more will come
            proof {
                assert(pre.remaining() =~= Seq::<u32>::empty());
            }
            return None;
        }

        let new_pos = self.next_output_sample_pos + 1;
        if new_pos == cout {
            self.next_output_sample_pos = 0;
            if cin > cout {
                // discard the input channels the narrower output drops
                let ghost mid = *self;
                let ghost inp_mid = self.input.remaining();
                let mut k: u16 = cout;
                while k < cin
                    invariant
                        cout <= k <= cin,
                        self.input.inv(),
                        self.input.spec_channels() == mid.input.spec_channels(),
                        self.input.spec_rate() == mid.input.spec_rate(),
                        inp_mid.len() >= cin - cout,
                        self.input.remaining() == inp_mid.skip(k - cout),
                        self.target == mid.target,
                        self.channels_in == mid.channels_in,
                        self.next_output_sample_pos == mid.next_output_sample_pos,
                        self.sample_repeat == mid.sample_repeat,
                    decreases cin - k,
                {
                    let _ = self.input.next();
                    proof {
                        assert(inp_mid.skip(k - cout).skip(1) =~= inp_mid.skip(k + 1 - cout));
                    }
                    k = k + 1;
                }
            }
        } else {
            self.next_output_sample_pos = new_pos;
        }

        proof {
            let icin = cin as int;
            let icout = cout as int;
            let ip = p as int;
            let inp = pre.input.remaining();
            let inl = inp.len() as int;
            vstd::arithmetic::div_mod::lemma_mod_multiples_vanish(-1, inl, icin);
            assert(inp.skip(0) =~= inp);
            if ip == 0 {
                // a fresh frame: one frame's worth of conversion was started
                let rep = inp[0];
                assert(pre.remaining() == convert_frame(inp.take(icin), icout) + convert_frames(
                    inp.skip(icin),
                    icin,
                    icout,
                ));
                assert(pre.remaining()[0] == inp[0]);
                if icout == 1 {
                    assert(self.input.remaining() =~= inp.skip(icin));
                    assert(self.remaining() =~= pre.remaining().skip(1));
                } else {
                    assert(self.input.remaining() == inp.skip(1));
                    assert(frame_tail(1, rep, inp.skip(1), icin, icout) =~= convert_frame(
                        inp.take(icin),
                        icout,
                    ).skip(1));
                    assert(inp.skip(1).skip(self.frame_left()) =~= inp.skip(icin));
                    assert(self.remaining() =~= pre.remaining().skip(1));
                }
            } else if ip < icin {
                // mid-frame: the next input sample passes straight through
                let rep = pre.sample_repeat.unwrap().bits;
                assert(pre.remaining()[0] == inp[0]);
                if ip + 1 == icout {
                    // the output frame ends here; drop what the frame still held
                    assert(self.input.remaining() =~= inp.skip(pre.frame_left()));
                    assert(self.remaining() =~= pre.remaining().skip(1));
                } else {
                    assert(self.input.remaining() == inp.skip(1));
                    assert(frame_tail(ip + 1, rep, inp.skip(1), icin, icout) =~= frame_tail(
                        ip,
                        rep,
                        inp,
                        icin,
                        icout,
                    ).skip(1));
                    assert(inp.skip(1).skip(self.frame_left()) =~= inp.skip(pre.frame_left()));
                    assert(self.remaining() =~= pre.remaining().skip(1));
                }
            } else {
                // an added channel: repeat the mono sample or fill with silence
                let rep = pre.sample_repeat.unwrap().bits;
                assert(pre.remaining()[0] == frame_tail(ip, rep, inp, icin, icout)[0]);
                if ip + 1 == icout {
                    assert(self.remaining() =~= pre.remaining().skip(1));
                } else {
                    assert(frame_tail(ip + 1, rep, inp, icin, icout) =~= frame_tail(
                        ip,
                        rep,
                        inp,
                        icin,
                        icout,
                    ).skip(1));
                    assert(self.remaining() =~= pre.remaining().skip(1));
                }
            }
        }
        result
    }
}

} // verus!

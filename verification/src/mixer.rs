//! Mixers combine several same-format sources into one stream by averaging,
//! sample by sample, the sources that still have output; exhausted sources
//! are skipped, not zero-filled.
//!
//! The averaging itself is floating-point signal arithmetic and stays
//! outside the verified core: each pull hands back the samples to average
//! and which accumulator width the averaging must use. Everything around
//! it — which sources contribute, in what order, when the mix ends, when a
//! new source may join — is verified here.

use vstd::prelude::*;

use std::sync::mpsc::Receiver;

use crate::format::ChannelCount;
use crate::sample::Sample;
use crate::source::FixedSource;
use crate::transport;

verus! {

/// From this many sources up, the averaging accumulator must be double
/// width: a narrow accumulator would lose precision to mantissa overflow.
pub const DOUBLE_PRECISION_SOURCE_COUNT: usize = 20;

/// One pull's worth of mixing work: the samples of every source that still
/// had output, in source order, and the accumulator width to use.
pub struct MixStep {
    pub samples: Vec<Sample>,
    pub double_precision: bool,
}

/// The sample each still-live source contributes, in source order.
pub open spec fn contributions<S: FixedSource>(sources: Seq<S>) -> Seq<u32>
    decreases sources.len(),
{
    if sources.len() == 0 {
        Seq::empty()
    } else {
        let head = if sources[0].remaining().len() > 0 {
            seq![sources[0].remaining()[0]]
        } else {
            Seq::<u32>::empty()
        };
        head + contributions(sources.skip(1))
    }
}

/// Every source well formed.
pub open spec fn sources_wf<S: FixedSource>(sources: Seq<S>) -> bool {
    forall|i: int| 0 <= i < sources.len() ==> (#[trigger] sources[i]).inv()
}

/// Every source stepped once: each lost its head sample, or was already
/// exhausted and stayed so, with its format untouched.
pub open spec fn stepped<S: FixedSource>(pre: Seq<S>, post: Seq<S>) -> bool {
    &&& post.len() == pre.len()
    &&& forall|i: int|
        0 <= i < pre.len() ==> {
            &&& (#[trigger] post[i]).spec_channels() == pre[i].spec_channels()
            &&& post[i].spec_rate() == pre[i].spec_rate()
            &&& (pre[i].remaining().len() > 0 ==> post[i].remaining() == pre[i].remaining().skip(
                1,
            ))
            &&& (pre[i].remaining().len() == 0 ==> post[i].remaining() == pre[i].remaining())
        }
}

proof fn lemma_contributions_take_snoc<S: FixedSource>(sources: Seq<S>, i: int)
    requires
        0 <= i < sources.len(),
    ensures
        contributions(sources.take(i + 1)) == contributions(sources.take(i)) + (
        if sources[i].remaining().len() > 0 {
            seq![sources[i].remaining()[0]]
        } else {
            Seq::<u32>::empty()
        }),
    decreases i,
{
    let head = if sources[i].remaining().len() > 0 {
        seq![sources[i].remaining()[0]]
    } else {
        Seq::<u32>::empty()
    };
    if i == 0 {
        assert(sources.take(1).skip(1) =~= Seq::<S>::empty());
        assert(contributions(sources.take(1).skip(1)) =~= Seq::<u32>::empty());
        assert(sources.take(0) =~= Seq::<S>::empty());
        assert(contributions(sources.take(0)) =~= Seq::<u32>::empty());
        assert(contributions(sources.take(1)) =~= contributions(sources.take(0)) + head);
    } else {
        lemma_contributions_take_snoc(sources.skip(1), i - 1);
        assert(sources.take(i + 1).skip(1) =~= sources.skip(1).take(i));
        assert(sources.take(i).skip(1) =~= sources.skip(1).take(i - 1));
        assert(sources.skip(1)[i - 1] == sources[i]);
        assert(sources.take(i + 1)[0] == sources[0]);
        assert(sources.take(i)[0] == sources[0]);
        assert(contributions(sources.take(i + 1)) =~= contributions(sources.take(i)) + head);
    }
}

/// Advances every source in `sources` once and collects, in order, the
/// sample of each source that still had one.
fn pull_contributions<S: FixedSource>(sources: &mut Vec<S>) -> (out: Vec<Sample>)
    requires
        sources_wf(old(sources)@),
    ensures
        sources_wf(final(sources)@),
        stepped(old(sources)@, final(sources)@),
        out@.map_values(|s: Sample| s.bits) == contributions(old(sources)@),
{
    let ghost pre = sources@;
    let n = sources.len();
    let mut out: Vec<Sample> = Vec::new();
    let mut i: usize = 0;
    while i < n
        invariant
            0 <= i <= n,
            n == pre.len(),
            sources@.len() == pre.len(),
            sources_wf(sources@),
            forall|j: int| i <= j < pre.len() ==> sources@[j] == pre[j],
            stepped(pre.take(i as int), sources@.take(i as int)),
            out@.map_values(|s: Sample| s.bits) == contributions(pre.take(i as int)),
        decreases n - i,
    {
        let mut s = sources.remove(i);
        let pulled = s.next();
        match pulled {
            Some(sample) => out.push(sample),
            None => (),
        }
        sources.insert(i, s);
        proof {
            lemma_contributions_take_snoc(pre, i as int);
            assert(out@.map_values(|s: Sample| s.bits) =~= contributions(
                pre.take(i as int + 1),
            ));
            assert(sources@.take(i as int + 1) =~= sources@.take(i as int).push(sources@[
                i as int]));
            assert(forall|j: int|
                0 <= j < i ==> sources@.take(i as int + 1)[j] == sources@.take(i as int)[j]);
        }
        i = i + 1;
    }
    proof {
        assert(pre.take(n as int) =~= pre);
        assert(sources@.take(n as int) =~= sources@);
    }
    out
}

/// Each source's claimed duration, in source order.
fn collect_durations<S: FixedSource>(sources: &Vec<S>) -> (out: Vec<Option<u64>>)
    requires
        sources_wf(sources@),
    ensures
        out@ == sources@.map_values(|s: S| s.spec_duration()),
{
    let n = sources.len();
    let mut out: Vec<Option<u64>> = Vec::new();
    let mut i: usize = 0;
    while i < n
        invariant
            0 <= i <= n,
            n == sources@.len(),
            sources_wf(sources@),
            out@ == sources@.map_values(|s: S| s.spec_duration()).take(i as int),
        decreases n - i,
    {
        proof {
            assert(sources@[i as int].inv());
        }
        let d = sources[i].total_duration();
        out.push(d);
        proof {
            assert(out@ =~= sources@.map_values(|s: S| s.spec_duration()).take(i as int + 1));
        }
        i = i + 1;
    }
    proof {
        assert(sources@.map_values(|s: S| s.spec_duration()).take(n as int) =~= sources@.map_values(
            |s: S| s.spec_duration(),
        ));
    }
    out
}

/// The fixed-size mixer: its set of sources is chosen at construction and
/// never grows. Up to a threshold the averaging may run in single
/// precision; from the threshold up it must run in double precision.
pub struct ConstMixer<S: FixedSource> {
    sources: Vec<S>,
}

impl<S: FixedSource> ConstMixer<S> {
    pub closed spec fn inv(&self) -> bool {
        sources_wf(self.sources@)
    }

    pub closed spec fn spec_sources(&self) -> Seq<S> {
        self.sources@
    }

    pub fn new(sources: Vec<S>) -> (r: ConstMixer<S>)
        requires
            sources_wf(sources@),
        ensures
            r.inv(),
            r.spec_sources() == sources@,
    {
        ConstMixer { sources }
    }

    /// One pull: every source advances; the step holds the samples of those
    /// that still played, in source order. The mix ends — `None`, not
    /// silence — exactly when no source had output left.
    pub fn next(&mut self) -> (r: Option<MixStep>)
        requires
            old(self).inv(),
        ensures
            final(self).inv(),
            stepped(old(self).spec_sources(), final(self).spec_sources()),
            r is Some <==> contributions(old(self).spec_sources()).len() > 0,
            r matches Some(step) ==> {
                &&& step.samples@.map_values(|s: Sample| s.bits) == contributions(
                    old(self).spec_sources(),
                )
                &&& step.double_precision <==> old(self).spec_sources().len()
                    >= DOUBLE_PRECISION_SOURCE_COUNT
            },
    {
        let double_precision = self.sources.len() >= DOUBLE_PRECISION_SOURCE_COUNT;
        let samples = pull_contributions(&mut self.sources);
        if samples.len() == 0 {
            None
        } else {
            Some(MixStep { samples, double_precision })
        }
    }

    /// A mix plays for as long as its longest source, when every source
    /// reports a duration; else its length is unknown.
    pub fn total_duration(&self) -> (d: Option<u64>)
        requires
            self.inv(),
        ensures
            d == spec_mix_duration(self.spec_sources().map_values(|s: S| s.spec_duration())),
    {
        let durations = collect_durations(&self.sources);
        mix_duration(&durations)
    }
}

/// The runtime-sized mixer: one source type, any count, chosen at run time.
/// Because the count is unbounded, its averaging always runs in double
/// precision.
pub struct VecMixer<S: FixedSource> {
    sources: Vec<S>,
}

impl<S: FixedSource> VecMixer<S> {
    pub closed spec fn inv(&self) -> bool {
        sources_wf(self.sources@)
    }

    pub closed spec fn spec_sources(&self) -> Seq<S> {
        self.sources@
    }

    pub fn new(sources: Vec<S>) -> (r: VecMixer<S>)
        requires
            sources_wf(sources@),
        ensures
            r.inv(),
            r.spec_sources() == sources@,
    {
        VecMixer { sources }
    }

    /// As `ConstMixer::next`, but the accumulator is always double width.
    pub fn next(&mut self) -> (r: Option<MixStep>)
        requires
            old(self).inv(),
        ensures
            final(self).inv(),
            stepped(old(self).spec_sources(), final(self).spec_sources()),
            r is Some <==> contributions(old(self).spec_sources()).len() > 0,
            r matches Some(step) ==> {
                &&& step.samples@.map_values(|s: Sample| s.bits) == contributions(
                    old(self).spec_sources(),
                )
                &&& step.double_precision
            },
    {
        let samples = pull_contributions(&mut self.sources);
        if samples.len() == 0 {
            None
        } else {
            Some(MixStep { samples, double_precision: true })
        }
    }

    /// A mix plays for as long as its longest source, when every source
    /// reports a duration; else its length is unknown.
    pub fn total_duration(&self) -> (d: Option<u64>)
        requires
            self.inv(),
        ensures
            d == spec_mix_duration(self.spec_sources().map_values(|s: S| s.spec_duration())),
    {
        let durations = collect_durations(&self.sources);
        mix_duration(&durations)
    }
}

/// The dynamically growing mixer: sources arrive over a channel while the
/// mix plays. A new source is admitted only at a channel-frame boundary —
/// once every `channels` pulled samples — so the interleaving of frames is
/// never corrupted by a source joining mid-frame.
#[verifier::reject_recursive_types(S)]
pub struct ReceiverMixer<S: FixedSource> {
    active: Vec<S>,
    rx: Receiver<S>,
    sample_counter: u16,
    channels: ChannelCount,
}

impl<S: FixedSource> ReceiverMixer<S> {
    pub closed spec fn inv(&self) -> bool {
        &&& sources_wf(self.active@)
        &&& (self.sample_counter as int) < self.channels.spec_get() as int
        &&& forall|i: int|
            0 <= i < self.active@.len() ==> (#[trigger] self.active@[i]).spec_channels()
                == self.channels.spec_get()
    }

    pub closed spec fn spec_sources(&self) -> Seq<S> {
        self.active@
    }

    pub closed spec fn spec_channels(&self) -> u16 {
        self.channels.spec_get()
    }

    /// Whether the mixer stands between frames, where joining is allowed.
    pub closed spec fn spec_at_boundary(&self) -> bool {
        self.sample_counter == 0
    }

    /// Builds an initially empty mixer fed by `rx`.
    pub fn new(rx: Receiver<S>, channels: ChannelCount) -> (r: ReceiverMixer<S>)
        ensures
            r.inv(),
            r.spec_sources().len() == 0,
            r.spec_channels() == channels.spec_get(),
            r.spec_at_boundary(),
    {
        let _positive = channels.get();
        ReceiverMixer { active: Vec::new(), rx, sample_counter: 0, channels }
    }

    pub fn at_boundary(&self) -> (r: bool)
        ensures
            r == self.spec_at_boundary(),
    {
        self.sample_counter == 0
    }

    /// One non-blocking look at the channel. Nothing is known about the
    /// value; the pull loop validates it and hands it to `accept`.
    pub fn poll(&self) -> Option<S> {
        transport::channel_try_recv(&self.rx)
    }

    /// Admits one new source into the mix. Only allowed between frames and
    /// only for a source of the mixer's channel count.
    pub fn accept(&mut self, source: S)
        requires
            old(self).inv(),
            old(self).spec_at_boundary(),
            source.inv(),
            source.spec_channels() == old(self).spec_channels(),
        ensures
            final(self).inv(),
            final(self).spec_sources() == old(self).spec_sources().push(source),
            final(self).spec_channels() == old(self).spec_channels(),
            final(self).spec_at_boundary(),
    {
        self.active.push(source);
    }

    /// One pull: as the fixed mixers, always double precision, and the
    /// frame counter advances so that `accept` opens up again exactly at
    /// each frame boundary.
    pub fn next(&mut self) -> (r: Option<MixStep>)
        requires
            old(self).inv(),
        ensures
            final(self).inv(),
            final(self).spec_channels() == old(self).spec_channels(),
            stepped(old(self).spec_sources(), final(self).spec_sources()),
            r is Some <==> contributions(old(self).spec_sources()).len() > 0,
            r matches Some(step) ==> {
                &&& step.samples@.map_values(|s: Sample| s.bits) == contributions(
                    old(self).spec_sources(),
                )
                &&& step.double_precision
            },
            final(self).spec_at_boundary() <==> (old(self).sample_counter_model() + 1) as int
                == old(self).spec_channels() as int,
    {
        let samples = pull_contributions(&mut self.active);
        self.sample_counter = self.sample_counter + 1;
        if self.sample_counter == self.channels.get() {
            self.sample_counter = 0;
        }
        if samples.len() == 0 {
            None
        } else {
            Some(MixStep { samples, double_precision: true })
        }
    }

    /// How far into the current frame the mix stands.
    pub closed spec fn sample_counter_model(&self) -> u16 {
        self.sample_counter
    }

    /// A mix plays for as long as its longest source, when every source
    /// reports a duration; else its length is unknown.
    pub fn total_duration(&self) -> (d: Option<u64>)
        requires
            self.inv(),
        ensures
            d == spec_mix_duration(self.spec_sources().map_values(|s: S| s.spec_duration())),
    {
        let durations = collect_durations(&self.active);
        mix_duration(&durations)
    }
}

/// Turns a collection of same-format sources into a mixer over them.
pub trait ConstMix: Sized {
    type Mixer;

    /// Whether the collection is fit to mix.
    spec fn mixable(&self) -> bool;

    fn mix(self) -> Self::Mixer
        requires
            self.mixable(),
    ;
}

impl<S: FixedSource> ConstMix for Vec<S> {
    type Mixer = ConstMixer<S>;

    open spec fn mixable(&self) -> bool {
        sources_wf(self@)
    }

    fn mix(self) -> (r: ConstMixer<S>)
        ensures
            r.inv(),
            r.spec_sources() == self@,
    {
        ConstMixer::new(self)
    }
}

/// The duration of a mix: the longest of the sources' durations when every
/// source reports one, else unknown — a mix waits for its longest source.
pub open spec fn spec_mix_duration(durations: Seq<Option<u64>>) -> Option<u64>
    decreases durations.len(),
{
    if durations.len() == 0 {
        Some(0u64)
    } else {
        match (durations[0], spec_mix_duration(durations.skip(1))) {
            (Some(d), Some(rest)) => Some(if d >= rest { d } else { rest }),
            _ => None,
        }
    }
}

/// Folds the durations of a row of sources into the mix's duration.
pub fn mix_duration(durations: &Vec<Option<u64>>) -> (r: Option<u64>)
    ensures
        r == spec_mix_duration(durations@),
{
    let n = durations.len();
    let mut i: usize = n;
    let mut acc: Option<u64> = Some(0);
    while i > 0
        invariant
            0 <= i <= n,
            n == durations@.len(),
            acc == spec_mix_duration(durations@.skip(i as int)),
        decreases i,
    {
        i = i - 1;
        let here = durations[i];
        acc = match (here, acc) {
            (Some(d), Some(rest)) => Some(if d >= rest { d } else { rest }),
            _ => None,
        };
        proof {
            assert(durations@.skip(i as int).skip(1) =~= durations@.skip(i as int + 1));
        }
    }
    proof {
        assert(durations@.skip(0) =~= durations@);
    }
    acc
}

} // verus!

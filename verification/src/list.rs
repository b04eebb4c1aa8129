//! Playing a row of same-format sources one after another: the simplest
//! back-to-back composition, with the concatenation of the sources'
//! streams as its model.

use vstd::prelude::*;

use crate::format::{ChannelCount, SampleRate};
use crate::mixer::{sources_wf, ConstMixer};
use crate::sample::Sample;
use crate::source::FixedSource;

verus! {

/// The concatenation of the sources' streams, in order.
pub open spec fn list_stream<S: FixedSource>(sources: Seq<S>) -> Seq<u32>
    decreases sources.len(),
{
    if sources.len() == 0 {
        Seq::empty()
    } else {
        sources[0].remaining() + list_stream(sources.skip(1))
    }
}

/// The total playing time of a row of durations: their sum when every one
/// is known and the sum stays in range, else unknown.
pub open spec fn spec_list_duration(durations: Seq<Option<u64>>) -> Option<u64>
    decreases durations.len(),
{
    if durations.len() == 0 {
        Some(0u64)
    } else {
        match (durations[0], spec_list_duration(durations.skip(1))) {
            (Some(d), Some(rest)) => if d + rest <= u64::MAX {
                Some((d + rest) as u64)
            } else {
                None
            },
            _ => None,
        }
    }
}

/// A source playing a fixed row of same-format sources back to back.
pub struct UniformArrayList<S: FixedSource> {
    sources: Vec<S>,
    current: usize,
    channels: ChannelCount,
    sample_rate: SampleRate,
}

/// Builds source rows into the composed sources that play them.
pub trait CollectConstSource: Sized {
    type Mixed;

    type List;

    /// Whether the collection is fit to compose: well formed, nonempty,
    /// and of one shared format.
    spec fn collectable(&self) -> bool;

    fn collect_mixed(self) -> Self::Mixed
        requires
            self.collectable(),
    ;

    fn collect_list(self) -> Self::List
        requires
            self.collectable(),
    ;
}

impl<S: FixedSource> CollectConstSource for Vec<S> {
    type Mixed = ConstMixer<S>;

    type List = UniformArrayList<S>;

    open spec fn collectable(&self) -> bool {
        &&& sources_wf(self@)
        &&& self@.len() > 0
        &&& forall|i: int|
            0 <= i < self@.len() ==> {
                &&& (#[trigger] self@[i]).spec_channels() == self@[0].spec_channels()
                &&& self@[i].spec_rate() == self@[0].spec_rate()
            }
    }

    fn collect_mixed(self) -> (r: ConstMixer<S>)
        ensures
            r.inv(),
            r.spec_sources() == self@,
    {
        ConstMixer::new(self)
    }

    fn collect_list(self) -> (r: UniformArrayList<S>)
        ensures
            r.inv(),
            r.spec_channels() == self@[0].spec_channels(),
            r.spec_rate() == self@[0].spec_rate(),
            r.remaining() == list_stream(self@),
    {
        let channels = self[0].channels();
        let sample_rate = self[0].sample_rate();
        let r = UniformArrayList { sources: self, current: 0, channels, sample_rate };
        proof {
            assert(r.sources@.skip(0) =~= r.sources@);
        }
        r
    }
}

impl<S: FixedSource> FixedSource for UniformArrayList<S> {
    closed spec fn inv(&self) -> bool {
        &&& self.current <= self.sources@.len()
        &&& forall|i: int|
            self.current as int <= i < self.sources@.len() ==> {
                &&& (#[trigger] self.sources@[i]).inv()
                &&& self.sources@[i].spec_channels() == self.channels.spec_get()
                &&& self.sources@[i].spec_rate() == self.sample_rate.spec_get()
            }
    }

    closed spec fn spec_channels(&self) -> u16 {
        self.channels.spec_get()
    }

    closed spec fn spec_rate(&self) -> u32 {
        self.sample_rate.spec_get()
    }

    closed spec fn remaining(&self) -> Seq<u32> {
        list_stream(self.sources@.skip(self.current as int))
    }

    closed spec fn spec_duration(&self) -> Option<u64> {
        spec_list_duration(
            self.sources@.skip(self.current as int).map_values(|s: S| s.spec_duration()),
        )
    }

    fn channels(&self) -> (c: ChannelCount)
        ensures
            c.spec_get() == self.spec_channels(),
    {
        self.channels
    }

    fn sample_rate(&self) -> (r: SampleRate)
        ensures
            r.spec_get() == self.spec_rate(),
    {
        self.sample_rate
    }

    fn total_duration(&self) -> (d: Option<u64>)
        ensures
            d == self.spec_duration(),
    {
        let ghost row = self.sources@.skip(self.current as int).map_values(
            |s: S| s.spec_duration(),
        );
        let n = self.sources.len();
        let mut i: usize = n;
        let mut acc: Option<u64> = Some(0);
        while i > self.current
            invariant
                self.inv(),
                self.current <= i <= n,
                n == self.sources@.len(),
                row == self.sources@.skip(self.current as int).map_values(
                    |s: S| s.spec_duration(),
                ),
                acc == spec_list_duration(row.skip(i - self.current)),
            decreases i,
        {
            i = i - 1;
            proof {
                assert(self.sources@[i as int].inv());
            }
            let here = self.sources[i].total_duration();
            acc = match (here, acc) {
                (Some(d), Some(rest)) => if d <= u64::MAX - rest {
                    Some(d + rest)
                } else {
                    None
                },
                _ => None,
            };
            proof {
                assert(row.skip(i - self.current).skip(1) =~= row.skip(i + 1 - self.current));
                assert(row.skip(i - self.current)[0] == self.sources@[i as int].spec_duration());
            }
        }
        proof {
            assert(row.skip(0) =~= row);
        }
        acc
    }

    fn next(&mut self) -> (s: Option<Sample>) {
        loop
            invariant
                self.inv(),
                self.remaining() == old(self).remaining(),
                self.channels == old(self).channels,
                self.sample_rate == old(self).sample_rate,
                self.sources@.len() == old(self).sources@.len(),
            decreases self.sources@.len() - self.current,
        {
            let ghost at_entry = *self;
            if self.current >= self.sources.len() {
                proof {
                    assert(self.remaining() =~= Seq::<u32>::empty());
                }
                return None;
            }
            let idx = self.current;
            let mut s = self.sources.remove(idx);
            let pulled = s.next();
            self.sources.insert(idx, s);
            proof {
                assert(self.sources@ =~= at_entry.sources@.update(
                    idx as int,
                    self.sources@[idx as int],
                ));
                assert(self.sources@.skip(idx as int)[0] == self.sources@[idx as int]);
            }
            match pulled {
                Some(sample) => {
                    proof {
                        let tail = at_entry.sources@.skip(idx as int);
                        assert(tail[0] == at_entry.sources@[idx as int]);
                        assert(self.sources@.skip(idx as int).skip(1) =~= at_entry.sources@.skip(
                            idx as int,
                        ).skip(1));
                        assert(self.remaining() =~= at_entry.remaining().skip(1));
                    }
                    return Some(sample);
                },
                None => {
                    self.current = idx + 1;
                    proof {
                        assert(self.sources@.skip(idx as int).skip(1) =~= self.sources@.skip(
                            idx as int + 1,
                        ));
                        assert(at_entry.sources@.skip(idx as int).skip(1)
                            =~= at_entry.sources@.skip(idx as int + 1));
                        assert(self.sources@.skip(idx as int + 1) =~= at_entry.sources@.skip(
                            idx as int + 1,
                        ));
                        assert(self.remaining() =~= at_entry.remaining());
                    }
                },
            }
        }
    }
}

} // verus!

//! The streaming queue: a source that never ends, playing independently
//! submitted entries back to back in submission order and filling with
//! silence while nothing is queued.
//!
//! The queue half runs on the audio thread; the handle half is used from
//! control-plane threads to submit entries and to ask which entry is
//! playing. Entries travel from handle to queue over a non-blocking
//! channel; the pull loop moves what arrived into the queue with `poll`
//! and `push`, and `next` then plays from the queue's own buffer, whose
//! ordering is verified.

use vstd::prelude::*;

use std::collections::VecDeque;
use std::sync::atomic::{AtomicU32, Ordering};
use std::sync::mpsc::{Receiver, Sender};
use std::sync::Arc;

use crate::format::{ChannelCount, SampleRate};
use crate::sample::Sample;
use crate::source::FixedSource;
use crate::transport;

verus! {

/// Names one queue entry: the queue it was submitted to and its place there.
#[derive(Debug, Clone, Copy, PartialEq, Eq, Structural)]
pub struct SourceId {
    pub queue_id: u32,
    pub source_id: u32,
}

/// The consuming half of the queue is gone; nothing can be submitted.
#[derive(Debug, Clone, Copy, PartialEq, Eq, Structural)]
pub struct QueueDropped;

/// Why a submission was rejected.
#[derive(Debug, Clone, Copy, PartialEq, Eq, Structural)]
pub enum AddError {
    Dropped(QueueDropped),
    WrongChannelCount { expected: ChannelCount, got: ChannelCount },
    WrongSampleRate { expected: SampleRate, got: SampleRate },
}

/// What one entry contributes to the queue's output: its samples, each
/// tagged with the entry's id.
pub open spec fn entry_stream<S: FixedSource>(entry: (S, u32)) -> Seq<(u32, u32)> {
    entry.0.remaining().map_values(|b: u32| (b, entry.1))
}

/// What a row of buffered entries contributes, oldest first.
pub open spec fn entries_stream<S: FixedSource>(entries: Seq<(S, u32)>) -> Seq<(u32, u32)>
    decreases entries.len(),
{
    if entries.len() == 0 {
        Seq::empty()
    } else {
        entry_stream(entries[0]) + entries_stream(entries.skip(1))
    }
}

proof fn lemma_entries_stream_snoc<S: FixedSource>(entries: Seq<(S, u32)>, entry: (S, u32))
    ensures
        entries_stream(entries.push(entry)) == entries_stream(entries) + entry_stream(entry),
    decreases entries.len(),
{
    let p = entries.push(entry);
    if entries.len() == 0 {
        assert(p.skip(1) =~= Seq::<(S, u32)>::empty());
        assert(entries_stream(p.skip(1)) =~= Seq::<(u32, u32)>::empty());
        assert(p[0] == entry);
        assert(entries_stream(p) =~= entry_stream(entry) + entries_stream(p.skip(1)));
        assert(entries_stream(p) =~= entries_stream(entries) + entry_stream(entry));
    } else {
        lemma_entries_stream_snoc(entries.skip(1), entry);
        assert(p.skip(1) =~= entries.skip(1).push(entry));
        assert(p[0] == entries[0]);
        assert(entries_stream(p) =~= entry_stream(entries[0]) + entries_stream(p.skip(1)));
        assert(entries_stream(p) =~= entries_stream(entries) + entry_stream(entry));
    }
}

/// Hands out queue ids, each used once. The process keeps one allocator
/// for its lifetime, so no two queues share an id.
pub struct QueueIds {
    next: u32,
}

impl QueueIds {
    pub closed spec fn spec_next(&self) -> u32 {
        self.next
    }

    pub fn new() -> (r: QueueIds)
        ensures
            r.spec_next() == 1,
    {
        QueueIds { next: 1 }
    }

    /// The next unused id. Four billion queues exhaust the space; the
    /// caller keeps the count below that.
    pub fn fresh(&mut self) -> (r: u32)
        requires
            old(self).spec_next() < u32::MAX,
        ensures
            r == old(self).spec_next(),
            final(self).spec_next() == old(self).spec_next() + 1,
    {
        let id = self.next;
        self.next = self.next + 1;
        id
    }
}

/// The playing half: a source that never ends.
#[verifier::reject_recursive_types(S)]
pub struct UniformQueue<S: FixedSource> {
    channels: ChannelCount,
    sample_rate: SampleRate,
    current: Option<S>,
    current_source_id: u32,
    buffered: VecDeque<(S, u32)>,
    pending: Receiver<(S, u32)>,
    current_id: Arc<AtomicU32>,
}

/// The submitting half, usable from other threads.
#[verifier::reject_recursive_types(S)]
pub struct UniformQueueHandle<S: FixedSource> {
    channels: ChannelCount,
    sample_rate: SampleRate,
    queue_id: u32,
    next_id: u32,
    current_id: Arc<AtomicU32>,
    tx: Sender<(S, u32)>,
}

impl<S: FixedSource> UniformQueue<S> {
    /// Every held entry is well formed and of the queue's format.
    pub closed spec fn inv(&self) -> bool {
        &&& (self.current is Some ==> {
            &&& self.current.unwrap().inv()
            &&& self.current.unwrap().spec_channels() == self.channels.spec_get()
            &&& self.current.unwrap().spec_rate() == self.sample_rate.spec_get()
        })
        &&& forall|i: int|
            0 <= i < self.buffered@.len() ==> {
                &&& (#[trigger] self.buffered@[i]).0.inv()
                &&& self.buffered@[i].0.spec_channels() == self.channels.spec_get()
                &&& self.buffered@[i].0.spec_rate() == self.sample_rate.spec_get()
            }
    }

    pub closed spec fn spec_channels(&self) -> u16 {
        self.channels.spec_get()
    }

    pub closed spec fn spec_rate(&self) -> u32 {
        self.sample_rate.spec_get()
    }

    /// The id the queue last reported as playing.
    pub closed spec fn spec_current_id(&self) -> u32 {
        self.current_source_id
    }

    /// Everything the queue will play before it next falls silent, oldest
    /// first: the rest of the current entry, then each buffered entry in
    /// submission order, each sample tagged with its entry's id.
    pub closed spec fn stream(&self) -> Seq<(u32, u32)> {
        let head = match self.current {
            Some(c) => c.remaining().map_values(|b: u32| (b, self.current_source_id)),
            None => Seq::empty(),
        };
        head + entries_stream(self.buffered@)
    }

    /// Builds a queue and its submission handle for one fixed format.
    /// `queue_id` names this queue instance; the caller keeps ids unique.
    pub fn new(queue_id: u32, channels: ChannelCount, sample_rate: SampleRate) -> (r: (
        UniformQueue<S>,
        UniformQueueHandle<S>,
    ))
        ensures
            r.0.inv(),
            r.0.stream() == Seq::<(u32, u32)>::empty(),
            r.0.spec_channels() == channels.spec_get(),
            r.0.spec_rate() == sample_rate.spec_get(),
            r.0.spec_current_id() == 0,
            r.1.spec_channels() == channels.spec_get(),
            r.1.spec_rate() == sample_rate.spec_get(),
            r.1.spec_queue_id() == queue_id,
            r.1.spec_next_id() == 0,
    {
        let (tx, rx) = transport::channel_pair();
        let current_id = Arc::new(AtomicU32::new(0));
        let current_id_clone = transport::arc_clone(&current_id);
        let queue = UniformQueue {
            channels,
            sample_rate,
            current: None,
            current_source_id: 0,
            buffered: VecDeque::new(),
            pending: rx,
            current_id,
        };
        proof {
            assert(queue.stream() =~= Seq::<(u32, u32)>::empty());
        }
        let handle = UniformQueueHandle {
            channels,
            sample_rate,
            queue_id,
            next_id: 0,
            current_id: current_id_clone,
            tx,
        };
        (queue, handle)
    }

    pub fn channels(&self) -> (c: ChannelCount)
        ensures
            c.spec_get() == self.spec_channels(),
    {
        self.channels
    }

    pub fn sample_rate(&self) -> (r: SampleRate)
        ensures
            r.spec_get() == self.spec_rate(),
    {
        self.sample_rate
    }

    /// A queue never ends: its duration is always unknown.
    pub fn total_duration(&self) -> (d: Option<u64>)
        ensures
            d is None,
    {
        None
    }

    /// One non-blocking look at the channel: whatever a handle has sent
    /// and the queue has not yet taken. Nothing is known about the value;
    /// the pull loop validates it and hands it to `push`.
    pub fn poll(&self) -> Option<(S, u32)> {
        transport::channel_try_recv(&self.pending)
    }

    /// Appends one entry to the row of buffered entries; it will play after
    /// everything buffered before it.
    pub fn push(&mut self, source: S, id: u32)
        requires
            old(self).inv(),
            source.inv(),
            source.spec_channels() == old(self).spec_channels(),
            source.spec_rate() == old(self).spec_rate(),
        ensures
            final(self).inv(),
            final(self).spec_channels() == old(self).spec_channels(),
            final(self).spec_rate() == old(self).spec_rate(),
            final(self).spec_current_id() == old(self).spec_current_id(),
            final(self).stream() == old(self).stream() + source.remaining().map_values(
                |b: u32| (b, id),
            ),
    {
        let ghost pre_buffered = self.buffered@;
        self.buffered.push_back((source, id));
        proof {
            lemma_entries_stream_snoc(pre_buffered, (source, id));
            assert(final(self).stream() =~= old(self).stream() + source.remaining().map_values(
                |b: u32| (b, id),
            ));
        }
    }

    /// Pulls one sample: the head of the queue's stream, or silence when
    /// nothing is queued. A queue never signals end-of-stream.
    pub fn next(&mut self) -> (s: Sample)
        requires
            old(self).inv(),
        ensures
            final(self).inv(),
            final(self).spec_channels() == old(self).spec_channels(),
            final(self).spec_rate() == old(self).spec_rate(),
            old(self).stream().len() > 0 ==> {
                &&& s.bits == old(self).stream()[0].0
                &&& final(self).spec_current_id() == old(self).stream()[0].1
                &&& final(self).stream() == old(self).stream().skip(1)
            },
            old(self).stream().len() == 0 ==> {
                &&& s == Sample::spec_silence()
                &&& final(self).stream().len() == 0
            },
    {
        loop
            invariant
                self.inv(),
                self.stream() == old(self).stream(),
                self.channels == old(self).channels,
                self.sample_rate == old(self).sample_rate,
            decreases 2 * self.buffered@.len() + (if self.current is Some {
                1int
            } else {
                0int
            }),
        {
            let ghost at_entry = *self;
            if self.current.is_some() {
                let mut cur = self.current.take().unwrap();
                let pulled = cur.next();
                match pulled {
                    Some(sample) => {
                        self.current = Some(cur);
                        proof {
                            let cur_rem = at_entry.current.unwrap().remaining();
                            assert(cur_rem.map_values(
                                |b: u32| (b, at_entry.current_source_id),
                            ).skip(1) =~= cur_rem.skip(1).map_values(
                                |b: u32| (b, at_entry.current_source_id),
                            ));
                            assert(self.stream() =~= at_entry.stream().skip(1));
                        }
                        return sample;
                    },
                    None => {
                        // this entry is done; it is dropped and the row advances
                        proof {
                            assert(self.stream() =~= at_entry.stream());
                        }
                    },
                }
            }
            let taken = self.buffered.pop_front();
            match taken {
                Some((entry, id)) => {
                    self.current = Some(entry);
                    self.current_source_id = id;
                    self.current_id.store(id, Ordering::Relaxed);
                    proof {
                        assert(at_entry.buffered@[0] == (entry, id));
                        assert(at_entry.buffered@.subrange(
                            1,
                            at_entry.buffered@.len() as int,
                        ) =~= at_entry.buffered@.skip(1));
                        assert(self.stream() =~= at_entry.stream());
                    }
                },
                None => {
                    proof {
                        assert(self.stream() =~= at_entry.stream());
                        assert(self.stream().len() == 0);
                    }
                    return Sample::silence();
                },
            }
        }
    }

    /// The id of the entry whose samples `next` is handing out, or the
    /// last one played; zero before anything played.
    pub fn playing_id(&self) -> (r: u32)
        ensures
            r == self.spec_current_id(),
    {
        self.current_source_id
    }

    /// Drops the entry playing now, if any; the queue advances to what
    /// was submitted after it. The pull loop performs this when the
    /// current entry's abort flag has been raised.
    pub fn skip_current(&mut self)
        requires
            old(self).inv(),
        ensures
            final(self).inv(),
            final(self).spec_channels() == old(self).spec_channels(),
            final(self).spec_rate() == old(self).spec_rate(),
            final(self).spec_current_id() == old(self).spec_current_id(),
            final(self).stream() == entries_stream(old(self).buffered_entries()),
    {
        self.current = None;
        proof {
            assert(self.stream() =~= entries_stream(self.buffered@));
        }
    }

    /// The entries taken over from the transport and not yet played.
    pub closed spec fn buffered_entries(&self) -> Seq<(S, u32)> {
        self.buffered@
    }

    /// Pulls `n` samples in a row: the first `n` of the queue's stream,
    /// silence-filled once the stream runs out.
    pub fn pull_samples(&mut self, n: usize) -> (out: Vec<Sample>)
        requires
            old(self).inv(),
        ensures
            final(self).inv(),
            final(self).spec_channels() == old(self).spec_channels(),
            final(self).spec_rate() == old(self).spec_rate(),
            out@.len() == n,
            forall|i: int|
                0 <= i < n ==> (#[trigger] out@[i]).bits == (if i < old(self).stream().len() {
                    old(self).stream()[i].0
                } else {
                    0u32
                }),
    {
        let mut out: Vec<Sample> = Vec::new();
        let mut k: usize = 0;
        while k < n
            invariant
                k <= n,
                self.inv(),
                self.spec_channels() == old(self).spec_channels(),
                self.spec_rate() == old(self).spec_rate(),
                out@.len() == k,
                self.stream() == old(self).stream().skip(
                    if k <= old(self).stream().len() {
                        k as int
                    } else {
                        old(self).stream().len() as int
                    },
                ),
                forall|i: int|
                    0 <= i < k ==> (#[trigger] out@[i]).bits == (if i < old(
                        self,
                    ).stream().len() {
                        old(self).stream()[i].0
                    } else {
                        0u32
                    }),
            decreases n - k,
        {
            let s = self.next();
            out.push(s);
            proof {
                let full = old(self).stream();
                if k < full.len() {
                    assert(full.skip(k as int).skip(1) =~= full.skip(k as int + 1));
                } else {
                    assert(full.skip(full.len() as int).len() == 0);
                }
            }
            k = k + 1;
        }
        out
    }
}

impl<S: FixedSource> UniformQueueHandle<S> {
    pub closed spec fn spec_channels(&self) -> u16 {
        self.channels.spec_get()
    }

    pub closed spec fn spec_rate(&self) -> u32 {
        self.sample_rate.spec_get()
    }

    pub closed spec fn spec_queue_id(&self) -> u32 {
        self.queue_id
    }

    /// The id the next accepted entry gets.
    pub closed spec fn spec_next_id(&self) -> u32 {
        self.next_id
    }

    /// Submits one entry without blocking. A source of the wrong format is
    /// rejected with the mismatch; a matching source is handed to the
    /// queue and gets the next id, unless the queue is gone. Ids count up
    /// and wrap; an id is used up even when the queue turns out dropped.
    pub fn add(&mut self, source: S) -> (r: Result<SourceId, AddError>)
        requires
            source.inv(),
        ensures
            final(self).spec_channels() == old(self).spec_channels(),
            final(self).spec_rate() == old(self).spec_rate(),
            final(self).spec_queue_id() == old(self).spec_queue_id(),
            source.spec_channels() != old(self).spec_channels() ==> (r matches Err(
                AddError::WrongChannelCount { expected, got },
            ) && expected.spec_get() == old(self).spec_channels() && got.spec_get()
                == source.spec_channels() && final(self).spec_next_id() == old(
                self,
            ).spec_next_id()),
            source.spec_channels() == old(self).spec_channels() && source.spec_rate() != old(
                self,
            ).spec_rate() ==> (r matches Err(AddError::WrongSampleRate { expected, got })
                && expected.spec_get() == old(self).spec_rate() && got.spec_get()
                == source.spec_rate() && final(self).spec_next_id() == old(self).spec_next_id()),
            source.spec_channels() == old(self).spec_channels() && source.spec_rate() == old(
                self,
            ).spec_rate() ==> {
                &&& (r == Ok::<SourceId, AddError>(
                    SourceId {
                        queue_id: old(self).spec_queue_id(),
                        source_id: old(self).spec_next_id(),
                    },
                ) || r == Err::<SourceId, AddError>(AddError::Dropped(QueueDropped)))
                &&& final(self).spec_next_id() == (if old(self).spec_next_id() == u32::MAX {
                    0u32
                } else {
                    (old(self).spec_next_id() + 1) as u32
                })
            },
    {
        let got_channels = source.channels();
        if got_channels.get() != self.channels.get() {
            return Err(
                AddError::WrongChannelCount { expected: self.channels, got: got_channels },
            );
        }
        let got_rate = source.sample_rate();
        if got_rate.get() != self.sample_rate.get() {
            return Err(AddError::WrongSampleRate { expected: self.sample_rate, got: got_rate });
        }

        // ids wrap; a queue is not expected to ever see four billion entries
        let source_id = self.next_id;
        self.next_id = if self.next_id == u32::MAX {
            0
        } else {
            self.next_id + 1
        };

        match transport::channel_send(&self.tx, (source, source_id)) {
            Ok(()) => Ok(SourceId { queue_id: self.queue_id, source_id }),
            Err(_) => Err(AddError::Dropped(QueueDropped)),
        }
    }

    /// The id of the entry whose first sample was pulled last, or zero when
    /// nothing has played yet. The value is written by the audio thread;
    /// any load sees some recently stored id.
    pub fn current(&self) -> (r: SourceId)
        ensures
            r.queue_id == self.spec_queue_id(),
    {
        SourceId { queue_id: self.queue_id, source_id: self.current_id.load(Ordering::Relaxed) }
    }
}

} // verus!

use mpdhaj::buffer::SamplesBuffer;
use mpdhaj::format::{ChannelCount, SampleRate};
use mpdhaj::queue::{AddError, QueueDropped, UniformQueue};
use mpdhaj::sample::Sample;

fn buffer_of(channels: u16, rate: u32, values: &[f32]) -> SamplesBuffer {
    let data: Vec<Sample> = values.iter().map(|v| Sample::from_bits(v.to_bits())).collect();
    SamplesBuffer::new(ChannelCount::new(channels), SampleRate::new(rate), data)
}

/// Moves everything the handle sent into the queue's own buffer, as the
/// pull loop would.
fn drain_transport(queue: &mut UniformQueue<SamplesBuffer>) {
    while let Some((source, id)) = queue.poll() {
        queue.push(source, id);
    }
}

#[test]
fn queue_plays_entries_in_submission_order() {
    let (mut queue, mut handle) =
        UniformQueue::new(1, ChannelCount::new(1), SampleRate::new(8_000));
    let a = [0.1f32, 0.2, 0.3];
    let b = [0.4f32, 0.5, 0.6];
    let c = [0.7f32, 0.8, 0.9];
    handle.add(buffer_of(1, 8_000, &a)).unwrap();
    handle.add(buffer_of(1, 8_000, &b)).unwrap();
    handle.add(buffer_of(1, 8_000, &c)).unwrap();
    drain_transport(&mut queue);
    let out: Vec<f32> = queue
        .pull_samples(9)
        .into_iter()
        .map(|s| f32::from_bits(s.to_bits()))
        .collect();
    let expected: Vec<f32> = a.iter().chain(&b).chain(&c).copied().collect();
    assert_eq!(out, expected);
}

#[test]
fn fresh_queue_fills_with_silence_and_never_ends() {
    let (mut queue, _handle) =
        UniformQueue::<SamplesBuffer>::new(2, ChannelCount::new(2), SampleRate::new(44_100));
    for _ in 0..100 {
        let s = queue.next();
        assert_eq!(s.to_bits(), 0.0f32.to_bits());
    }
}

#[test]
fn exhausted_queue_returns_to_silence_without_ending() {
    let (mut queue, mut handle) =
        UniformQueue::new(3, ChannelCount::new(1), SampleRate::new(8_000));
    handle.add(buffer_of(1, 8_000, &[0.5, -0.5])).unwrap();
    drain_transport(&mut queue);
    let out = queue.pull_samples(5);
    assert_eq!(f32::from_bits(out[0].to_bits()), 0.5);
    assert_eq!(f32::from_bits(out[1].to_bits()), -0.5);
    for s in &out[2..] {
        assert_eq!(s.to_bits(), 0);
    }
}

#[test]
fn add_assigns_counting_ids_with_the_queue_id() {
    let (_queue, mut handle) =
        UniformQueue::new(7, ChannelCount::new(1), SampleRate::new(8_000));
    let first = handle.add(buffer_of(1, 8_000, &[0.1])).unwrap();
    let second = handle.add(buffer_of(1, 8_000, &[0.2])).unwrap();
    assert_eq!(first.queue_id, 7);
    assert_eq!(first.source_id, 0);
    assert_eq!(second.queue_id, 7);
    assert_eq!(second.source_id, 1);
}

#[test]
fn add_rejects_wrong_channel_count() {
    let (_queue, mut handle) =
        UniformQueue::new(1, ChannelCount::new(2), SampleRate::new(44_100));
    let result = handle.add(buffer_of(1, 44_100, &[0.1]));
    match result {
        Err(AddError::WrongChannelCount { expected, got }) => {
            assert_eq!(expected.get(), 2);
            assert_eq!(got.get(), 1);
        }
        other => panic!("expected a channel-count rejection, got {other:?}"),
    }
}

#[test]
fn add_rejects_wrong_sample_rate() {
    let (_queue, mut handle) =
        UniformQueue::new(1, ChannelCount::new(2), SampleRate::new(44_100));
    let result = handle.add(buffer_of(2, 48_000, &[0.1, 0.2]));
    match result {
        Err(AddError::WrongSampleRate { expected, got }) => {
            assert_eq!(expected.get(), 44_100);
            assert_eq!(got.get(), 48_000);
        }
        other => panic!("expected a sample-rate rejection, got {other:?}"),
    }
}

#[test]
fn add_reports_a_dropped_queue() {
    let (queue, mut handle) =
        UniformQueue::new(1, ChannelCount::new(1), SampleRate::new(8_000));
    drop(queue);
    let result = handle.add(buffer_of(1, 8_000, &[0.1]));
    assert_eq!(result, Err(AddError::Dropped(QueueDropped)));
}

#[test]
fn current_reports_the_playing_entry() {
    let (mut queue, mut handle) =
        UniformQueue::new(5, ChannelCount::new(1), SampleRate::new(8_000));
    assert_eq!(handle.current().source_id, 0);
    handle.add(buffer_of(1, 8_000, &[0.1, 0.2])).unwrap();
    handle.add(buffer_of(1, 8_000, &[0.3])).unwrap();
    drain_transport(&mut queue);
    queue.next();
    assert_eq!(handle.current().queue_id, 5);
    assert_eq!(handle.current().source_id, 0);
    queue.next();
    queue.next();
    assert_eq!(handle.current().source_id, 1);
}

#[test]
fn queue_duration_is_always_unknown() {
    let (queue, _handle) =
        UniformQueue::<SamplesBuffer>::new(1, ChannelCount::new(1), SampleRate::new(8_000));
    assert_eq!(queue.total_duration(), None);
}

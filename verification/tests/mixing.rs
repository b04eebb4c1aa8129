use mpdhaj::buffer::SamplesBuffer;
use mpdhaj::format::{ChannelCount, SampleRate};
use mpdhaj::mixer::{
    mix_duration, ConstMix, ConstMixer, MixStep, ReceiverMixer, VecMixer,
    DOUBLE_PRECISION_SOURCE_COUNT,
};
use mpdhaj::sample::Sample;
use mpdhaj::source::FixedSource;

fn buffer_of(channels: u16, values: &[f32]) -> SamplesBuffer {
    let data: Vec<Sample> = values.iter().map(|v| Sample::from_bits(v.to_bits())).collect();
    SamplesBuffer::new(ChannelCount::new(channels), SampleRate::new(44_100), data)
}

fn average(step: &MixStep) -> f32 {
    let n = step.samples.len();
    if step.double_precision {
        let sum: f64 = step.samples.iter().map(|s| f32::from_bits(s.to_bits()) as f64).sum();
        (sum / n as f64) as f32
    } else {
        let sum: f32 = step.samples.iter().map(|s| f32::from_bits(s.to_bits())).sum();
        sum / n as f32
    }
}

#[test]
fn mixer_with_no_sources_ends_immediately() {
    let mut mixer: ConstMixer<SamplesBuffer> = ConstMixer::new(Vec::new());
    assert!(mixer.next().is_none());
}

#[test]
fn mixer_ends_when_every_source_is_exhausted() {
    let sources = vec![buffer_of(1, &[0.1]), buffer_of(1, &[0.2])];
    let mut mixer = sources.mix();
    assert!(mixer.next().is_some());
    assert!(mixer.next().is_none());
    assert!(mixer.next().is_none());
}

#[test]
fn exhausted_sources_are_skipped_not_zero_filled() {
    let sources = vec![buffer_of(1, &[1.0]), buffer_of(1, &[1.0, 1.0])];
    let mut mixer = ConstMixer::new(sources);
    let first = mixer.next().unwrap();
    assert_eq!(first.samples.len(), 2);
    assert_eq!(average(&first), 1.0);
    let second = mixer.next().unwrap();
    assert_eq!(second.samples.len(), 1);
    assert_eq!(average(&second), 1.0);
}

#[test]
fn precision_switches_at_twenty_sources() {
    let nineteen: Vec<SamplesBuffer> = (0..19).map(|_| buffer_of(1, &[1.0])).collect();
    let mut mixer = ConstMixer::new(nineteen);
    let step = mixer.next().unwrap();
    assert!(!step.double_precision);
    assert_eq!(step.samples.len(), 19);

    let twenty: Vec<SamplesBuffer> = (0..20).map(|_| buffer_of(1, &[1.0])).collect();
    let mut mixer = ConstMixer::new(twenty);
    let step = mixer.next().unwrap();
    assert!(step.double_precision);
    assert_eq!(step.samples.len(), 20);
    assert_eq!(DOUBLE_PRECISION_SOURCE_COUNT, 20);
}

#[test]
fn single_precision_average_matches_double_within_epsilon() {
    let nineteen: Vec<SamplesBuffer> = (0..19).map(|_| buffer_of(1, &[1.0])).collect();
    let mut mixer = ConstMixer::new(nineteen);
    let step = mixer.next().unwrap();
    let narrow = average(&step);
    let wide_sum: f64 = step.samples.iter().map(|s| f32::from_bits(s.to_bits()) as f64).sum();
    let wide = wide_sum / step.samples.len() as f64;
    assert!((narrow as f64 - wide).abs() <= f32::EPSILON as f64);
}

#[test]
fn runtime_sized_mixer_always_uses_double_precision() {
    let two = vec![buffer_of(1, &[0.5]), buffer_of(1, &[0.25])];
    let mut mixer = VecMixer::new(two);
    let step = mixer.next().unwrap();
    assert!(step.double_precision);
    assert_eq!(average(&step), 0.375);
}

#[test]
fn receiver_mixer_accepts_sources_only_between_frames() {
    let (tx, rx) = std::sync::mpsc::channel();
    let mut mixer = ReceiverMixer::new(rx, ChannelCount::new(2));
    tx.send(buffer_of(2, &[0.5, 0.5, 0.5, 0.5])).unwrap();

    assert!(mixer.at_boundary());
    let arrived = mixer.poll().unwrap();
    assert_eq!(arrived.channels().get(), 2);
    mixer.accept(arrived);

    assert!(mixer.next().is_some());
    assert!(!mixer.at_boundary());
    assert!(mixer.next().is_some());
    assert!(mixer.at_boundary());
}

#[test]
fn empty_receiver_mixer_ends_not_silences() {
    let (_tx, rx) = std::sync::mpsc::channel::<SamplesBuffer>();
    let mut mixer = ReceiverMixer::new(rx, ChannelCount::new(1));
    assert!(mixer.next().is_none());
}

#[test]
fn mix_duration_is_the_longest_when_all_are_known() {
    assert_eq!(mix_duration(&vec![Some(10), Some(30), Some(20)]), Some(30));
    assert_eq!(mix_duration(&vec![Some(10), None, Some(20)]), None);
    assert_eq!(mix_duration(&vec![]), Some(0));
}

#[test]
fn a_mix_plays_as_long_as_its_longest_source() {
    // at 44100 Hz mono, three samples out-last one
    let sources = vec![buffer_of(1, &[0.1]), buffer_of(1, &[0.1, 0.2, 0.3])];
    let mixer = ConstMixer::new(sources);
    let longest = buffer_of(1, &[0.1, 0.2, 0.3]).total_duration();
    assert_eq!(mixer.total_duration(), longest);
}

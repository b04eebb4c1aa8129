use mpdhaj::buffer::SamplesBuffer;
use mpdhaj::channels::ChannelConverter;
use mpdhaj::format::{ChannelCount, SampleRate};
use mpdhaj::sample::Sample;
use mpdhaj::source::FixedSource;

fn buffer_of(channels: u16, values: &[f32]) -> SamplesBuffer {
    let data: Vec<Sample> = values.iter().map(|v| Sample::from_bits(v.to_bits())).collect();
    SamplesBuffer::new(ChannelCount::new(channels), SampleRate::new(44_100), data)
}

fn drain(source: &mut impl FnMut() -> Option<Sample>) -> Vec<f32> {
    let mut out = Vec::new();
    while let Some(s) = source() {
        out.push(f32::from_bits(s.to_bits()));
    }
    out
}

#[test]
fn mono_to_stereo_duplicates_each_sample() {
    let mono = buffer_of(1, &[0.25, -0.5, 1.0]);
    let mut conv = ChannelConverter::new(mono, ChannelCount::new(2));
    let out = drain(&mut || conv.next());
    assert_eq!(out, vec![0.25, 0.25, -0.5, -0.5, 1.0, 1.0]);
}

#[test]
fn mono_to_stereo_to_mono_round_trip_is_lossless() {
    let values = [0.25, -0.5, 1.0, 0.125, -1.0, 0.0, 0.75];
    let mono = buffer_of(1, &values);
    let stereo = ChannelConverter::new(mono, ChannelCount::new(2));
    let mut back = ChannelConverter::new(stereo, ChannelCount::new(1));
    let out = drain(&mut || back.next());
    assert_eq!(out, values.to_vec());
}

#[test]
fn upmix_beyond_two_channels_fills_with_silence() {
    let mono = buffer_of(1, &[0.5, -0.25]);
    let mut conv = ChannelConverter::new(mono, ChannelCount::new(4));
    let out = drain(&mut || conv.next());
    assert_eq!(out, vec![0.5, 0.5, 0.0, 0.0, -0.25, -0.25, 0.0, 0.0]);
}

#[test]
fn stereo_to_three_channels_adds_one_silent_slot() {
    let stereo = buffer_of(2, &[0.1, 0.2, 0.3, 0.4]);
    let mut conv = ChannelConverter::new(stereo, ChannelCount::new(3));
    let out = drain(&mut || conv.next());
    assert_eq!(out, vec![0.1, 0.2, 0.0, 0.3, 0.4, 0.0]);
}

#[test]
fn downmix_discards_extra_input_channels() {
    let three = buffer_of(3, &[0.1, 0.2, 0.3, 0.4, 0.5, 0.6]);
    let mut conv = ChannelConverter::new(three, ChannelCount::new(2));
    let out = drain(&mut || conv.next());
    assert_eq!(out, vec![0.1, 0.2, 0.4, 0.5]);
}

#[test]
fn emitted_length_is_a_multiple_of_output_channels() {
    for (cin, cout, frames) in [(1u16, 2u16, 5usize), (2, 1, 4), (3, 2, 7), (2, 5, 3), (4, 4, 2)] {
        let values: Vec<f32> = (0..cin as usize * frames).map(|i| i as f32 / 100.0).collect();
        let input = buffer_of(cin, &values);
        let mut conv = ChannelConverter::new(input, ChannelCount::new(cout));
        let out = drain(&mut || conv.next());
        assert_eq!(out.len() % cout as usize, 0, "cin={cin} cout={cout}");
        assert_eq!(out.len(), frames * cout as usize, "cin={cin} cout={cout}");
    }
}

#[test]
fn converter_reports_target_format_and_delegates_duration() {
    let stereo = buffer_of(2, &[0.0, 0.0, 0.0, 0.0]);
    let expected_duration = stereo.total_duration();
    let conv = ChannelConverter::new(stereo, ChannelCount::new(1));
    assert_eq!(conv.channels().get(), 1);
    assert_eq!(conv.sample_rate().get(), 44_100);
    assert_eq!(conv.total_duration(), expected_duration);
}

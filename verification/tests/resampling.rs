use mpdhaj::format::{ChannelCount, SampleRate};
use mpdhaj::resampler::ResamplerPlan;

use rubato::Resampler;

fn plan(channels: u16, rate_in: u32, rate_out: u32, chunk_in: usize, chunk_out: usize)
-> ResamplerPlan {
    ResamplerPlan::new(
        ChannelCount::new(channels),
        SampleRate::new(rate_in),
        SampleRate::new(rate_out),
        chunk_in,
        chunk_out,
    )
    .expect("chunk sizes carry the ratio exactly")
}

#[test]
fn plan_rejects_chunks_that_do_not_carry_the_ratio() {
    let r = ResamplerPlan::new(
        ChannelCount::new(1),
        SampleRate::new(48_000),
        SampleRate::new(16_000),
        4,
        2,
    );
    assert!(r.is_none());
    let r = ResamplerPlan::new(
        ChannelCount::new(1),
        SampleRate::new(48_000),
        SampleRate::new(16_000),
        0,
        0,
    );
    assert!(r.is_none());
}

#[test]
fn full_chunks_need_no_padding_and_keep_whole_output() {
    let p = plan(2, 48_000, 16_000, 3, 1);
    let step = p.plan_chunk(100).unwrap();
    assert_eq!(step.take, 6);
    assert_eq!(step.padding, 0);
    assert_eq!(step.output_keep, 2);
}

#[test]
fn short_tail_is_padded_and_the_padding_is_cut_from_the_output() {
    let p = plan(1, 48_000, 16_000, 6, 2);
    let step = p.plan_chunk(4).unwrap();
    assert_eq!(step.take, 4);
    assert_eq!(step.padding, 2);
    // two padded input samples answer to 2 * 16000 / 48000 = 0 whole
    // output samples; one more padded sample would cut one
    assert_eq!(step.output_keep, 2);
    let step = p.plan_chunk(1).unwrap();
    assert_eq!(step.padding, 5);
    assert_eq!(step.output_keep, 2 - (5 * 16_000) / 48_000);
}

#[test]
fn an_ended_stream_plans_no_chunk() {
    let p = plan(2, 44_100, 44_100, 8, 8);
    assert!(p.plan_chunk(0).is_none());
}

#[test]
fn delay_skip_spreads_the_frame_delay_over_channels() {
    let p = plan(2, 48_000, 16_000, 3, 1);
    assert_eq!(p.delay_skip(128), Some(256));
}

/// Drives a real windowed-sinc kernel chunk by chunk under the plan's
/// bookkeeping and checks the frame-count invariant against it: the
/// emitted length is the ideal resampled length to within one sample.
#[test]
fn chunked_resampling_preserves_length_for_three_ratios() {
    for (rate_in, rate_out) in [(48_000u32, 16_000u32), (16_000, 48_000), (44_100, 44_100)] {
        let channels = 1usize;
        let mut kernel = rubato::Fft::<f32>::new(
            rate_in as usize,
            rate_out as usize,
            1024,
            channels,
            rubato::FixedSync::Both,
        )
        .unwrap();
        let chunk_in = kernel.input_frames_next();
        let chunk_out = kernel.output_frames_next();
        let p = plan(channels as u16, rate_in, rate_out, chunk_in, chunk_out);

        let total_in: usize = 10_000;
        let signal: Vec<f32> = (0..total_in)
            .map(|i| (i as f32 * 0.05).sin())
            .collect();
        let mut consumed = 0usize;
        let mut emitted = 0usize;
        while let Some(step) = p.plan_chunk(total_in - consumed) {
            let mut input: Vec<f32> = signal[consumed..consumed + step.take].to_vec();
            input.resize(step.take + step.padding, 0.0);
            consumed += step.take;

            let in_buf = rubato::audioadapter_buffers::direct::InterleavedSlice::new(
                &input, channels, chunk_in,
            )
            .unwrap();
            let mut output = vec![0.0f32; chunk_out * channels];
            let mut out_buf = rubato::audioadapter_buffers::direct::InterleavedSlice::new_mut(
                &mut output, channels, chunk_out,
            )
            .unwrap();
            let (_, out_frames) = kernel.process_into_buffer(&in_buf, &mut out_buf, None).unwrap();
            assert_eq!(out_frames, chunk_out);
            emitted += step.output_keep;
        }
        let ideal = (total_in as u64 * rate_out as u64) / rate_in as u64;
        assert!(
            (emitted as i64 - ideal as i64).abs() <= 1,
            "{rate_in}->{rate_out}: emitted {emitted}, ideal {ideal}"
        );
    }
}

#[test]
fn span_collection_stops_at_the_span_boundary() {
    let p = plan(1, 48_000, 16_000, 6, 2);
    // the span ends after four samples: collect those, pad the rest
    let step = p.plan_span_chunk(100, Some(4)).unwrap();
    assert_eq!(step.take, 4);
    assert_eq!(step.padding, 2);
    // a span running to the end of the stream collects freely
    let step = p.plan_span_chunk(100, None).unwrap();
    assert_eq!(step.take, 6);
    assert_eq!(step.padding, 0);
    // a span ending exactly on the chunk boundary is a full chunk
    let step = p.plan_span_chunk(100, Some(6)).unwrap();
    assert_eq!(step.take, 6);
    assert_eq!(step.padding, 0);
    assert!(p.plan_span_chunk(0, Some(4)).is_none());
}

/// Feeds a full-amplitude constant signal through the kernel under the
/// plan and checks that, after the verified delay skip, the output is at
/// full volume from the very start: no silent lead-in survives.
#[test]
fn delay_skip_removes_the_silent_lead_in() {
    let channels = 1usize;
    let mut kernel = rubato::Fft::<f32>::new(48_000, 16_000, 1024, channels, rubato::FixedSync::Both)
        .unwrap();
    let chunk_in = kernel.input_frames_next();
    let chunk_out = kernel.output_frames_next();
    let p = plan(1, 48_000, 16_000, chunk_in, chunk_out);
    let skip = p.delay_skip(kernel.output_delay()).unwrap();

    let signal = vec![1.0f32; chunk_in * 8];
    let mut out: Vec<f32> = Vec::new();
    let mut consumed = 0usize;
    while let Some(step) = p.plan_chunk(signal.len() - consumed) {
        let mut input = signal[consumed..consumed + step.take].to_vec();
        input.resize(step.take + step.padding, 0.0);
        consumed += step.take;
        let in_buf = rubato::audioadapter_buffers::direct::InterleavedSlice::new(
            &input, channels, chunk_in,
        )
        .unwrap();
        let mut output = vec![0.0f32; chunk_out * channels];
        let mut out_buf = rubato::audioadapter_buffers::direct::InterleavedSlice::new_mut(
            &mut output, channels, chunk_out,
        )
        .unwrap();
        kernel.process_into_buffer(&in_buf, &mut out_buf, None).unwrap();
        out.extend_from_slice(&output[..step.output_keep]);
    }
    let settled = out.split_off(skip);
    // each millisecond of the settled stream carries full volume
    for (ms, window) in settled.chunks(16).enumerate().take(100) {
        let level: f32 = window.iter().map(|s| s.abs()).sum::<f32>() / window.len() as f32;
        assert!(level > 0.1, "volume about zero around {ms} ms");
    }
}

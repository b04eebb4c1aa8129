use mpdhaj::abort::AbortHandle;
use mpdhaj::buffer::SamplesBuffer;
use mpdhaj::format::{ChannelCount, SampleRate};
use mpdhaj::pausable::Pausable;
use mpdhaj::periodic::PeriodicTimer;
use mpdhaj::sample::Sample;
use mpdhaj::source::FixedSource;
use mpdhaj::stoppable::Stoppable;
use mpdhaj::take::{TakeDuration, TakeSamples};

fn buffer_of(values: &[f32]) -> SamplesBuffer {
    let data: Vec<Sample> = values.iter().map(|v| Sample::from_bits(v.to_bits())).collect();
    SamplesBuffer::new(ChannelCount::new(1), SampleRate::new(1_000), data)
}

#[test]
fn periodic_timer_computes_the_sample_period() {
    // 50 ms at 44100 Hz: round(44100 * 0.05) = 2205 samples
    let mut timer = PeriodicTimer::new(SampleRate::new(44_100), 50_000_000);
    assert!(timer.tick(), "the first tick is immediately due");
    for k in 0..2204 {
        assert!(!timer.tick(), "tick {k} must not be due");
    }
    assert!(timer.tick(), "one period later the callback is due again");
}

#[test]
fn periodic_timer_never_goes_below_one_sample() {
    let mut timer = PeriodicTimer::new(SampleRate::new(8_000), 0);
    assert!(timer.tick());
    assert!(timer.tick());
}

#[test]
fn abort_flag_rises_when_a_handle_drops() {
    let handle = AbortHandle::new();
    assert!(!handle.should_abort());
    let peer = handle.share();
    assert!(!handle.should_abort());
    drop(peer);
    assert!(handle.should_abort(), "dropping the peer is the abort signal");
    assert!(handle.should_abort(), "the flag is level-triggered and stays up");
}

#[test]
fn replacing_the_retained_handle_aborts_the_old_track() {
    // the player keeps one handle per in-flight track; retaining the new
    // track's handle drops the old one, which stops the old track
    let track_a = AbortHandle::new();
    let mut retained = Some(track_a.share());
    let track_b = AbortHandle::new();
    retained = Some(track_b.share());
    assert!(track_a.should_abort(), "track A must stop before B plays");
    assert!(!track_b.should_abort());
    drop(retained);
}

#[test]
fn stoppable_ends_the_stream_for_good() {
    let mut source = Stoppable::new(buffer_of(&[0.1, 0.2, 0.3]));
    assert!(source.next().is_some());
    source.stop();
    assert!(source.next().is_none());
    assert!(source.next().is_none());
}

#[test]
fn pausable_holds_still_and_resumes_exactly() {
    let mut source = Pausable::new(buffer_of(&[0.1, 0.2]), false);
    assert_eq!(f32::from_bits(source.next().unwrap().to_bits()), 0.1);
    source.set_paused(true);
    for _ in 0..5 {
        assert_eq!(source.next().unwrap().to_bits(), 0);
    }
    source.set_paused(false);
    assert_eq!(f32::from_bits(source.next().unwrap().to_bits()), 0.2);
    assert!(source.next().is_none());
}

#[test]
fn take_samples_cuts_after_the_budget() {
    let mut source = TakeSamples::new(buffer_of(&[0.1, 0.2, 0.3, 0.4]), 2);
    assert!(source.next().is_some());
    assert!(source.next().is_some());
    assert!(source.next().is_none());
}

#[test]
fn take_duration_rounds_up_to_whole_samples() {
    // 2.5 ms at 1000 Hz is 2.5 samples: three samples pass
    let mut source = TakeDuration::new(buffer_of(&[0.1, 0.2, 0.3, 0.4]), 2_500_000);
    let mut n = 0;
    while source.next().is_some() {
        n += 1;
    }
    assert_eq!(n, 3);
}

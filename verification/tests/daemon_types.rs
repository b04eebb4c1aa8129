use mpdhaj::buffer::SamplesBuffer;
use mpdhaj::cli::{Cli, Commands, RunArgs};
use mpdhaj::format::{ChannelCount, SampleRate};
use mpdhaj::list::CollectConstSource;
use mpdhaj::protocol::{subsystem, SubSystem, Volume};
use mpdhaj::sample::Sample;
use mpdhaj::scan::Scanner;
use mpdhaj::source::FixedSource;
use mpdhaj::util::WhatItertoolsIsMissing;

fn buffer_of(values: &[f32]) -> SamplesBuffer {
    let data: Vec<Sample> = values.iter().map(|v| Sample::from_bits(v.to_bits())).collect();
    SamplesBuffer::new(ChannelCount::new(1), SampleRate::new(1_000), data)
}

#[test]
fn volume_round_trips_in_range() {
    assert_eq!(Volume::new(0).get(), 0);
    assert_eq!(Volume::new(50).get(), 50);
    assert_eq!(Volume::new(100).get(), 100);
}

#[test]
fn subsystem_notification_line() {
    assert_eq!(subsystem(SubSystem::Database), "changed: database\nOK\n");
    assert_eq!(subsystem(SubSystem::StoredPlaylist), "changed: stored_playlist\nOK\n");
    assert_eq!(subsystem(SubSystem::Mixer), "changed: mixer\nOK\n");
}

#[test]
fn cli_proxy_only_when_proxying() {
    let cli = Cli { command: Commands::Proxy { address: "localhost:6600".to_string() }, port: 6600 };
    assert_eq!(cli.proxy(), Some("localhost:6600"));
    let run = Cli {
        command: Commands::Run(RunArgs {
            playlist_dir: "playlists".to_string(),
            music_dir: "music".to_string(),
        }),
        port: 6600,
    };
    assert_eq!(run.proxy(), None);
}

#[test]
fn scanner_builds() {
    let _probe: Scanner = Scanner::new();
}

#[test]
fn enumerate_ok_numbers_only_the_oks() {
    let input: Vec<Result<u32, bool>> = vec![Ok(41), Err(false), Ok(11)];
    let mut it = input.enumerate_ok();
    assert_eq!(it.next(), Some(Ok((0, 41))));
    assert_eq!(it.next(), Some(Err(false)));
    assert_eq!(it.next(), Some(Ok((1, 11))));
    assert_eq!(it.next(), None);
}

#[test]
fn list_plays_sources_back_to_back() {
    let sources = vec![buffer_of(&[0.1, 0.2]), buffer_of(&[0.3]), buffer_of(&[0.4, 0.5])];
    let mut list = sources.collect_list();
    let mut out = Vec::new();
    while let Some(s) = list.next() {
        out.push(f32::from_bits(s.to_bits()));
    }
    assert_eq!(out, vec![0.1, 0.2, 0.3, 0.4, 0.5]);
}

#[test]
fn list_duration_is_the_sum_of_known_durations() {
    // at 1000 Hz mono, one sample is one millisecond
    let sources = vec![buffer_of(&[0.0, 0.0]), buffer_of(&[0.0, 0.0, 0.0])];
    let list = sources.collect_list();
    assert_eq!(list.total_duration(), Some(5_000_000));
}

#[test]
fn buffer_reports_its_format_and_duration() {
    let data: Vec<Sample> = (0..8).map(|_| Sample::silence()).collect();
    let b = SamplesBuffer::new(ChannelCount::new(2), SampleRate::new(4), data);
    assert_eq!(b.channels().get(), 2);
    assert_eq!(b.sample_rate().get(), 4);
    // 8 samples at 4 Hz on 2 channels: one second
    assert_eq!(b.total_duration(), Some(1_000_000_000));
}

use music_minder::player::media_controls::{
    command_for_event, cover_url, keeps_running, ControlEvent, MediaControlCommand,
    MediaControlsMetadata, MediaControlsUpdate, SeekDirection,
};
use music_minder::player::simd::{ns_per_1024_samples, simd_level_for, SimdLevel};
use music_minder::player::state::{format_duration, AudioSharedState};
use music_minder::player::{AudioPerformanceStats, PlayerError, VisualizationMode};
use std::time::Duration;
use music_minder::player::state::{debug_summary, format_info, quality_emoji, quality_label, PlaybackStatus};

#[test]
fn test_format_duration() {
    assert_eq!(format_duration(Duration::from_secs(0).as_secs()), "0:00");
    assert_eq!(format_duration(Duration::from_secs(65).as_secs()), "1:05");
    assert_eq!(format_duration(Duration::from_secs(3661).as_secs()), "1:01:01");
}

#[test]
fn test_metadata_builder() {
    let meta = MediaControlsMetadata::with_title("Test Song")
        .artist("Test Artist")
        .album("Test Album")
        .duration(Duration::from_secs(180));

    assert_eq!(meta.title.as_deref(), Some("Test Song"));
    assert_eq!(meta.artist.as_deref(), Some("Test Artist"));
    assert_eq!(meta.album.as_deref(), Some("Test Album"));
    assert_eq!(meta.duration, Some(Duration::from_secs(180)));
}

#[test]
fn test_error_type_to_string() {}

#[test]
fn control_events_become_player_commands() {
    assert!(matches!(command_for_event(ControlEvent::Toggle), Some(MediaControlCommand::Toggle)));
    assert!(matches!(
        command_for_event(ControlEvent::SeekBy(SeekDirection::Backward, Duration::from_secs(5))),
        Some(MediaControlCommand::SeekRelative(SeekDirection::Backward))
    ));
    match command_for_event(ControlEvent::SetPosition(Duration::from_secs(42))) {
        Some(MediaControlCommand::Seek(d)) => assert_eq!(d, Duration::from_secs(42)),
        other => panic!("unexpected {:?}", other),
    }
    assert!(command_for_event(ControlEvent::Quit).is_none());
    assert!(command_for_event(ControlEvent::SetVolume).is_none());
}

#[test]
fn cover_url_uses_forward_slashes() {
    assert_eq!(cover_url("C:\\covers\\a.jpg"), "file://C:/covers/a.jpg");
    assert_eq!(cover_url("/covers/a.jpg"), "file:///covers/a.jpg");
    assert!(!keeps_running(&MediaControlsUpdate::Shutdown));
    assert!(keeps_running(&MediaControlsUpdate::Position(Duration::from_secs(1))));
}

fn stats(underruns: u32, peak: u32) -> AudioPerformanceStats {
    AudioPerformanceStats {
        callback_count: 0,
        samples_processed: 0,
        peak_callback_us: peak,
        underruns,
        buffer_fill_percent: 0,
        simd_level: "AVX2 (256-bit)",
    }
}

#[test]
fn performance_health_ratings() {
    assert_eq!(stats(0, 500).health_rating(), "Excellent");
    assert_eq!(stats(0, 4999).health_rating(), "Good");
    assert_eq!(stats(3, 100).health_rating(), "Fair");
    assert_eq!(stats(5, 100).health_rating(), "Poor");
    assert!(stats(0, 4999).is_healthy());
    assert!(!stats(1, 10).is_healthy());
    assert_eq!(stats(0, 999).callback_timing_micros(), Some("999µs peak".to_string()));
    assert_eq!(stats(0, 1000).callback_timing_micros(), None);
}

#[test]
fn simd_level_choice_and_names() {
    assert_eq!(simd_level_for(true, true), SimdLevel::Avx2);
    assert_eq!(simd_level_for(false, true), SimdLevel::Sse41);
    assert_eq!(simd_level_for(false, false), SimdLevel::Scalar);
    assert_eq!(SimdLevel::Avx512.name(), "AVX-512 (512-bit)");
}

#[test]
fn player_errors_and_modes() {
    assert_eq!(PlayerError::FileNotFound("x.mp3".to_string()).message(), "File not found: x.mp3");
    assert_eq!(PlayerError::ChannelClosed.message(), "Audio channel closed");
    assert_eq!(VisualizationMode::default(), VisualizationMode::Off);
}

#[test]
fn quality_labels_and_format_line() {
    assert_eq!(quality_label(true, 24, 96000), "Hi-Res Lossless");
    assert_eq!(quality_label(true, 24, 48000), "Lossless 24-bit");
    assert_eq!(quality_label(true, 16, 44100), "Lossless");
    assert_eq!(quality_label(false, 24, 96000), "Lossy");
    assert_eq!(quality_emoji(true, 16), "💿");
    assert_eq!(format_info("FLAC", 44100, 2, 16, true), "FLAC • 44100Hz / 2ch / 16bit • Lossless");
    assert_eq!(debug_summary(PlaybackStatus::Playing, 83, 296), "Playing@1:23/4:56");
}

#[test]
fn benchmark_time_is_scaled_to_1024_samples() {
    // 100000 runs over 4096 samples took 2.05 s: 20500 ns a run, 5125 ns per 1024 samples.
    assert_eq!(ns_per_1024_samples(2_050_000_000, 100_000, 4096), 5125);
    // Each division rounds down: 1999 / 1000 = 1, 1 * 1024 / 4096 = 0.
    assert_eq!(ns_per_1024_samples(1999, 1000, 4096), 0);
    assert_eq!(ns_per_1024_samples(0, 7, 3), 0);
}

#[test]
fn shared_state_counters() {
    let shared = AudioSharedState::new();
    assert!(!shared.is_playing());
    shared.set_playing(true);
    assert!(shared.is_playing());
    shared.start_flush();
    assert!(shared.is_flushing());
    shared.stop_flush();
    assert!(!shared.is_flushing());
    shared.set_position(Duration::from_millis(1500));
    assert_eq!(shared.position(), Duration::from_millis(1500));
    assert_eq!(shared.increment_underruns(), 1);
    assert_eq!(shared.increment_underruns(), 2);
    shared.record_callback(512, 300);
    shared.record_callback(512, 120);
    assert_eq!(shared.callback_count(), 2);
    assert_eq!(shared.samples_processed(), 1024);
    assert_eq!(shared.peak_callback_us(), 300);
    shared.set_buffer_fill(250);
    assert_eq!(shared.buffer_fill(), 100);
    shared.reset_stats();
    assert_eq!(shared.underruns(), 0);
    assert_eq!(shared.callback_count(), 0);
    assert_eq!(shared.peak_callback_us(), 0);
}

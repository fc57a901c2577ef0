use music_minder::db::TrackWithMetadata;
use music_minder::health::gardener::{assess_track_quality, GardenerConfig};
use music_minder::health::hash::{file_hash, has_changed, hash_span, to_hex, HashSpan};
use music_minder::health::quality::{assess_quality, MatchConfidence, QualityFlags, QualityTier};
use music_minder::health::{summarize_health, ErrorType, HealthStatus};
use music_minder::health::gardener::{gardener_step, GardenerAction, GardenerCommand, GardenerEvent, GardenerInput};
use music_minder::health::classify_enrichment_error;

#[test]
fn test_health_status_roundtrip() {
    for status in [
        HealthStatus::Healthy,
        HealthStatus::Error,
        HealthStatus::NoMatch,
        HealthStatus::LowConfidence,
        HealthStatus::Unknown,
    ] {
        assert_eq!(status.as_str().parse::<HealthStatus>().unwrap(), status);
    }
}

#[test]
fn test_error_type_roundtrip() {
    for error_type in [
        ErrorType::DecodeError,
        ErrorType::EmptyFingerprint,
        ErrorType::IoError,
        ErrorType::Timeout,
        ErrorType::ApiError,
    ] {
        assert_eq!(error_type.as_str().parse::<ErrorType>().unwrap(), error_type);
    }
}

#[test]
fn unknown_names_read_as_unknown_or_other() {
    assert_eq!("bogus".parse::<HealthStatus>().unwrap(), HealthStatus::Unknown);
    assert_eq!("bogus".parse::<ErrorType>().unwrap(), ErrorType::Other("bogus".to_string()));
    assert_eq!(ErrorType::Other("disk full".to_string()).as_str(), "disk full");
    assert_eq!(HealthStatus::NoMatch.emoji(), "?");
}

#[test]
fn test_quality_flags_roundtrip() {
    let flags = QualityFlags::MISSING_ARTIST() | QualityFlags::LOW_CONFIDENCE();
    let bits = flags.to_bits_i64();
    let restored = QualityFlags::from_bits_i64(bits);
    assert_eq!(flags, restored);
}

#[test]
fn test_excellent_quality() {
    let quality = assess_quality(
        "Bohemian Rhapsody",
        Some("Queen"),
        Some("A Night at the Opera"),
        Some(1975),
        Some(11),
        "queen_bohemian_rhapsody",
        Some("mb-123"),
        MatchConfidence::High,
    );
    assert!(quality.flags.is_empty() || quality.flags == QualityFlags::empty());
    assert!(quality.score >= 90);
    assert_eq!(quality.tier(), QualityTier::Excellent);
}

#[test]
fn test_missing_artist() {
    let quality = assess_quality(
        "Some Song",
        None,
        Some("Album"),
        Some(2020),
        Some(1),
        "some_song",
        Some("mb-456"),
        MatchConfidence::High,
    );
    assert!(quality.flags.contains(QualityFlags::MISSING_ARTIST()));
    assert!(quality.needs_attention());
}

#[test]
fn test_title_is_filename() {
    let quality = assess_quality(
        "01 - Track Name",
        Some("Artist"),
        Some("Album"),
        Some(2020),
        Some(1),
        "01 - Track Name",
        None,
        MatchConfidence::Unchecked,
    );
    assert!(quality.flags.contains(QualityFlags::TITLE_IS_FILENAME()));
}

#[test]
fn test_generic_metadata() {
    let quality = assess_quality(
        "Track 01",
        Some("Unknown Artist"),
        Some("Album"),
        None,
        None,
        "track01",
        None,
        MatchConfidence::Unchecked,
    );
    assert!(quality.flags.contains(QualityFlags::GENERIC_METADATA()));
    assert!(quality.needs_attention());
}

#[test]
fn quality_score_is_clamped_at_zero() {
    let quality = assess_quality(
        "Track 01",
        None,
        None,
        None,
        None,
        "track_01",
        None,
        MatchConfidence::Low,
    );
    assert_eq!(quality.score, 0);
    assert_eq!(quality.tier(), QualityTier::Poor);
    assert_eq!(quality.tier().color_name(), "error");
}

#[test]
fn test_default_config() {
    let config = GardenerConfig::default();
    assert_eq!(config.batch_size, 10);
    assert!(!config.enable_fingerprinting);
}

#[test]
fn default_config_intervals() {
    let config = GardenerConfig::default();
    assert_eq!(config.check_interval, std::time::Duration::from_secs(30));
    assert_eq!(config.track_delay, std::time::Duration::from_millis(100));
}

fn track(title: &str, path: &str, artist: &str, album: &str, year: Option<i64>, number: Option<i64>) -> TrackWithMetadata {
    TrackWithMetadata {
        id: 1,
        title: title.to_string(),
        path: path.to_string(),
        duration: Some(354),
        track_number: number,
        artist_name: artist.to_string(),
        album_name: album.to_string(),
        year,
        quality_score: None,
        quality_flags: None,
    }
}

#[test]
fn track_quality_counts_a_title_matching_the_file_name() {
    let t = track(
        "Bohemian Rhapsody",
        "/music/queen/bohemian_rhapsody.mp3",
        "Queen",
        "A Night at the Opera",
        Some(1975),
        Some(11),
    );
    let quality = assess_track_quality(&t);
    assert_eq!(quality.score, 60);
    assert!(quality.flags.contains(QualityFlags::TITLE_IS_FILENAME()));
    assert!(quality.flags.contains(QualityFlags::NO_MUSICBRAINZ_ID()));
    assert!(quality.flags.contains(QualityFlags::NEVER_CHECKED()));
}

#[test]
fn test_assess_poor_quality() {
    let t = track("track01", "/music/track01.mp3", "Unknown Artist", "Unknown Album", None, None);
    let quality = assess_track_quality(&t);
    assert!(quality.score < 50);
    assert!(quality.flags.contains(QualityFlags::MISSING_ARTIST()));
    assert!(quality.flags.contains(QualityFlags::MISSING_ALBUM()));
    assert!(quality.flags.contains(QualityFlags::TITLE_IS_FILENAME()));
}

#[test]
fn summary_adds_counts_per_status() {
    let rows = vec![
        ("ok".to_string(), 7i64),
        ("error".to_string(), 2i64),
        ("no_match".to_string(), 1i64),
        ("unknown".to_string(), 4i64),
    ];
    let summary = summarize_health(&rows);
    assert_eq!(summary.total, 14);
    assert_eq!(summary.ok, 7);
    assert_eq!(summary.errors, 2);
    assert_eq!(summary.no_match, 1);
    assert_eq!(summary.low_confidence, 0);
}

#[test]
fn file_hash_is_sha256_of_size_and_content_in_hex() {
    // SHA-256 of the eight bytes of 0 (little-endian) followed by nothing.
    let h = file_hash(0, &[]);
    assert_eq!(h, "af5570f5a1810b7af78caf4bc70a660f0df51e42baf91d4de5b2328de0e83dfc");
    assert_eq!(h.len(), 64);
    assert_ne!(file_hash(3, b"abc"), file_hash(3, b"abd"));
}

#[test]
fn hex_uses_two_lowercase_digits_per_byte() {
    assert_eq!(to_hex(&[0x0a, 0x14, 0x1e, 0xff]), "0a141eff");
}

#[test]
fn small_files_are_hashed_whole() {
    assert_eq!(hash_span(2 * 1024 * 1024), HashSpan::Whole);
    assert_eq!(hash_span(2 * 1024 * 1024 + 1), HashSpan::Ends);
}

#[test]
fn change_is_assumed_without_both_hashes() {
    assert!(has_changed(None, Some("a")));
    assert!(has_changed(Some("a"), None));
    assert!(!has_changed(Some("a"), Some("a")));
    assert!(has_changed(Some("a"), Some("b")));
}

#[test]
fn gardener_obeys_commands_and_waits_while_paused() {
    let (paused, action) = gardener_step(false, GardenerInput::Command(GardenerCommand::Pause));
    assert!(paused);
    assert!(matches!(action, GardenerAction::Notify(GardenerEvent::Paused)));
    let (paused, action) = gardener_step(paused, GardenerInput::Tick);
    assert!(paused);
    assert!(matches!(action, GardenerAction::Idle));
    let (paused, action) = gardener_step(paused, GardenerInput::Command(GardenerCommand::ProcessTrack(7)));
    assert!(paused);
    assert!(matches!(action, GardenerAction::ProcessTrack(7)));
    let (paused, action) = gardener_step(paused, GardenerInput::Command(GardenerCommand::Resume));
    assert!(!paused);
    assert!(matches!(action, GardenerAction::Notify(GardenerEvent::Resumed)));
    let (_, action) = gardener_step(paused, GardenerInput::Tick);
    assert!(matches!(action, GardenerAction::ProcessPending));
    let (_, action) = gardener_step(false, GardenerInput::Command(GardenerCommand::ProcessBatch(vec![1, 2])));
    assert!(matches!(action, GardenerAction::ProcessBatch(ids) if ids == vec![1, 2]));
    let (_, action) = gardener_step(false, GardenerInput::Command(GardenerCommand::Stop));
    assert!(matches!(action, GardenerAction::Stop));
}

#[test]
fn enrichment_failures_are_classified_by_message() {
    assert_eq!(classify_enrichment_error("Failed to generate fingerprint: x"), ErrorType::EmptyFingerprint);
    assert_eq!(classify_enrichment_error("could not decode frame"), ErrorType::DecodeError);
    assert_eq!(classify_enrichment_error("Network error"), ErrorType::Other("enrichment_error".to_string()));
}

#[test]
fn flag_descriptions_follow_flag_order() {
    let flags = QualityFlags::MISSING_YEAR() | QualityFlags::VERIFIED() | QualityFlags::MISSING_ARTIST();
    assert_eq!(flags.descriptions(), vec!["Missing artist", "Missing year", "✓ Verified"]);
    assert!(QualityFlags::empty().descriptions().is_empty());
    assert_eq!(QualityFlags::MULTI_ALBUM().descriptions().len(), 1);
}

#[test]
fn summary_icon_priorities() {
    assert_eq!((QualityFlags::POSSIBLY_MISLABELED() | QualityFlags::VERIFIED()).summary_icon(), "⚠");
    assert_eq!(QualityFlags::VERIFIED().summary_icon(), "✓");
    assert_eq!(QualityFlags::empty().summary_icon(), "✓");
    assert_eq!((QualityFlags::VERIFIED() | QualityFlags::TITLE_MISMATCH()).summary_icon(), "≠");
    assert_eq!(QualityFlags::NEVER_CHECKED().summary_icon(), "?");
    assert_eq!(QualityFlags::UNIDENTIFIED().summary_icon(), "?");
    assert_eq!(QualityFlags::ALBUM_MISMATCH().summary_icon(), "≠");
    assert_eq!(QualityFlags::GENERIC_METADATA().summary_icon(), "○");
    assert_eq!(QualityFlags::MISSING_YEAR().summary_icon(), "·");
}

#[test]
fn flag_set_operations() {
    let a = QualityFlags::MISSING_ARTIST() | QualityFlags::MISSING_ALBUM();
    let b = QualityFlags::MISSING_ALBUM() | QualityFlags::MISSING_YEAR();
    assert_eq!(a.intersection(b), QualityFlags::MISSING_ALBUM());
    assert_eq!(a.union(b).bits(), 7);
    let mut c = a;
    c.remove(QualityFlags::MISSING_ARTIST());
    assert_eq!(c, QualityFlags::MISSING_ALBUM());
    assert_eq!(QualityFlags::ANY_MISMATCH().bits(), 0x3800);
    assert_eq!(QualityFlags::NEEDS_REVIEW().bits(), 0x34000);
    assert_eq!(QualityFlags::from_bits_truncate(0xFFFF_FFFF).bits(), 0x7FFFF);
}

#[test]
fn could_improve_when_any_flag_is_set() {
    let q = assess_quality("Song", Some("A"), Some("B"), Some(2000), Some(1), "file", Some("mbid"), MatchConfidence::High);
    assert!(!q.could_improve());
    let q = assess_quality("Song", None, Some("B"), Some(2000), Some(1), "file", Some("mbid"), MatchConfidence::High);
    assert!(q.could_improve());
}

#[test]
fn test_compute_file_hash_small_file() {
    let content = b"Hello, world!";
    let hash = file_hash(content.len() as u64, content);
    assert!(!hash.is_empty());
    assert_eq!(hash.len(), 64);
    let hash2 = file_hash(content.len() as u64, content);
    assert_eq!(hash, hash2);
}

#[test]
fn test_compute_file_hash_different_content() {
    let hash1 = file_hash(9, b"Content A");
    let hash2 = file_hash(9, b"Content B");
    assert_ne!(hash1, hash2);
}

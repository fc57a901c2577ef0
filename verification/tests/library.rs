use music_minder::config::{config_dir_in, config_path_in, AppearanceConfig, Credentials, LibraryConfig};
use music_minder::db::{db_url, TrackWithMetadata};
use music_minder::scanner::{is_audio_file, watch_event_for, ChangeKind, WatchEvent};
use music_minder::test_utils::{mock_track_at_path, mock_track_metadata, mock_track_with_metadata};
use music_minder::db::TrackFileInfo;
use music_minder::scanner::{batch_counts, plan_incremental_scan, watch_step, BatchCounts, WatchEventKind, WatchInput};
use music_minder::db::{count_tiers, QualityStats};
use music_minder::text::{is_whitespace, lines, replace_str, to_lowercase};

#[test]
fn test_mock_track_metadata_defaults() {
    let meta = mock_track_metadata();
    assert_eq!(meta.title, "Test Track");
    assert_eq!(meta.artist, "Test Artist");
    assert_eq!(meta.album, "Test Album");
    assert_eq!(meta.duration, 180);
    assert_eq!(meta.track_number, Some(1));
}

#[test]
fn test_mock_track_with_metadata_defaults() {
    let track = mock_track_with_metadata();
    assert_eq!(track.id, 1);
    assert_eq!(track.title, "Test Track");
    assert!(!track.path.is_empty());
}

#[test]
fn test_mock_track_at_path() {
    let track = mock_track_at_path(42, "/music/song.flac");
    assert_eq!(track.id, 42);
    assert_eq!(track.path, "/music/song.flac");
    assert_eq!(track.title, "Track 42");
}

#[test]
fn test_is_audio_file() {
    assert!(is_audio_file("song.mp3"));
    assert!(is_audio_file("song.FLAC"));
    assert!(is_audio_file("song.ogg"));
    assert!(!is_audio_file("image.png"));
    assert!(!is_audio_file("document.txt"));
}

#[test]
fn watch_events_keep_to_audio_files() {
    assert!(matches!(
        watch_event_for(ChangeKind::FileCreated, "/m/new.mp3", true),
        Some(WatchEvent::Created(p)) if p == "/m/new.mp3"
    ));
    assert!(watch_event_for(ChangeKind::FileCreated, "/m/cover.jpg", true).is_none());
    assert!(matches!(watch_event_for(ChangeKind::FolderCreated, "/m/album", false), Some(WatchEvent::DirCreated(_))));
    assert!(matches!(watch_event_for(ChangeKind::FileRemoved, "/m/old.flac", false), Some(WatchEvent::Removed(_))));
    assert!(watch_event_for(ChangeKind::Other, "/m/x.mp3", true).is_none());
}

#[test]
fn database_address_and_attention() {
    assert_eq!(db_url(None), "sqlite:music_minder.db");
    assert_eq!(db_url(Some("/data/lib.db")), "sqlite:/data/lib.db");
    let mut track: TrackWithMetadata = mock_track_with_metadata();
    assert!(track.needs_attention());
    track.quality_score = Some(70);
    assert!(!track.needs_attention());
    track.quality_flags = Some(1 | 64);
    assert_eq!(track.quality_flags().bits(), 65);
    assert_eq!(track.path_buf(), std::path::PathBuf::from("/test/path/song.mp3"));
}

#[test]
fn configuration_defaults() {
    assert!(Credentials::default().acoustid_api_key.is_none());
    assert_eq!(AppearanceConfig::default().theme, "dark");
    let lib = LibraryConfig::default();
    assert!(lib.paths.is_empty());
    assert!(lib.watch_for_changes && lib.auto_queue);
    assert_eq!(config_dir_in("/home/u/.config"), "/home/u/.config/music-minder");
}

#[test]
fn incremental_scan_sorts_files_into_new_modified_unchanged_removed() {
    let db = vec![
        TrackFileInfo { id: 1, path: "/m/a.mp3".to_string(), mtime: Some(10) },
        TrackFileInfo { id: 2, path: "/m/b.mp3".to_string(), mtime: Some(20) },
        TrackFileInfo { id: 3, path: "/m/c.mp3".to_string(), mtime: None },
        TrackFileInfo { id: 4, path: "/m/gone.mp3".to_string(), mtime: Some(1) },
    ];
    let found = vec![
        ("/m/a.mp3".to_string(), Some(10)),
        ("/m/b.mp3".to_string(), Some(25)),
        ("/m/c.mp3".to_string(), Some(5)),
        ("/m/new.mp3".to_string(), Some(7)),
    ];
    let plan = plan_incremental_scan(&db, &found);
    assert_eq!(plan.new_files, vec!["/m/new.mp3"]);
    assert_eq!(plan.modified_files, vec!["/m/b.mp3", "/m/c.mp3"]);
    assert_eq!(plan.modified, vec![(2, Some(25)), (3, Some(5))]);
    assert_eq!(plan.unchanged, 1);
    assert_eq!(plan.removed, vec!["/m/gone.mp3"]);
}

#[test]
fn quality_statistics_summaries() {
    let stats = QualityStats { total: 10, unchecked: 2, excellent: 4, good: 2, fair: 1, poor: 1 };
    assert_eq!(stats.estimated_average(), Some((4 * 95 + 2 * 80 + 60 + 25) / 8));
    let none = QualityStats { total: 3, unchecked: 3, excellent: 0, good: 0, fair: 0, poor: 0 };
    assert_eq!(none.estimated_average(), None);
    assert_eq!(count_tiers(&[100, 95, 89, 70, 69, 50, 49, 0, 101]), (2, 2, 2, 3));
}

#[test]
fn lines_split_like_str_lines() {
    for text in ["", "a", "a\n", "a\r\nb", "\n\nx\r", "one\ntwo\r\n\r\nthree"] {
        let cs: Vec<char> = text.chars().collect();
        let got: Vec<String> = lines(&cs).into_iter().map(|l| l.into_iter().collect()).collect();
        let want: Vec<String> = text.lines().map(|l| l.to_string()).collect();
        assert_eq!(got, want, "text {:?}", text);
    }
}

#[test]
fn config_file_sits_in_the_app_directory() {
    let expected = std::path::Path::new("/home/u/.config").join("music-minder").join("config.toml");
    assert_eq!(config_path_in("/home/u/.config"), expected.to_string_lossy());
}

#[test]
fn watch_batches_keep_the_latest_change_per_file() {
    let ev = |e: WatchEvent| WatchInput::Event(e);
    let (p, b) = watch_step(vec![], ev(WatchEvent::Created("/m/a.mp3".to_string())));
    assert!(b.is_none());
    let (p, _) = watch_step(p, ev(WatchEvent::Modified("/m/b.mp3".to_string())));
    let (p, _) = watch_step(p, ev(WatchEvent::Removed("/m/a.mp3".to_string())));
    let (p, _) = watch_step(p, ev(WatchEvent::DirCreated("/m/new".to_string())));
    let (p, _) = watch_step(p, ev(WatchEvent::Error("oops".to_string())));
    assert_eq!(
        p,
        vec![("/m/a.mp3".to_string(), WatchEventKind::Removed), ("/m/b.mp3".to_string(), WatchEventKind::Modified)]
    );
    let (p, b) = watch_step(p, WatchInput::Timeout { quiet: false });
    assert!(b.is_none());
    assert_eq!(p.len(), 2);
    let (p, b) = watch_step(p, WatchInput::Timeout { quiet: true });
    assert!(p.is_empty());
    let batch = b.unwrap();
    assert_eq!(batch_counts(&batch), BatchCounts { created: 0, modified: 1, removed: 1 });
    let (p, b) = watch_step(p, WatchInput::Timeout { quiet: true });
    assert!(p.is_empty() && b.is_none());
}

#[test]
fn whitespace_matches_std_for_every_char() {
    for n in 0u32..=0x10FFFF {
        if let Some(c) = char::from_u32(n) {
            assert_eq!(is_whitespace(c), c.is_whitespace(), "U+{:04X}", n);
        }
    }
}

#[test]
fn replace_matches_str_replace() {
    for (text, pat, rep) in [("abc", "", "-"), ("", "", "x"), ("aaa", "aa", "b"), ("a.b.c", ".", "::"), ("x", "yz", "w")] {
        assert_eq!(replace_str(text, pat, rep), text.replace(pat, rep), "{:?} {:?} {:?}", text, pat, rep);
    }
}

#[test]
fn ascii_lowercasing() {
    assert_eq!(to_lowercase("Track.MP3 [A-Z]"), "track.mp3 [a-z]");
}

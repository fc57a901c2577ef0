use music_minder::metadata::TrackMetadata;
use music_minder::organizer::{fill_pattern, preview_organize, sanitize_filename, MoveRecord, UndoLog};

#[test]
fn test_sanitize_filename() {
    assert_eq!(sanitize_filename("AC/DC"), "AC_DC");
    assert_eq!(sanitize_filename("Track: Title"), "Track_ Title");
    assert_eq!(sanitize_filename("Valid Name"), "Valid Name");
    assert_eq!(sanitize_filename("Artist?"), "Artist_");
    assert_eq!(sanitize_filename("a<b>c"), "a_b_c");
    assert_eq!(sanitize_filename("pipe|test"), "pipe_test");
}

#[test]
fn test_preview_organize_generates_correct_path() {
    let metadata = TrackMetadata {
        title: "Song Title".to_string(),
        artist: "Test Artist".to_string(),
        album: "Test Album".to_string(),
        duration: 180,
        track_number: Some(5),
    };

    let pattern = "{Artist}/{Album}/{TrackNum} - {Title}.{ext}";
    let source = "/tmp/song.mp3";
    let dest_root = "/music";

    let preview = preview_organize(source, &metadata, pattern, dest_root, 42);

    assert_eq!(preview.source, source);
    assert_eq!(preview.track_id, 42);
    assert_eq!(preview.destination, "/music/Test Artist/Test Album/05 - Song Title.mp3");
}

#[test]
fn test_preview_organize_handles_missing_track_number() {
    let metadata = TrackMetadata {
        title: "Song".to_string(),
        artist: "Artist".to_string(),
        album: "Album".to_string(),
        duration: 180,
        track_number: None,
    };

    let preview = preview_organize(
        "/test.flac",
        &metadata,
        "{Artist}/{Album}/{TrackNum} - {Title}.{ext}",
        "/out",
        1,
    );

    assert_eq!(preview.destination, "/out/Artist/Album/00 - Song.flac");
}

#[test]
fn test_preview_organize_sanitizes_special_chars() {
    let metadata = TrackMetadata {
        title: "What?".to_string(),
        artist: "AC/DC".to_string(),
        album: "Back: In Black".to_string(),
        duration: 180,
        track_number: Some(1),
    };

    let preview = preview_organize("/test.mp3", &metadata, "{Artist}/{Album}/{Title}.{ext}", "/out", 1);

    assert_eq!(preview.destination, "/out/AC_DC/Back_ In Black/What_.mp3");
}

#[test]
fn missing_extension_becomes_mp3_and_numbers_are_padded() {
    let metadata = TrackMetadata {
        title: "Song".to_string(),
        artist: "A".to_string(),
        album: "B".to_string(),
        duration: 1,
        track_number: Some(123),
    };
    let preview = preview_organize("/in/noext", &metadata, "{TrackNum}.{ext}", "/out", 7);
    assert_eq!(preview.destination, "/out/123.mp3");
    assert_eq!(fill_pattern("{TrackNum}-{TrackNum}", &metadata, "ogg"), "123-123");
}

#[test]
fn undo_log_starts_empty() {
    let log = UndoLog::default();
    assert!(log.moves.is_empty());
    assert!(log.timestamp.is_none());
    let record = MoveRecord {
        source: "/original/path.mp3".to_string(),
        destination: "/new/path.mp3".to_string(),
        track_id: 42,
    };
    assert_eq!(record.track_id, 42);
}

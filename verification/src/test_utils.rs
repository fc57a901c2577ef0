//! Sample records with sensible defaults, for tests and examples.

use vstd::prelude::*;
use crate::db::TrackWithMetadata;
use crate::metadata::TrackMetadata;
use crate::text::{concat, i64_to_string, owned, signed_decimal};

verus! {

/// A sample `TrackMetadata`: "Test Track" by "Test Artist" on "Test Album",
/// three minutes long, track one.
pub fn mock_track_metadata() -> (r: TrackMetadata)
    ensures
        r.title@ == "Test Track"@,
        r.artist@ == "Test Artist"@,
        r.album@ == "Test Album"@,
        r.duration == 180,
        r.track_number == Some(1u32),
{
    TrackMetadata {
        title: owned("Test Track"),
        artist: owned("Test Artist"),
        album: owned("Test Album"),
        duration: 180,
        track_number: Some(1),
    }
}

/// A sample `TrackWithMetadata` at a path that does not exist.
pub fn mock_track_with_metadata() -> (r: TrackWithMetadata)
    ensures
        r.id == 1,
        r.title@ == "Test Track"@,
        r.path@ == "/test/path/song.mp3"@,
        r.duration == Some(180i64),
        r.track_number == Some(1i64),
        r.artist_name@ == "Test Artist"@,
        r.album_name@ == "Test Album"@,
        r.year == Some(2023i64),
        r.quality_score is None,
        r.quality_flags is None,
{
    TrackWithMetadata {
        id: 1,
        title: owned("Test Track"),
        path: owned("/test/path/song.mp3"),
        duration: Some(180),
        track_number: Some(1),
        artist_name: owned("Test Artist"),
        album_name: owned("Test Album"),
        year: Some(2023),
        quality_score: None,
        quality_flags: None,
    }
}

/// A sample `TrackWithMetadata` with the given ID and path, titled
/// "Track <id>".
pub fn mock_track_at_path(id: i64, path: &str) -> (r: TrackWithMetadata)
    ensures
        r.id == id,
        r.title@ == "Track "@ + signed_decimal(id as int),
        r.path@ == path@,
        r.duration == Some(180i64),
        r.track_number == Some(id),
        r.artist_name@ == "Test Artist"@,
        r.album_name@ == "Test Album"@,
        r.year == Some(2023i64),
        r.quality_score is None,
        r.quality_flags is None,
{
    let n = i64_to_string(id);
    TrackWithMetadata {
        id,
        title: concat("Track ", n.as_str()),
        path: owned(path),
        duration: Some(180),
        track_number: Some(id),
        artist_name: owned("Test Artist"),
        album_name: owned("Test Album"),
        year: Some(2023),
        quality_score: None,
        quality_flags: None,
    }
}

}

//! MusicBrainz API response shapes.
//!
//! These types hold exactly what the MusicBrainz `/recording` endpoint
//! returns; the adapter turns them into domain models.

use vstd::prelude::*;

verus! {

/// Recording lookup response (single recording with includes)
#[derive(Debug, Clone)]
pub struct RecordingResponse {
    /// MusicBrainz recording ID
    pub id: String,
    /// Track title
    pub title: String,
    /// Duration in milliseconds
    pub length: Option<u64>,
    /// Disambiguation comment
    pub disambiguation: Option<String>,
    /// Artist credits
    pub artist_credit: Vec<ArtistCredit>,
    /// Releases this recording appears on
    pub releases: Vec<Release>,
    /// Community tags (genres) with their vote counts
    pub tags: Vec<Tag>,
}

/// Artist credit (can be multiple for collaborations)
#[derive(Debug, Clone)]
pub struct ArtistCredit {
    /// The artist
    pub artist: Artist,
    /// How this artist is credited (may differ from official name)
    pub name: Option<String>,
    /// Join phrase (e.g., " & ", " feat. ")
    pub joinphrase: Option<String>,
}

/// Artist info
#[derive(Debug, Clone)]
pub struct Artist {
    /// MusicBrainz artist ID
    pub id: String,
    /// Official artist name
    pub name: String,
    /// Sort name (e.g., "Beatles, The")
    pub sort_name: Option<String>,
    /// Artist type (Person, Group, etc.)
    pub artist_type: Option<String>,
}

/// Release (album/single/EP)
#[derive(Debug, Clone)]
pub struct Release {
    /// MusicBrainz release ID
    pub id: String,
    /// Release title
    pub title: String,
    /// Release status (Official, Bootleg, etc.)
    pub status: Option<String>,
    /// Release date (YYYY, YYYY-MM, or YYYY-MM-DD)
    pub date: Option<String>,
    /// Country code
    pub country: Option<String>,
    /// Release group (groups same album across editions)
    pub release_group: Option<ReleaseGroup>,
    /// Media (discs) in this release
    pub media: Vec<Medium>,
    /// Artist credits of the release itself
    pub artist_credit: Option<Vec<ArtistCredit>>,
}

/// Release group (e.g., "Abbey Road" across all editions)
#[derive(Debug, Clone)]
pub struct ReleaseGroup {
    /// MusicBrainz release group ID
    pub id: String,
    /// Title
    pub title: String,
    /// Primary type (Album, Single, EP, etc.)
    pub primary_type: Option<String>,
    /// First release date
    pub first_release_date: Option<String>,
}

/// Medium (disc) within a release
#[derive(Debug, Clone)]
pub struct Medium {
    /// Position in release (disc number)
    pub position: Option<u32>,
    /// Format (CD, Vinyl, Digital, etc.)
    pub format: Option<String>,
    /// Number of tracks
    pub track_count: Option<u32>,
    /// Tracks on this medium
    pub tracks: Vec<Track>,
}

/// Track on a medium
#[derive(Debug, Clone)]
pub struct Track {
    /// Track position on medium
    pub position: Option<u32>,
    /// Track number (may include disc prefix like "1-5")
    pub number: Option<String>,
    /// Track title (may differ from recording title)
    pub title: Option<String>,
    /// Track length in milliseconds
    pub length: Option<u64>,
}

/// A community tag with its vote count
#[derive(Debug, Clone)]
pub struct Tag {
    /// Tag name (often a genre)
    pub name: String,
    /// Net vote count
    pub count: i32,
}

/// Error response from MusicBrainz API
#[derive(Debug, Clone)]
pub struct ApiError {
    pub error: String,
    pub help: Option<String>,
}

}

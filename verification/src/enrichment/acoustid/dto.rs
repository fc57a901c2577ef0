//! AcoustID API response shapes, as plain values.
//!
//! Match scores and durations arrive as floating-point numbers; the reader
//! of a response keeps each result's score and hands on a duration's whole
//! seconds.

use vstd::prelude::*;

verus! {

/// Error info of a failed lookup
#[derive(Debug, Clone)]
pub struct ApiError {
    pub code: i32,
    pub message: String,
}

/// Artist info from AcoustID
#[derive(Debug, Clone)]
pub struct Artist {
    /// MusicBrainz artist ID
    pub id: String,
    /// Artist name
    pub name: String,
}

/// Release group info from AcoustID (when meta=releasegroups requested)
#[derive(Debug, Clone)]
pub struct ReleaseGroup {
    /// MusicBrainz release group ID
    pub id: String,
    /// Album title
    pub title: Option<String>,
    /// Primary type (Album, Single, EP, etc.)
    pub release_type: Option<String>,
    /// Secondary types (Compilation, Live, Soundtrack, etc.)
    pub secondarytypes: Vec<String>,
    /// Artists
    pub artists: Vec<Artist>,
}


/// A MusicBrainz recording that a fingerprint matched, as the lookup
/// describes it.
#[derive(Debug, Clone)]
pub struct Recording {
    /// MusicBrainz recording ID
    pub id: String,
    /// Track title
    pub title: Option<String>,
    /// Duration in whole seconds (the service sends fractional seconds,
    /// of which the whole part is kept)
    pub duration_secs: Option<u64>,
    /// Artists
    pub artists: Vec<Artist>,
    /// Release groups this recording appears on
    pub releasegroups: Vec<ReleaseGroup>,
}

/// A single fingerprint match: its AcoustID identifier and the recordings
/// it names. Its match score stays with the caller, by the position of the
/// result in the lookup.
#[derive(Debug, Clone)]
pub struct LookupResult {
    /// AcoustID identifier
    pub id: String,
    /// Associated MusicBrainz recordings
    pub recordings: Vec<Recording>,
}

}

//! Internal domain models for track identification and enrichment.
//!
//! These types are the library's own: every external API response is
//! converted into them by an adapter.

use vstd::prelude::*;
use std::time::Duration;
use crate::text::{clone_opt, concat, owned};

verus! {

/// Track metadata obtained from external services
#[derive(Debug, Clone)]
pub struct IdentifiedTrack {
    /// MusicBrainz recording ID (if available)
    pub recording_id: Option<String>,
    /// Track title
    pub title: Option<String>,
    /// Artist name
    pub artist: Option<String>,
    /// Album artist name
    pub album_artist: Option<String>,
    /// Album title
    pub album: Option<String>,
    /// Track number on album
    pub track_number: Option<u32>,
    /// Total tracks on album
    pub total_tracks: Option<u32>,
    /// Disc number within a multi-disc release
    pub disc_number: Option<u32>,
    /// Total discs in the release
    pub total_discs: Option<u32>,
    /// Release year
    pub year: Option<i32>,
    /// Track duration
    pub duration: Option<Duration>,
    /// MusicBrainz artist ID
    pub artist_id: Option<String>,
    /// MusicBrainz release (album) ID
    pub release_id: Option<String>,
    /// MusicBrainz release group ID
    pub release_group_id: Option<String>,
    /// Release type (Album, Single, EP, etc.)
    pub release_type: Option<String>,
    /// Secondary release types (Compilation, Live, Soundtrack, etc.)
    pub secondary_types: Vec<String>,
    /// Genres, most popular first
    pub genres: Vec<String>,
}

/// An identification with every field empty.
pub open spec fn is_blank_track(t: IdentifiedTrack) -> bool {
    &&& t.recording_id is None
    &&& t.title is None
    &&& t.artist is None
    &&& t.album_artist is None
    &&& t.album is None
    &&& t.track_number is None
    &&& t.total_tracks is None
    &&& t.disc_number is None
    &&& t.total_discs is None
    &&& t.year is None
    &&& t.duration is None
    &&& t.artist_id is None
    &&& t.release_id is None
    &&& t.release_group_id is None
    &&& t.release_type is None
    &&& t.secondary_types@.len() == 0
    &&& t.genres@.len() == 0
}

impl Default for IdentifiedTrack {
    fn default() -> (r: IdentifiedTrack)
        ensures
            is_blank_track(r),
    {
        IdentifiedTrack {
            recording_id: None,
            title: None,
            artist: None,
            album_artist: None,
            album: None,
            track_number: None,
            total_tracks: None,
            disc_number: None,
            total_discs: None,
            year: None,
            duration: None,
            artist_id: None,
            release_id: None,
            release_group_id: None,
            release_type: None,
            secondary_types: Vec::new(),
            genres: Vec::new(),
        }
    }
}

/// `a` where it is present, else `b`.
pub open spec fn prefer<T>(a: Option<T>, b: Option<T>) -> Option<T> {
    if a is Some { a } else { b }
}

/// The identification that `merge` produces: the fields that merging fills
/// keep their value where present and take the other's otherwise; the rest
/// stay as they were.
pub open spec fn merged(a: IdentifiedTrack, b: IdentifiedTrack) -> IdentifiedTrack {
    IdentifiedTrack {
        title: prefer(a.title, b.title),
        artist: prefer(a.artist, b.artist),
        album: prefer(a.album, b.album),
        track_number: prefer(a.track_number, b.track_number),
        total_tracks: prefer(a.total_tracks, b.total_tracks),
        year: prefer(a.year, b.year),
        duration: prefer(a.duration, b.duration),
        recording_id: prefer(a.recording_id, b.recording_id),
        artist_id: prefer(a.artist_id, b.artist_id),
        release_id: prefer(a.release_id, b.release_id),
        ..a
    }
}

impl IdentifiedTrack {
    /// Merge another identification into this one, preferring non-None values
    pub fn merge(&mut self, other: &IdentifiedTrack)
        ensures
            *final(self) == merged(*old(self), *other),
    {
        if self.title.is_none() {
            self.title = clone_opt(&other.title);
        }
        if self.artist.is_none() {
            self.artist = clone_opt(&other.artist);
        }
        if self.album.is_none() {
            self.album = clone_opt(&other.album);
        }
        if self.track_number.is_none() {
            self.track_number = other.track_number;
        }
        if self.total_tracks.is_none() {
            self.total_tracks = other.total_tracks;
        }
        if self.year.is_none() {
            self.year = other.year;
        }
        if self.duration.is_none() {
            self.duration = other.duration;
        }
        if self.recording_id.is_none() {
            self.recording_id = clone_opt(&other.recording_id);
        }
        if self.artist_id.is_none() {
            self.artist_id = clone_opt(&other.artist_id);
        }
        if self.release_id.is_none() {
            self.release_id = clone_opt(&other.release_id);
        }
    }
}

/// Law: merging keeps every field that was already present.
pub proof fn merge_keeps_present_fields(a: IdentifiedTrack, b: IdentifiedTrack)
    ensures
        a.title is Some ==> merged(a, b).title == a.title,
        a.artist is Some ==> merged(a, b).artist == a.artist,
        a.album is Some ==> merged(a, b).album == a.album,
        a.track_number is Some ==> merged(a, b).track_number == a.track_number,
        a.total_tracks is Some ==> merged(a, b).total_tracks == a.total_tracks,
        a.year is Some ==> merged(a, b).year == a.year,
        a.duration is Some ==> merged(a, b).duration == a.duration,
        a.recording_id is Some ==> merged(a, b).recording_id == a.recording_id,
        a.artist_id is Some ==> merged(a, b).artist_id == a.artist_id,
        a.release_id is Some ==> merged(a, b).release_id == a.release_id,
{
}

/// Law: merging the same identification in twice changes nothing more.
pub proof fn merge_is_idempotent(a: IdentifiedTrack, b: IdentifiedTrack)
    ensures
        merged(merged(a, b), b) == merged(a, b),
{
}

/// Law: merging with a blank identification changes nothing.
pub proof fn merge_blank_is_identity(a: IdentifiedTrack, b: IdentifiedTrack)
    requires
        is_blank_track(b),
    ensures
        merged(a, b) == a,
{
}

/// Source of enrichment data
#[derive(Debug, Clone, Copy, PartialEq, Eq, Structural)]
pub enum EnrichmentSource {
    AcoustId,
    MusicBrainz,
    Manual,
}

/// Audio fingerprint for a track
#[derive(Debug, Clone)]
pub struct AudioFingerprint {
    /// The fingerprint string (Chromaprint format)
    pub fingerprint: String,
    /// Duration of the audio in seconds (required by AcoustID)
    pub duration_secs: u32,
}

/// Errors that can occur during enrichment
#[derive(Debug)]
pub enum EnrichmentError {
    FingerprintError(String),
    ApiError(String),
    Network(String),
    Parse(String),
    NoMatches,
    RateLimited,
    InvalidResponse(String),
    ContractViolation { expected: String, actual: String },
}

/// The message describing an enrichment error.
pub open spec fn enrichment_error_text(e: EnrichmentError) -> Seq<char> {
    match e {
        EnrichmentError::FingerprintError(s) => "Failed to generate fingerprint: "@ + s@,
        EnrichmentError::ApiError(s) => "API request failed: "@ + s@,
        EnrichmentError::Network(s) => "Network error: "@ + s@,
        EnrichmentError::Parse(s) => "Failed to parse response: "@ + s@,
        EnrichmentError::NoMatches => "No matches found for fingerprint"@,
        EnrichmentError::RateLimited => "Rate limited - try again later"@,
        EnrichmentError::InvalidResponse(s) => "Invalid API response: "@ + s@,
        EnrichmentError::ContractViolation { expected, actual } =>
            "API contract violation: expected "@ + expected@ + ", got "@ + actual@,
    }
}

impl EnrichmentError {
    /// The message describing this error.
    pub fn message(&self) -> (r: String)
        ensures
            r@ == enrichment_error_text(*self),
    {
        match self {
            EnrichmentError::FingerprintError(s) => concat("Failed to generate fingerprint: ", s.as_str()),
            EnrichmentError::ApiError(s) => concat("API request failed: ", s.as_str()),
            EnrichmentError::Network(s) => concat("Network error: ", s.as_str()),
            EnrichmentError::Parse(s) => concat("Failed to parse response: ", s.as_str()),
            EnrichmentError::NoMatches => owned("No matches found for fingerprint"),
            EnrichmentError::RateLimited => owned("Rate limited - try again later"),
            EnrichmentError::InvalidResponse(s) => concat("Invalid API response: ", s.as_str()),
            EnrichmentError::ContractViolation { expected, actual } => {
                let a = concat("API contract violation: expected ", expected.as_str());
                let b = concat(a.as_str(), ", got ");
                concat(b.as_str(), actual.as_str())
            },
        }
    }
}

}

//! Library records as the database holds them, and the database address.
//!
//! The queries themselves run outside the library.

use vstd::prelude::*;
use std::path::PathBuf;
use crate::health::quality::{QualityFlags, ALL_FLAG_BITS};
use crate::paths::{path_buf, path_buf_of};
use crate::text::concat;

verus! {

/// Default database filename.
pub const DEFAULT_DB_NAME: &'static str = "music_minder.db";

/// The SQLite address of a database file: `sqlite:` and the path, by
/// default the file in the working directory.
pub open spec fn db_url_text(path: Option<Seq<char>>) -> Seq<char> {
    "sqlite:"@ + match path {
        Some(p) => p,
        None => DEFAULT_DB_NAME@,
    }
}

/// Build a SQLite database URL from an optional path.
pub fn db_url(path: Option<&str>) -> (r: String)
    ensures
        r@ == db_url_text(match path {
            Some(p) => Some(p@),
            None => None,
        }),
{
    match path {
        Some(p) => concat("sqlite:", p),
        None => concat("sqlite:", DEFAULT_DB_NAME),
    }
}

/// Track with artist and album names resolved.
#[derive(Debug, Clone)]
pub struct TrackWithMetadata {
    /// Database ID
    pub id: i64,
    /// Track title
    pub title: String,
    /// File path
    pub path: String,
    /// Duration in seconds
    pub duration: Option<i64>,
    /// Track number on album
    pub track_number: Option<i64>,
    /// Artist name (or "Unknown Artist")
    pub artist_name: String,
    /// Album name (or "Unknown Album")
    pub album_name: String,
    /// Release year (from album)
    pub year: Option<i64>,
    /// Quality score (0-100, None if never assessed)
    pub quality_score: Option<i64>,
    /// Quality flags as bitfield
    pub quality_flags: Option<i64>,
}

/// Lightweight track info for incremental scanning.
#[derive(Debug, Clone)]
pub struct TrackFileInfo {
    /// Database ID
    pub id: i64,
    /// File path
    pub path: String,
    /// Last modified time (Unix timestamp)
    pub mtime: Option<i64>,
}

/// Whether a stored quality score calls for attention: never assessed, or
/// below 70.
pub open spec fn score_needs_attention(score: Option<i64>) -> bool {
    match score {
        None => true,
        Some(s) => s < 70,
    }
}

/// The quality flags stored bits stand for; none when nothing is stored.
pub open spec fn stored_flags(bits: Option<i64>) -> u32 {
    match bits {
        Some(b) => (b as u32) & ALL_FLAG_BITS,
        None => 0,
    }
}

impl TrackWithMetadata {
    /// The file path as a `PathBuf`.
    pub fn path_buf(&self) -> (r: PathBuf)
        ensures
            r == path_buf_of(self.path@),
    {
        path_buf(self.path.as_str())
    }

    /// Check if this track needs attention based on quality score.
    pub fn needs_attention(&self) -> (r: bool)
        ensures
            r == score_needs_attention(self.quality_score),
    {
        match self.quality_score {
            None => true,
            Some(score) => score < 70,
        }
    }

    /// Get quality flags as the typed flags.
    pub fn quality_flags(&self) -> (r: QualityFlags)
        ensures
            r@ == stored_flags(self.quality_flags),
    {
        match self.quality_flags {
            Some(bits) => QualityFlags::from_bits_i64(bits),
            None => QualityFlags::default(),
        }
    }
}

/// Quality statistics for the library.
#[derive(Debug, Clone)]
pub struct QualityStats {
    /// Total tracks in library
    pub total: i64,
    /// Tracks never quality-checked
    pub unchecked: i64,
    /// Tracks with excellent quality (90+)
    pub excellent: i64,
    /// Tracks with good quality (70-89)
    pub good: i64,
    /// Tracks with fair quality (50-69)
    pub fair: i64,
    /// Tracks with poor quality (<50)
    pub poor: i64,
}

impl Default for QualityStats {
    fn default() -> (r: QualityStats)
        ensures
            r.total == 0 && r.unchecked == 0 && r.excellent == 0 && r.good == 0 && r.fair == 0
                && r.poor == 0,
    {
        QualityStats { total: 0, unchecked: 0, excellent: 0, good: 0, fair: 0, poor: 0 }
    }
}

/// Integer division rounding toward zero, as Rust's `/` does, for a
/// positive divisor.
pub open spec fn truncating_div(a: int, b: int) -> int {
    if a >= 0 {
        a / b
    } else {
        -((-a) / b)
    }
}

/// The approximate average score of the checked tracks, counting each
/// tier at a typical score (95, 80, 60 and 25); none when nothing was
/// checked.
pub open spec fn average_estimate(s: QualityStats) -> Option<int> {
    let checked = s.total - s.unchecked;
    if s.total > 0 && checked > 0 {
        Some(truncating_div(s.excellent * 95 + s.good * 80 + s.fair * 60 + s.poor * 25, checked))
    } else {
        None
    }
}

impl QualityStats {
    /// The approximate average score of the checked tracks.
    pub fn estimated_average(&self) -> (r: Option<i64>)
        requires
            i64::MIN <= self.total - self.unchecked <= i64::MAX,
            i64::MIN <= self.excellent * 95 <= i64::MAX,
            i64::MIN <= self.good * 80 <= i64::MAX,
            i64::MIN <= self.fair * 60 <= i64::MAX,
            i64::MIN <= self.poor * 25 <= i64::MAX,
            i64::MIN <= self.excellent * 95 + self.good * 80 <= i64::MAX,
            i64::MIN <= self.excellent * 95 + self.good * 80 + self.fair * 60 <= i64::MAX,
            i64::MIN <= self.excellent * 95 + self.good * 80 + self.fair * 60 + self.poor * 25 <= i64::MAX,
        ensures
            match average_estimate(*self) {
                Some(a) => r == Some(a as i64),
                None => r is None,
            },
    {
        if self.total <= 0 {
            return None;
        }
        let checked = self.total - self.unchecked;
        if checked <= 0 {
            return None;
        }
        let sum = self.excellent * 95 + self.good * 80 + self.fair * 60 + self.poor * 25;
        Some(sum / checked)
    }
}

/// How many scores fall in each tier: excellent (90-100), good (70-89),
/// fair (50-69) and poor (anything else).
pub open spec fn tier_tally(scores: Seq<u8>) -> (nat, nat, nat, nat)
    decreases scores.len(),
{
    if scores.len() == 0 {
        (0, 0, 0, 0)
    } else {
        let t = tier_tally(scores.drop_last());
        let s = scores.last();
        if 90 <= s && s <= 100 {
            (t.0 + 1, t.1, t.2, t.3)
        } else if 70 <= s && s <= 89 {
            (t.0, t.1 + 1, t.2, t.3)
        } else if 50 <= s && s <= 69 {
            (t.0, t.1, t.2 + 1, t.3)
        } else {
            (t.0, t.1, t.2, t.3 + 1)
        }
    }
}

/// Counts how many scores fall in each tier.
pub fn count_tiers(scores: &[u8]) -> (r: (usize, usize, usize, usize))
    ensures
        (r.0 as nat, r.1 as nat, r.2 as nat, r.3 as nat) == tier_tally(scores@),
{
    let mut t: (usize, usize, usize, usize) = (0, 0, 0, 0);
    let mut i: usize = 0;
    while i < scores.len()
        invariant
            i <= scores@.len(),
            (t.0 as nat, t.1 as nat, t.2 as nat, t.3 as nat) == tier_tally(scores@.subrange(0, i as int)),
            t.0 + t.1 + t.2 + t.3 == i,
        decreases scores@.len() - i,
    {
        assert(scores@.subrange(0, i + 1).drop_last() =~= scores@.subrange(0, i as int));
        let s = scores[i];
        if 90 <= s && s <= 100 {
            t.0 = t.0 + 1;
        } else if 70 <= s && s <= 89 {
            t.1 = t.1 + 1;
        } else if 50 <= s && s <= 69 {
            t.2 = t.2 + 1;
        } else {
            t.3 = t.3 + 1;
        }
        i += 1;
    }
    assert(scores@.subrange(0, scores@.len() as int) =~= scores@);
    t
}

/// A release (album) option for a match.
#[derive(Debug, Clone)]
pub struct MatchRelease {
    pub id: i64,
    pub match_id: i64,
    pub release_id: String,
    pub release_title: String,
    pub release_artist: Option<String>,
    pub release_year: Option<i32>,
    pub release_type: Option<String>,
    pub track_number: Option<i32>,
    pub is_original_release: bool,
    pub is_compilation: bool,
    pub is_preferred: bool,
}

}

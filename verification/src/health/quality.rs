//! Metadata quality assessment for music files.
//!
//! Each flag names an improvement opportunity; the score starts at 100 and
//! loses a fixed penalty per finding, clamped to 0..=100.

use vstd::prelude::*;
use crate::text::{
    chars_of, contains_chars, contains_seq, is_whitespace, owned, replace_all, replace_str,
    str_eq, to_lowercase, unicode_lowercase, unicode_whitespace,
};

verus! {

/// The bits of every defined quality flag.
pub const ALL_FLAG_BITS: u32 = 0x7ffff;

/// Flags indicating metadata quality issues.
///
/// Multiple flags can be set simultaneously.
#[derive(Debug, Clone, Copy, PartialEq, Eq, Structural, Hash)]
pub struct QualityFlags {
    bits: u32,
}

impl View for QualityFlags {
    type V = u32;

    closed spec fn view(&self) -> u32 {
        self.bits
    }
}

/// Whether every bit of `b` is set in `a`.
pub open spec fn bits_contain(a: u32, b: u32) -> bool {
    a & b == b
}

/// Whether `a` and `b` share a bit.
pub open spec fn bits_intersect(a: u32, b: u32) -> bool {
    a & b != 0
}

/// The description of flag bit `i`.
pub open spec fn flag_description(i: int) -> Seq<char> {
    if i == 0 { "Missing artist"@ }
    else if i == 1 { "Missing album"@ }
    else if i == 2 { "Missing year"@ }
    else if i == 3 { "Missing track number"@ }
    else if i == 4 { "Title looks like filename"@ }
    else if i == 5 { "Generic placeholder text"@ }
    else if i == 6 { "No MusicBrainz ID"@ }
    else if i == 7 { "Low confidence match"@ }
    else if i == 8 { "Better match may exist"@ }
    else if i == 9 { "Never checked"@ }
    else if i == 10 { "File changed"@ }
    else if i == 11 { "Title doesn't match fingerprint"@ }
    else if i == 12 { "Artist doesn't match fingerprint"@ }
    else if i == 13 { "Album differs from fingerprint"@ }
    else if i == 14 { "⚠ Possibly mislabeled"@ }
    else if i == 15 { "✓ Verified"@ }
    else if i == 16 { "Could not identify"@ }
    else if i == 17 { "Multiple possible matches"@ }
    else { "Appears on multiple albums"@ }
}

/// The descriptions of the set flags among bits `0..i`, lowest bit first.
pub open spec fn flag_descriptions_upto(bits: u32, i: nat) -> Seq<Seq<char>>
    decreases i,
{
    if i == 0 {
        Seq::empty()
    } else {
        let prev = flag_descriptions_upto(bits, (i - 1) as nat);
        if bits & (1u32 << ((i - 1) as u32)) != 0 {
            prev.push(flag_description(i - 1))
        } else {
            prev
        }
    }
}

/// The descriptions of every set flag, in flag order.
pub open spec fn flag_descriptions(bits: u32) -> Seq<Seq<char>> {
    flag_descriptions_upto(bits, 19)
}

/// The summary icon for a set of flags.
pub open spec fn summary_icon_of(b: u32) -> Seq<char> {
    if bits_contain(b, 0x4000) {
        "⚠"@
    } else if bits_contain(b, 0x8000) && !bits_intersect(b, 0x3800) {
        "✓"@
    } else if b == 0 {
        "✓"@
    } else if bits_contain(b, 0x200) || bits_contain(b, 0x10000) {
        "?"@
    } else if bits_intersect(b, 0x3800) {
        "≠"@
    } else if bits_intersect(b, 0x23) {
        "○"@
    } else {
        "·"@
    }
}

fn description_of(i: u32) -> (r: &'static str)
    requires
        i < 19,
    ensures
        r@ == flag_description(i as int),
{
    if i == 0 { "Missing artist" }
    else if i == 1 { "Missing album" }
    else if i == 2 { "Missing year" }
    else if i == 3 { "Missing track number" }
    else if i == 4 { "Title looks like filename" }
    else if i == 5 { "Generic placeholder text" }
    else if i == 6 { "No MusicBrainz ID" }
    else if i == 7 { "Low confidence match" }
    else if i == 8 { "Better match may exist" }
    else if i == 9 { "Never checked" }
    else if i == 10 { "File changed" }
    else if i == 11 { "Title doesn't match fingerprint" }
    else if i == 12 { "Artist doesn't match fingerprint" }
    else if i == 13 { "Album differs from fingerprint" }
    else if i == 14 { "⚠ Possibly mislabeled" }
    else if i == 15 { "✓ Verified" }
    else if i == 16 { "Could not identify" }
    else if i == 17 { "Multiple possible matches" }
    else { "Appears on multiple albums" }
}

impl QualityFlags {
    /// A flag set from raw bits, keeping them all.
    pub fn from_bits_retain(bits: u32) -> (r: QualityFlags)
        ensures
            r@ == bits,
    {
        QualityFlags { bits }
    }

    /// The empty flag set.
    pub fn empty() -> (r: QualityFlags)
        ensures
            r@ == 0,
    {
        QualityFlags { bits: 0 }
    }

    /// No artist metadata.
    #[allow(non_snake_case)]
    pub fn MISSING_ARTIST() -> (r: QualityFlags)
        ensures
            r@ == 1,
    {
        QualityFlags { bits: 1 }
    }

    /// No album metadata.
    #[allow(non_snake_case)]
    pub fn MISSING_ALBUM() -> (r: QualityFlags)
        ensures
            r@ == 2,
    {
        QualityFlags { bits: 2 }
    }

    /// No release year.
    #[allow(non_snake_case)]
    pub fn MISSING_YEAR() -> (r: QualityFlags)
        ensures
            r@ == 4,
    {
        QualityFlags { bits: 4 }
    }

    /// No track number.
    #[allow(non_snake_case)]
    pub fn MISSING_TRACK_NUM() -> (r: QualityFlags)
        ensures
            r@ == 8,
    {
        QualityFlags { bits: 8 }
    }

    /// Title appears to be derived from filename.
    #[allow(non_snake_case)]
    pub fn TITLE_IS_FILENAME() -> (r: QualityFlags)
        ensures
            r@ == 16,
    {
        QualityFlags { bits: 16 }
    }

    /// Contains generic placeholder text.
    #[allow(non_snake_case)]
    pub fn GENERIC_METADATA() -> (r: QualityFlags)
        ensures
            r@ == 32,
    {
        QualityFlags { bits: 32 }
    }

    /// No MusicBrainz recording ID.
    #[allow(non_snake_case)]
    pub fn NO_MUSICBRAINZ_ID() -> (r: QualityFlags)
        ensures
            r@ == 64,
    {
        QualityFlags { bits: 64 }
    }

    /// Identification confidence was low.
    #[allow(non_snake_case)]
    pub fn LOW_CONFIDENCE() -> (r: QualityFlags)
        ensures
            r@ == 128,
    {
        QualityFlags { bits: 128 }
    }

    /// A better match might be available.
    #[allow(non_snake_case)]
    pub fn BETTER_MATCH_AVAILABLE() -> (r: QualityFlags)
        ensures
            r@ == 256,
    {
        QualityFlags { bits: 256 }
    }

    /// File has never been checked.
    #[allow(non_snake_case)]
    pub fn NEVER_CHECKED() -> (r: QualityFlags)
        ensures
            r@ == 512,
    {
        QualityFlags { bits: 512 }
    }

    /// File changed since last check.
    #[allow(non_snake_case)]
    pub fn FILE_CHANGED() -> (r: QualityFlags)
        ensures
            r@ == 1024,
    {
        QualityFlags { bits: 1024 }
    }

    /// Title doesn't match fingerprint result.
    #[allow(non_snake_case)]
    pub fn TITLE_MISMATCH() -> (r: QualityFlags)
        ensures
            r@ == 2048,
    {
        QualityFlags { bits: 2048 }
    }

    /// Artist doesn't match fingerprint result.
    #[allow(non_snake_case)]
    pub fn ARTIST_MISMATCH() -> (r: QualityFlags)
        ensures
            r@ == 4096,
    {
        QualityFlags { bits: 4096 }
    }

    /// Album doesn't match fingerprint result.
    #[allow(non_snake_case)]
    pub fn ALBUM_MISMATCH() -> (r: QualityFlags)
        ensures
            r@ == 8192,
    {
        QualityFlags { bits: 8192 }
    }

    /// Track might be mislabeled.
    #[allow(non_snake_case)]
    pub fn POSSIBLY_MISLABELED() -> (r: QualityFlags)
        ensures
            r@ == 16384,
    {
        QualityFlags { bits: 16384 }
    }

    /// Track verified against fingerprint database.
    #[allow(non_snake_case)]
    pub fn VERIFIED() -> (r: QualityFlags)
        ensures
            r@ == 32768,
    {
        QualityFlags { bits: 32768 }
    }

    /// Fingerprint found but no match in database.
    #[allow(non_snake_case)]
    pub fn UNIDENTIFIED() -> (r: QualityFlags)
        ensures
            r@ == 65536,
    {
        QualityFlags { bits: 65536 }
    }

    /// Multiple good matches exist.
    #[allow(non_snake_case)]
    pub fn AMBIGUOUS_MATCH() -> (r: QualityFlags)
        ensures
            r@ == 131072,
    {
        QualityFlags { bits: 131072 }
    }

    /// Recording appears on multiple albums.
    #[allow(non_snake_case)]
    pub fn MULTI_ALBUM() -> (r: QualityFlags)
        ensures
            r@ == 262144,
    {
        QualityFlags { bits: 262144 }
    }

    /// Any mismatch between metadata and fingerprint.
    #[allow(non_snake_case)]
    pub fn ANY_MISMATCH() -> (r: QualityFlags)
        ensures
            r@ == 0x3800,
    {
        QualityFlags { bits: 0x3800 }
    }

    /// Any critical issue needing attention.
    #[allow(non_snake_case)]
    pub fn NEEDS_REVIEW() -> (r: QualityFlags)
        ensures
            r@ == 0x34000,
    {
        QualityFlags { bits: 0x34000 }
    }

    /// The raw bits.
    pub fn bits(&self) -> (r: u32)
        ensures
            r == self@,
    {
        self.bits
    }

    /// A flag set from raw bits, dropping bits that name no flag.
    pub fn from_bits_truncate(bits: u32) -> (r: QualityFlags)
        ensures
            r@ == bits & ALL_FLAG_BITS,
    {
        QualityFlags { bits: bits & ALL_FLAG_BITS }
    }

    /// Whether every flag of `other` is set.
    pub fn contains(&self, other: QualityFlags) -> (r: bool)
        ensures
            r == bits_contain(self@, other@),
    {
        self.bits & other.bits == other.bits
    }

    /// Whether any flag of `other` is set.
    pub fn intersects(&self, other: QualityFlags) -> (r: bool)
        ensures
            r == bits_intersect(self@, other@),
    {
        self.bits & other.bits != 0
    }

    /// Whether no flag is set.
    pub fn is_empty(&self) -> (r: bool)
        ensures
            r == (self@ == 0),
    {
        self.bits == 0
    }

    /// The flags set in both.
    pub fn intersection(&self, other: QualityFlags) -> (r: QualityFlags)
        ensures
            r@ == self@ & other@,
    {
        QualityFlags { bits: self.bits & other.bits }
    }

    /// The flags set in either.
    pub fn union(&self, other: QualityFlags) -> (r: QualityFlags)
        ensures
            r@ == self@ | other@,
    {
        QualityFlags { bits: self.bits | other.bits }
    }

    /// Sets the flags of `other`.
    pub fn insert(&mut self, other: QualityFlags)
        ensures
            final(self)@ == old(self)@ | other@,
    {
        self.bits = self.bits | other.bits;
    }

    /// Clears the flags of `other`.
    pub fn remove(&mut self, other: QualityFlags)
        ensures
            final(self)@ == old(self)@ & !other@,
    {
        self.bits = self.bits & !other.bits;
    }

    /// Get human-readable descriptions of all set flags.
    pub fn descriptions(&self) -> (r: Vec<&'static str>)
        ensures
            r@.map_values(|s: &'static str| s@) == flag_descriptions(self@),
    {
        let mut descs: Vec<&'static str> = Vec::new();
        let mut i: u32 = 0;
        while i < 19
            invariant
                i <= 19,
                descs@.map_values(|s: &'static str| s@) == flag_descriptions_upto(self@, i as nat),
            decreases 19 - i,
        {
            if self.bits & (1u32 << i) != 0 {
                let d = description_of(i);
                let ghost before = descs@;
                descs.push(d);
                assert(descs@.map_values(|s: &'static str| s@)
                    =~= before.map_values(|s: &'static str| s@).push(d@));
            }
            i += 1;
        }
        descs
    }

    /// Get a short summary icon for display.
    pub fn summary_icon(&self) -> (r: &'static str)
        ensures
            r@ == summary_icon_of(self@),
    {
        let b = self.bits;
        if b & 0x4000 == 0x4000 {
            "⚠"
        } else if b & 0x8000 == 0x8000 && b & 0x3800 == 0 {
            "✓"
        } else if b == 0 {
            "✓"
        } else if b & 0x200 == 0x200 || b & 0x10000 == 0x10000 {
            "?"
        } else if b & 0x3800 != 0 {
            "≠"
        } else if b & 0x23 != 0 {
            "○"
        } else {
            "·"
        }
    }

    /// Convert to bits for database storage.
    pub fn to_bits_i64(&self) -> (r: i64)
        ensures
            r == self@ as int,
    {
        self.bits as i64
    }

    /// Create from database bits.
    pub fn from_bits_i64(bits: i64) -> (r: QualityFlags)
        ensures
            r@ == (bits as u32) & ALL_FLAG_BITS,
    {
        QualityFlags::from_bits_truncate(bits as u32)
    }
}

impl Default for QualityFlags {
    fn default() -> (r: QualityFlags)
        ensures
            r@ == 0,
    {
        QualityFlags { bits: 0 }
    }
}

impl vstd::std_specs::ops::BitOrSpecImpl for QualityFlags {
    open spec fn obeys_bitor_spec() -> bool {
        true
    }

    open spec fn bitor_req(self, rhs: QualityFlags) -> bool {
        true
    }

    closed spec fn bitor_spec(self, rhs: QualityFlags) -> QualityFlags {
        QualityFlags { bits: self.bits | rhs.bits }
    }
}

impl std::ops::BitOr for QualityFlags {
    type Output = QualityFlags;

    fn bitor(self, rhs: QualityFlags) -> (r: QualityFlags)
        ensures
            r@ == self@ | rhs@,
    {
        QualityFlags { bits: self.bits | rhs.bits }
    }
}

/// Law: storing flags as database bits and reading them back gives the same
/// flags, for every flag set made of defined flags.
pub proof fn quality_flags_roundtrip(bits: u32)
    requires
        bits & ALL_FLAG_BITS == bits,
    ensures
        ((bits as i64) as u32) & ALL_FLAG_BITS == bits,
{
    assert(((bits as i64) as u32) == bits) by (bit_vector);
}

/// Law: truncating drops exactly the bits that name no flag, and doing it
/// twice changes nothing more.
pub proof fn truncate_is_idempotent(bits: u32)
    ensures
        (bits & ALL_FLAG_BITS) & ALL_FLAG_BITS == bits & ALL_FLAG_BITS,
        (bits & ALL_FLAG_BITS) & !ALL_FLAG_BITS == 0,
{
    assert((bits & 0x7ffffu32) & 0x7ffffu32 == bits & 0x7ffffu32) by (bit_vector);
    assert((bits & 0x7ffffu32) & !0x7ffffu32 == 0) by (bit_vector);
}

/// Quality tier for display purposes.
#[derive(Debug, Clone, Copy, PartialEq, Eq, Structural)]
pub enum QualityTier {
    Excellent,
    Good,
    Fair,
    Poor,
}

/// The tier a score falls in.
pub open spec fn tier_of(score: u8) -> QualityTier {
    if 90 <= score <= 100 {
        QualityTier::Excellent
    } else if 70 <= score <= 89 {
        QualityTier::Good
    } else if 50 <= score <= 69 {
        QualityTier::Fair
    } else {
        QualityTier::Poor
    }
}

impl QualityTier {
    /// Get display color (as theme color name).
    pub fn color_name(&self) -> (r: &'static str)
        ensures
            r@ == (match self {
                QualityTier::Excellent => "success"@,
                QualityTier::Good => "text"@,
                QualityTier::Fair => "warning"@,
                QualityTier::Poor => "error"@,
            }),
    {
        match self {
            QualityTier::Excellent => "success",
            QualityTier::Good => "text",
            QualityTier::Fair => "warning",
            QualityTier::Poor => "error",
        }
    }

    /// Get emoji for display.
    pub fn emoji(&self) -> (r: &'static str)
        ensures
            r@ == (match self {
                QualityTier::Excellent => "★"@,
                QualityTier::Good => "●"@,
                QualityTier::Fair => "◐"@,
                QualityTier::Poor => "○"@,
            }),
    {
        match self {
            QualityTier::Excellent => "★",
            QualityTier::Good => "●",
            QualityTier::Fair => "◐",
            QualityTier::Poor => "○",
        }
    }
}

/// How an identification's confidence compares with the thresholds 0.7 and
/// 0.9; `Unchecked` when the track was never identified.
#[derive(Debug, Clone, Copy, PartialEq, Eq, Structural)]
pub enum MatchConfidence {
    /// Never checked against the fingerprint database
    Unchecked,
    /// Below 0.7
    Low,
    /// At least 0.7 and below 0.9
    Moderate,
    /// Every other value
    High,
}

/// Quality assessment for a track.
#[derive(Debug, Clone)]
pub struct TrackQuality {
    /// Quality flags indicating issues
    pub flags: QualityFlags,
    /// Overall quality score (0-100)
    pub score: u8,
    /// How the identification confidence compares with the thresholds
    pub confidence: MatchConfidence,
    /// MusicBrainz recording ID (if identified)
    pub musicbrainz_id: Option<String>,
}

impl TrackQuality {
    /// Check if this track needs attention.
    pub fn needs_attention(&self) -> (r: bool)
        ensures
            r == (self.score < 70 || bits_intersect(self.flags@, 0x223)),
    {
        self.score < 70 || self.flags.intersects(QualityFlags::from_bits_retain(0x223))
    }

    /// Check if this track could be improved.
    pub fn could_improve(&self) -> (r: bool)
        ensures
            r == (self.flags@ != 0),
    {
        !self.flags.is_empty()
    }

    /// Get a quality tier for display.
    pub fn tier(&self) -> (r: QualityTier)
        ensures
            r == tier_of(self.score),
    {
        if 90 <= self.score && self.score <= 100 {
            QualityTier::Excellent
        } else if 70 <= self.score && self.score <= 89 {
            QualityTier::Good
        } else if 50 <= self.score && self.score <= 69 {
            QualityTier::Fair
        } else {
            QualityTier::Poor
        }
    }
}

/// Whether a text is empty after trimming whitespace.
pub open spec fn is_blank(s: Seq<char>) -> bool {
    forall|i: int| 0 <= i < s.len() ==> unicode_whitespace(#[trigger] s[i])
}

/// Whether an optional text is absent or blank.
pub open spec fn missing_text(o: Option<Seq<char>>) -> bool {
    match o {
        Some(s) => is_blank(s),
        None => true,
    }
}

/// `s` with every trailing repetition of `pat` removed (`str::trim_end_matches`).
pub open spec fn trim_end_matches(s: Seq<char>, pat: Seq<char>) -> Seq<char>
    decreases s.len(),
{
    if pat.len() > 0 && pat.len() <= s.len() && s.subrange(s.len() - pat.len(), s.len() as int) == pat {
        trim_end_matches(s.subrange(0, s.len() - pat.len()), pat)
    } else {
        s
    }
}

/// A lowercase filename with audio extensions trimmed off its end.
pub open spec fn clean_filename(lower: Seq<char>) -> Seq<char> {
    trim_end_matches(
        trim_end_matches(
            trim_end_matches(
                trim_end_matches(trim_end_matches(lower, ".mp3"@), ".flac"@),
                ".m4a"@,
            ),
            ".ogg"@,
        ),
        ".wav"@,
    )
}

/// Whether a title looks like it was derived from the filename.
pub open spec fn title_is_filename(title: Seq<char>, filename: Seq<char>) -> bool {
    let t = unicode_lowercase(title);
    let f = clean_filename(unicode_lowercase(filename));
    t == f || replace_all(t, " "@, "_"@) == f || replace_all(t, " "@, "-"@) == f
}

/// The placeholder patterns that mark generic metadata.
pub open spec fn generic_pattern(i: int) -> Seq<char> {
    if i == 0 { "unknown artist"@ }
    else if i == 1 { "unknown album"@ }
    else if i == 2 { "various artists"@ }
    else if i == 3 { "track "@ }
    else if i == 4 { "audio track"@ }
    else if i == 5 { "untitled"@ }
    else { "new recording"@ }
}

/// Whether a text contains a generic placeholder, ignoring case.
pub open spec fn has_generic(text: Seq<char>) -> bool {
    exists|i: int| 0 <= i < 7 && contains_seq(unicode_lowercase(text), #[trigger] generic_pattern(i))
}

/// Whether an optional text contains a generic placeholder.
pub open spec fn opt_has_generic(o: Option<Seq<char>>) -> bool {
    match o {
        Some(s) => has_generic(s),
        None => false,
    }
}

/// The inputs of a quality assessment, as plain text.
pub ghost struct QualityInput {
    pub title: Seq<char>,
    pub artist: Option<Seq<char>>,
    pub album: Option<Seq<char>>,
    pub has_year: bool,
    pub has_track_num: bool,
    pub filename: Seq<char>,
    pub has_musicbrainz_id: bool,
    pub confidence: MatchConfidence,
}

/// The flags a quality assessment sets.
pub open spec fn assessed_flags(q: QualityInput) -> u32 {
    (if missing_text(q.artist) { 1u32 } else { 0u32 })
    | (if missing_text(q.album) { 2u32 } else { 0u32 })
    | (if !q.has_year { 4u32 } else { 0u32 })
    | (if !q.has_track_num { 8u32 } else { 0u32 })
    | (if title_is_filename(q.title, q.filename) { 16u32 } else { 0u32 })
    | (if has_generic(q.title) || opt_has_generic(q.artist) || opt_has_generic(q.album) { 32u32 } else { 0u32 })
    | (if !q.has_musicbrainz_id { 64u32 } else { 0u32 })
    | (match q.confidence {
        MatchConfidence::Low => 128u32,
        MatchConfidence::Moderate => 256u32,
        MatchConfidence::Unchecked => 512u32,
        MatchConfidence::High => 0u32,
    })
}

/// The total penalty of a quality assessment.
pub open spec fn assessed_penalty(q: QualityInput) -> int {
    (if missing_text(q.artist) { 25int } else { 0int })
    + (if missing_text(q.album) { 15int } else { 0int })
    + (if !q.has_year { 5int } else { 0int })
    + (if !q.has_track_num { 5int } else { 0int })
    + (if title_is_filename(q.title, q.filename) { 20int } else { 0int })
    + (if has_generic(q.title) || opt_has_generic(q.artist) || opt_has_generic(q.album) { 15int } else { 0int })
    + (if !q.has_musicbrainz_id { 10int } else { 0int })
    + (match q.confidence {
        MatchConfidence::Low => 10int,
        MatchConfidence::Moderate => 5int,
        MatchConfidence::Unchecked => 10int,
        MatchConfidence::High => 0int,
    })
}

/// The score of a quality assessment: 100 less the penalties, at least 0.
pub open spec fn assessed_score(q: QualityInput) -> int {
    if 100 - assessed_penalty(q) < 0 { 0 } else { 100 - assessed_penalty(q) }
}

/// Views an optional string slice as an optional character sequence.
pub open spec fn opt_str_view(o: Option<&str>) -> Option<Seq<char>> {
    match o {
        Some(s) => Some(s@),
        None => None,
    }
}

/// Whether a text is empty after trimming whitespace (`s.trim().is_empty()`).
pub fn text_is_blank(s: &str) -> (r: bool)
    ensures
        r == is_blank(s@),
{
    let cs = chars_of(s);
    let mut i: usize = 0;
    while i < cs.len()
        invariant
            cs@ == s@,
            i <= cs@.len(),
            forall|k: int| 0 <= k < i ==> unicode_whitespace(#[trigger] cs@[k]),
        decreases cs@.len() - i,
    {
        if !is_whitespace(cs[i]) {
            return false;
        }
        i += 1;
    }
    true
}

fn opt_text_missing(o: Option<&str>) -> (r: bool)
    ensures
        r == missing_text(opt_str_view(o)),
{
    match o {
        Some(s) => text_is_blank(s),
        None => true,
    }
}

fn ends_with_at(s: &[char], pat: &[char], end: usize) -> (r: bool)
    requires
        end <= s@.len(),
    ensures
        r == (pat@.len() <= end && s@.subrange(end - pat@.len(), end as int) == pat@),
{
    if pat.len() > end {
        return false;
    }
    let mut j: usize = 0;
    while j < pat.len()
        invariant
            pat@.len() <= end <= s@.len(),
            j <= pat@.len(),
            forall|k: int| 0 <= k < j ==> s@[end - pat@.len() + k] == pat@[k],
        decreases pat@.len() - j,
    {
        if s[end - pat.len() + j] != pat[j] {
            assert(s@.subrange(end - pat@.len(), end as int)[j as int] != pat@[j as int]);
            return false;
        }
        j += 1;
    }
    assert(s@.subrange(end - pat@.len(), end as int) =~= pat@);
    true
}

/// Removes every trailing repetition of a non-empty pattern.
pub fn trim_end_pattern(s: &[char], pat: &[char]) -> (r: Vec<char>)
    requires
        pat@.len() > 0,
    ensures
        r@ == trim_end_matches(s@, pat@),
{
    let mut end: usize = s.len();
    assert(s@.subrange(0, s@.len() as int) =~= s@);
    loop
        invariant
            end <= s@.len(),
            pat@.len() > 0,
            trim_end_matches(s@.subrange(0, end as int), pat@) == trim_end_matches(s@, pat@),
        ensures
            end <= s@.len(),
            trim_end_matches(s@.subrange(0, end as int), pat@) == trim_end_matches(s@, pat@),
            trim_end_matches(s@.subrange(0, end as int), pat@) == s@.subrange(0, end as int),
        decreases end,
    {
        let ghost t = s@.subrange(0, end as int);
        let more = ends_with_at(s, pat, end);
        proof {
            if pat@.len() <= end {
                assert(t.subrange(t.len() - pat@.len(), t.len() as int) =~= s@.subrange(end - pat@.len(), end as int));
            }
        }
        if !more {
            break;
        }
        assert(t.subrange(0, t.len() - pat@.len()) =~= s@.subrange(0, end - pat@.len()));
        end = end - pat.len();
    }
    let mut out: Vec<char> = Vec::new();
    let mut i: usize = 0;
    while i < end
        invariant
            i <= end <= s@.len(),
            out@ == s@.subrange(0, i as int),
        decreases end - i,
    {
        out.push(s[i]);
        i += 1;
    }
    out
}

fn generic_pattern_str(i: usize) -> (r: &'static str)
    requires
        i < 7,
    ensures
        r@ == generic_pattern(i as int),
{
    if i == 0 { "unknown artist" }
    else if i == 1 { "unknown album" }
    else if i == 2 { "various artists" }
    else if i == 3 { "track " }
    else if i == 4 { "audio track" }
    else if i == 5 { "untitled" }
    else { "new recording" }
}

/// Whether a text contains a generic placeholder, ignoring case.
pub fn text_has_generic(text: &str) -> (r: bool)
    ensures
        r == has_generic(text@),
{
    let lower = to_lowercase(text);
    let lc = chars_of(lower.as_str());
    let mut i: usize = 0;
    while i < 7
        invariant
            i <= 7,
            lc@ == unicode_lowercase(text@),
            forall|k: int| 0 <= k < i ==> !contains_seq(unicode_lowercase(text@), #[trigger] generic_pattern(k)),
        decreases 7 - i,
    {
        let p = chars_of(generic_pattern_str(i));
        if contains_chars(lc.as_slice(), p.as_slice()) {
            return true;
        }
        i += 1;
    }
    false
}

fn opt_text_has_generic(o: Option<&str>) -> (r: bool)
    ensures
        r == opt_has_generic(opt_str_view(o)),
{
    match o {
        Some(s) => text_has_generic(s),
        None => false,
    }
}

/// Whether a title looks like it was derived from the filename.
pub fn title_matches_filename(title: &str, filename: &str) -> (r: bool)
    ensures
        r == title_is_filename(title@, filename@),
{
    let title_lower = to_lowercase(title);
    let filename_lower = to_lowercase(filename);
    proof {
        reveal_strlit(".mp3");
        reveal_strlit(".flac");
        reveal_strlit(".m4a");
        reveal_strlit(".ogg");
        reveal_strlit(".wav");
    }
    let f0 = chars_of(filename_lower.as_str());
    let f1 = trim_end_pattern(f0.as_slice(), chars_of(".mp3").as_slice());
    let f2 = trim_end_pattern(f1.as_slice(), chars_of(".flac").as_slice());
    let f3 = trim_end_pattern(f2.as_slice(), chars_of(".m4a").as_slice());
    let f4 = trim_end_pattern(f3.as_slice(), chars_of(".ogg").as_slice());
    let f5 = trim_end_pattern(f4.as_slice(), chars_of(".wav").as_slice());
    let clean = crate::text::string_from_chars(f5.as_slice());
    if title_lower == clean {
        return true;
    }
    proof {
        reveal_strlit(" ");
    }
    let underscored = replace_str(title_lower.as_str(), " ", "_");
    if underscored == clean {
        return true;
    }
    let dashed = replace_str(title_lower.as_str(), " ", "-");
    dashed == clean
}

/// Assess the quality of a track's metadata.
///
/// `filename` is the original filename without its extension; `confidence`
/// places the identification confidence against the thresholds.
pub fn assess_quality(
    title: &str,
    artist: Option<&str>,
    album: Option<&str>,
    year: Option<i64>,
    track_num: Option<i64>,
    filename: &str,
    musicbrainz_id: Option<&str>,
    confidence: MatchConfidence,
) -> (r: TrackQuality)
    ensures
        ({
            let q = QualityInput {
                title: title@,
                artist: opt_str_view(artist),
                album: opt_str_view(album),
                has_year: year is Some,
                has_track_num: track_num is Some,
                filename: filename@,
                has_musicbrainz_id: musicbrainz_id is Some,
                confidence,
            };
            &&& r.flags@ == assessed_flags(q)
            &&& r.score as int == assessed_score(q)
            &&& r.confidence == confidence
            &&& crate::text::opt_view(r.musicbrainz_id) == opt_str_view(musicbrainz_id)
        }),
{
    let ghost q = QualityInput {
        title: title@,
        artist: opt_str_view(artist),
        album: opt_str_view(album),
        has_year: year is Some,
        has_track_num: track_num is Some,
        filename: filename@,
        has_musicbrainz_id: musicbrainz_id is Some,
        confidence,
    };
    let mut score: i32 = 100;
    let missing_artist = opt_text_missing(artist);
    if missing_artist {
        score = score - 25;
    }
    let missing_album = opt_text_missing(album);
    if missing_album {
        score = score - 15;
    }
    if year.is_none() {
        score = score - 5;
    }
    if track_num.is_none() {
        score = score - 5;
    }
    let from_filename = title_matches_filename(title, filename);
    if from_filename {
        score = score - 20;
    }
    let generic = text_has_generic(title) || opt_text_has_generic(artist) || opt_text_has_generic(album);
    if generic {
        score = score - 15;
    }
    if musicbrainz_id.is_none() {
        score = score - 10;
    }
    let confidence_bits: u32 = match confidence {
        MatchConfidence::Low => {
            score = score - 10;
            128
        },
        MatchConfidence::Moderate => {
            score = score - 5;
            256
        },
        MatchConfidence::Unchecked => {
            score = score - 10;
            512
        },
        MatchConfidence::High => 0,
    };
    let bits: u32 = (if missing_artist { 1u32 } else { 0u32 })
        | (if missing_album { 2u32 } else { 0u32 })
        | (if year.is_none() { 4u32 } else { 0u32 })
        | (if track_num.is_none() { 8u32 } else { 0u32 })
        | (if from_filename { 16u32 } else { 0u32 })
        | (if generic { 32u32 } else { 0u32 })
        | (if musicbrainz_id.is_none() { 64u32 } else { 0u32 })
        | confidence_bits;
    let final_score: u8 = if score < 0 { 0 } else { score as u8 };
    let mb = match musicbrainz_id {
        Some(m) => Some(owned(m)),
        None => None,
    };
    TrackQuality {
        flags: QualityFlags::from_bits_retain(bits),
        score: final_score,
        confidence,
        musicbrainz_id: mb,
    }
}

/// Law: every assessment scores between 0 and 100.
pub proof fn score_stays_within_bounds(q: QualityInput)
    ensures
        0 <= assessed_score(q) <= 100,
{
}


proof fn lemma_flag_bits(b0: bool, b1: bool, b2: bool, b3: bool, b4: bool, b5: bool, b6: bool, c: u32)
    by (bit_vector)
    requires
        c == 0 || c == 128 || c == 256 || c == 512,
    ensures
        ({
            let f = (if b0 { 1u32 } else { 0u32 }) | (if b1 { 2u32 } else { 0u32 }) | (if b2 { 4u32 } else { 0u32 })
                | (if b3 { 8u32 } else { 0u32 }) | (if b4 { 16u32 } else { 0u32 }) | (if b5 { 32u32 } else { 0u32 })
                | (if b6 { 64u32 } else { 0u32 }) | c;
            &&& (f & 1 != 0) == b0
            &&& (f & 2 != 0) == b1
            &&& (f & 4 != 0) == b2
            &&& (f & 8 != 0) == b3
            &&& (f & 16 != 0) == b4
            &&& (f & 32 != 0) == b5
            &&& (f & 64 != 0) == b6
            &&& (f & 128 != 0) == (c == 128)
            &&& (f & 256 != 0) == (c == 256)
            &&& (f & 512 != 0) == (c == 512)
            &&& f & !0x3ffu32 == 0
        }),
{
}

/// The penalty a flag set carries: 25 for a missing artist, 15 for a
/// missing album, 5 each for a missing year or track number, 20 for a title
/// that is the filename, 15 for generic text, 10 for no MusicBrainz ID, 10
/// for a low-confidence match, 5 for a moderate one and 10 for one never
/// checked.
pub open spec fn flags_penalty(f: u32) -> int {
    (if f & 1 != 0 { 25int } else { 0int }) + (if f & 2 != 0 { 15int } else { 0int })
        + (if f & 4 != 0 { 5int } else { 0int }) + (if f & 8 != 0 { 5int } else { 0int })
        + (if f & 16 != 0 { 20int } else { 0int }) + (if f & 32 != 0 { 15int } else { 0int })
        + (if f & 64 != 0 { 10int } else { 0int }) + (if f & 128 != 0 { 10int } else { 0int })
        + (if f & 256 != 0 { 5int } else { 0int }) + (if f & 512 != 0 { 10int } else { 0int })
}

/// Law: each flag of an assessment is set exactly when its finding holds of
/// the track, on its own field (missing artist, missing album, no year, no
/// track number, title taken from the filename, generic text, no
/// MusicBrainz ID, and the match confidence), no other flag is set, and the
/// score is 100 less the penalties of the flags set, never below 0.
pub proof fn assessment_flags_name_their_findings(q: QualityInput)
    ensures
        (assessed_flags(q) & 1 != 0) == missing_text(q.artist),
        (assessed_flags(q) & 2 != 0) == missing_text(q.album),
        (assessed_flags(q) & 4 != 0) == !q.has_year,
        (assessed_flags(q) & 8 != 0) == !q.has_track_num,
        (assessed_flags(q) & 16 != 0) == title_is_filename(q.title, q.filename),
        (assessed_flags(q) & 32 != 0) == (has_generic(q.title) || opt_has_generic(q.artist) || opt_has_generic(q.album)),
        (assessed_flags(q) & 64 != 0) == !q.has_musicbrainz_id,
        (assessed_flags(q) & 128 != 0) == (q.confidence == MatchConfidence::Low),
        (assessed_flags(q) & 256 != 0) == (q.confidence == MatchConfidence::Moderate),
        (assessed_flags(q) & 512 != 0) == (q.confidence == MatchConfidence::Unchecked),
        assessed_flags(q) & !0x3ffu32 == 0,
        assessed_score(q) == (if flags_penalty(assessed_flags(q)) > 100 { 0 } else { 100 - flags_penalty(assessed_flags(q)) }),
{
    let c: u32 = match q.confidence {
        MatchConfidence::Low => 128u32,
        MatchConfidence::Moderate => 256u32,
        MatchConfidence::Unchecked => 512u32,
        MatchConfidence::High => 0u32,
    };
    lemma_flag_bits(
        missing_text(q.artist),
        missing_text(q.album),
        !q.has_year,
        !q.has_track_num,
        title_is_filename(q.title, q.filename),
        has_generic(q.title) || opt_has_generic(q.artist) || opt_has_generic(q.album),
        !q.has_musicbrainz_id,
        c,
    );
}

}

//! File organization: where a track belongs in a library laid out by a
//! pattern such as `{Artist}/{Album}/{TrackNum} - {Title}.{ext}`, and the
//! log of moves that an undo replays.
//!
//! Moving the files is the caller's work; this module decides where they go.

use vstd::prelude::*;
use crate::metadata::TrackMetadata;
use crate::paths::{extension, join, path_exists, path_extension, path_join};
use crate::text::{
    chars_of, decimal_pad2, opt_view, owned, replace_all, replace_str, string_from_chars,
    u64_to_string_pad2,
};

verus! {

/// The file the undo log is kept in, in the working directory.
pub const UNDO_LOG_PATH: &'static str = "music_minder_undo.json";

/// A record of a file move operation, used for undo functionality
#[derive(Debug, Clone)]
pub struct MoveRecord {
    pub source: String,
    pub destination: String,
    pub track_id: i64,
}

/// The undo log containing the last organize operation
#[derive(Debug, Clone)]
pub struct UndoLog {
    pub moves: Vec<MoveRecord>,
    pub timestamp: Option<String>,
}

impl Default for UndoLog {
    fn default() -> (r: UndoLog)
        ensures
            r.moves@.len() == 0,
            r.timestamp is None,
    {
        UndoLog { moves: Vec::new(), timestamp: None }
    }
}

impl UndoLog {
    /// Check if there's an undo operation available: whether the log file
    /// exists. What is on disk is not stated.
    pub fn has_undo() -> bool {
        path_exists(UNDO_LOG_PATH)
    }
}

/// Preview result for dry-run
#[derive(Debug, Clone)]
pub struct OrganizePreview {
    pub source: String,
    pub destination: String,
    pub track_id: i64,
}

/// Whether a character cannot stand in a file name on common systems.
pub open spec fn is_forbidden(c: char) -> bool {
    c == '/' || c == '\\' || c == ':' || c == '*' || c == '?' || c == '"' || c == '<' || c == '>'
        || c == '|'
}

/// A name with every forbidden character replaced by `_`.
pub open spec fn sanitized(s: Seq<char>) -> Seq<char> {
    s.map_values(|c: char| if is_forbidden(c) { '_' } else { c })
}

/// Sanitizes a filename by replacing invalid characters with `_`.
pub fn sanitize_filename(name: &str) -> (r: String)
    ensures
        r@ == sanitized(name@),
        r@.len() == name@.len(),
        forall|i: int| 0 <= i < r@.len() ==> !is_forbidden(#[trigger] r@[i]),
        (forall|i: int| 0 <= i < name@.len() ==> !is_forbidden(#[trigger] name@[i])) ==> r@
            == name@,
{
    let cs = chars_of(name);
    let mut out: Vec<char> = Vec::new();
    let mut i: usize = 0;
    while i < cs.len()
        invariant
            cs@ == name@,
            i <= cs@.len(),
            out@ == sanitized(cs@.subrange(0, i as int)),
        decreases cs@.len() - i,
    {
        let c = cs[i];
        let d = if c == '/' || c == '\\' || c == ':' || c == '*' || c == '?' || c == '"' || c
            == '<' || c == '>' || c == '|' {
            '_'
        } else {
            c
        };
        out.push(d);
        assert(out@ =~= sanitized(cs@.subrange(0, i + 1)));
        i += 1;
    }
    assert(cs@.subrange(0, cs@.len() as int) =~= cs@);
    let r = string_from_chars(out.as_slice());
    assert(r@ =~= name@ <== (forall|i: int| 0 <= i < name@.len() ==> !is_forbidden(#[trigger] name@[i])));
    r
}

/// The track number as a pattern writes it: two digits at least, `00` when
/// unknown.
pub open spec fn track_num_text(n: Option<u32>) -> Seq<char> {
    match n {
        Some(v) => decimal_pad2(v as nat),
        None => "00"@,
    }
}

/// The relative path a pattern gives for a track: each of `{Artist}`,
/// `{Album}`, `{Title}`, `{TrackNum}` and `{ext}` replaced in turn.
pub open spec fn pattern_path(pattern: Seq<char>, m: TrackMetadata, ext: Seq<char>) -> Seq<char> {
    let a = replace_all(pattern, "{Artist}"@, sanitized(m.artist@));
    let b = replace_all(a, "{Album}"@, sanitized(m.album@));
    let c = replace_all(b, "{Title}"@, sanitized(m.title@));
    let d = replace_all(c, "{TrackNum}"@, track_num_text(m.track_number));
    replace_all(d, "{ext}"@, ext)
}

/// The extension a moved file keeps: the source's, else `mp3`.
pub open spec fn kept_extension(source: Seq<char>) -> Seq<char> {
    match path_extension(source) {
        Some(e) => e,
        None => "mp3"@,
    }
}

/// Fills a pattern with a track's metadata.
pub fn fill_pattern(pattern: &str, metadata: &TrackMetadata, ext: &str) -> (r: String)
    ensures
        r@ == pattern_path(pattern@, *metadata, ext@),
{
    proof {
        reveal_strlit("{Artist}");
        reveal_strlit("{Album}");
        reveal_strlit("{Title}");
        reveal_strlit("{TrackNum}");
        reveal_strlit("{ext}");
        reveal_strlit("00");
    }
    let track_num = match metadata.track_number {
        Some(n) => u64_to_string_pad2(n as u64),
        None => owned("00"),
    };
    let artist = sanitize_filename(metadata.artist.as_str());
    let album = sanitize_filename(metadata.album.as_str());
    let title = sanitize_filename(metadata.title.as_str());
    let a = replace_str(pattern, "{Artist}", artist.as_str());
    let b = replace_str(a.as_str(), "{Album}", album.as_str());
    let c = replace_str(b.as_str(), "{Title}", title.as_str());
    let d = replace_str(c.as_str(), "{TrackNum}", track_num.as_str());
    replace_str(d.as_str(), "{ext}", ext)
}

/// Where organizing would move a file: the destination root joined with
/// the filled pattern.
pub open spec fn organized_destination(
    source: Seq<char>,
    m: TrackMetadata,
    pattern: Seq<char>,
    root: Seq<char>,
) -> Seq<char> {
    path_join(root, pattern_path(pattern, m, kept_extension(source)))
}

/// Computes where organizing would move a file.
pub fn organize_destination(source_path: &str, metadata: &TrackMetadata, pattern: &str, destination_root: &str) -> (r: String)
    ensures
        r@ == organized_destination(source_path@, *metadata, pattern@, destination_root@),
{
    proof {
        reveal_strlit("mp3");
    }
    let ext = match extension(source_path) {
        Some(e) => e,
        None => owned("mp3"),
    };
    let rel = fill_pattern(pattern, metadata, ext.as_str());
    join(destination_root, rel.as_str())
}

/// Generates a preview of what organize would do (dry-run)
pub fn preview_organize(
    source_path: &str,
    metadata: &TrackMetadata,
    pattern: &str,
    destination_root: &str,
    track_id: i64,
) -> (r: OrganizePreview)
    ensures
        r.source@ == source_path@,
        r.destination@ == organized_destination(source_path@, *metadata, pattern@, destination_root@),
        r.track_id == track_id,
{
    OrganizePreview {
        source: owned(source_path),
        destination: organize_destination(source_path, metadata, pattern, destination_root),
        track_id,
    }
}

/// Law: a track number below one hundred is written with exactly two
/// digits.
pub proof fn track_number_has_two_digits(n: u32)
    requires
        n < 100,
    ensures
        track_num_text(Some(n)).len() == 2,
{
    if n >= 10 {
        assert(crate::text::decimal((n / 10) as nat).len() == 1);
    }
}

/// Law: sanitizing a sanitized name changes nothing.
pub proof fn sanitize_is_idempotent(s: Seq<char>)
    ensures
        sanitized(sanitized(s)) == sanitized(s),
{
    assert(sanitized(sanitized(s)) =~= sanitized(s));
}

}

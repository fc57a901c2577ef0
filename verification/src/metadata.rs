//! Audio file metadata: the values read from a file's tags, and the rules
//! that decide which identified values are written back.
//!
//! Reading and writing the tags themselves is the tag library's work; this
//! module decides what a preview lists and what a write changes.

use vstd::prelude::*;
use crate::enrichment::domain::IdentifiedTrack;
use crate::text::{
    clone_opt, decimal, i64_to_string, join_seq, join_with, opt_view, owned,
    signed_decimal, str_eq, strings_view, u64_to_string,
};

verus! {

/// Track metadata as read from a file's tags.
#[derive(Debug, Clone, PartialEq, Eq)]
pub struct TrackMetadata {
    pub title: String,
    pub artist: String,
    pub album: String,
    pub duration: u64,
    pub track_number: Option<u32>,
}

/// Comprehensive metadata - all fields an audio file can hold
#[derive(Debug, Clone)]
pub struct FullMetadata {
    pub title: Option<String>,
    pub artist: Option<String>,
    pub album: Option<String>,
    pub album_artist: Option<String>,
    pub year: Option<u32>,
    pub genre: Option<String>,
    pub track_number: Option<u32>,
    pub total_tracks: Option<u32>,
    pub disc_number: Option<u32>,
    pub total_discs: Option<u32>,
    pub composer: Option<String>,
    pub comment: Option<String>,
    pub lyrics: Option<String>,
    pub musicbrainz_recording_id: Option<String>,
    pub musicbrainz_artist_id: Option<String>,
    pub musicbrainz_release_id: Option<String>,
    pub musicbrainz_release_group_id: Option<String>,
    pub musicbrainz_track_id: Option<String>,
    pub duration_secs: u64,
    pub bitrate: Option<u32>,
    pub sample_rate: Option<u32>,
    pub channels: Option<u8>,
    pub bits_per_sample: Option<u8>,
    pub has_cover_art: bool,
    /// Width x height if known
    pub cover_art_size: Option<(u32, u32)>,
    pub format: String,
    pub file_size: u64,
}

/// Options for controlling what metadata gets written
#[derive(Debug, Clone)]
pub struct WriteOptions2 {
    /// Only write fields that are currently empty/unknown in the file
    pub only_fill_empty: bool,
    /// Write MusicBrainz IDs to tags
    pub write_musicbrainz_ids: bool,
}

impl Default for WriteOptions2 {
    fn default() -> (r: WriteOptions2)
        ensures
            !r.only_fill_empty,
            !r.write_musicbrainz_ids,
    {
        WriteOptions2 { only_fill_empty: false, write_musicbrainz_ids: false }
    }
}

/// Result of a write operation
#[derive(Debug, Clone)]
pub struct WriteResult {
    /// Number of fields that were updated
    pub fields_updated: usize,
    /// Fields that were skipped (already had values)
    pub fields_skipped: Vec<String>,
}

/// A preview of changes that would be made
#[derive(Debug, Clone)]
pub struct WritePreview {
    pub changes: Vec<FieldChange>,
}

/// A single field change
#[derive(Debug, Clone)]
pub struct FieldChange {
    pub field: String,
    pub current_value: String,
    pub new_value: String,
}

/// A field change as plain text: field, current value, new value.
pub open spec fn change_view(c: FieldChange) -> (Seq<char>, Seq<char>, Seq<char>) {
    (c.field@, c.current_value@, c.new_value@)
}

/// The change a preview lists for a field: one entry when the write plan
/// writes the field, none otherwise.
pub open spec fn preview_entry(
    field: Seq<char>,
    d: FieldDecision,
    current: Seq<char>,
    new: Seq<char>,
) -> Seq<(Seq<char>, Seq<char>, Seq<char>)> {
    if d == FieldDecision::Write {
        seq![(field, current, new)]
    } else {
        Seq::empty()
    }
}

/// A text tag as a preview shows it: its value, or the placeholder that
/// reading the file shows for a missing tag.
pub open spec fn shown_text(e: Option<String>, placeholder: Seq<char>) -> Seq<char> {
    match e {
        Some(s) => s@,
        None => placeholder,
    }
}

/// A number tag as a preview shows it: its digits, or nothing.
pub open spec fn shown_number(n: Option<u32>) -> Seq<char> {
    match n {
        Some(v) => decimal(v as nat),
        None => Seq::empty(),
    }
}

/// An optional new text value, empty when absent.
pub open spec fn new_text(v: Option<String>) -> Seq<char> {
    match v {
        Some(s) => s@,
        None => Seq::empty(),
    }
}

/// The changes a preview lists, in order: title, artist, album, track
/// number and year, each exactly when the write plan for the same tag and
/// options writes that field.
pub open spec fn preview_changes(
    e: ExistingTags,
    t: IdentifiedTrack,
    only_fill_empty: bool,
) -> Seq<(Seq<char>, Seq<char>, Seq<char>)> {
    let d = tag_decisions(e, t, only_fill_empty);
    preview_entry("title"@, d.title, shown_text(e.title, "Unknown Title"@), new_text(t.title))
    + preview_entry("artist"@, d.artist, shown_text(e.artist, "Unknown Artist"@), new_text(t.artist))
    + preview_entry("album"@, d.album, shown_text(e.album, "Unknown Album"@), new_text(t.album))
    + preview_entry(
        "track_number"@,
        d.track_number,
        shown_number(e.track),
        match t.track_number {
            Some(n) => decimal(n as nat),
            None => Seq::empty(),
        },
    )
    + preview_entry(
        "year"@,
        d.year,
        shown_number(e.year),
        match t.year {
            Some(y) => signed_decimal(y as int),
            None => Seq::empty(),
        },
    )
}

fn text_or(v: &Option<String>, placeholder: &str) -> (r: String)
    ensures
        r@ == shown_text(*v, placeholder@),
{
    match v {
        Some(s) => s.clone(),
        None => owned(placeholder),
    }
}

fn number_text(n: Option<u32>) -> (r: String)
    ensures
        r@ == shown_number(n),
{
    match n {
        Some(v) => u64_to_string(v as u64),
        None => String::new(),
    }
}

fn push_entry(changes: &mut Vec<FieldChange>, field: &str, d: FieldDecision, current: String, new: String)
    ensures
        final(changes)@.map_values(|c: FieldChange| change_view(c)) == old(changes)@.map_values(
            |c: FieldChange| change_view(c),
        ) + preview_entry(field@, d, current@, new@),
{
    if d == FieldDecision::Write {
        changes.push(FieldChange { field: owned(field), current_value: current, new_value: new });
    }
    assert(final(changes)@.map_values(|c: FieldChange| change_view(c)) =~= old(changes)@.map_values(
        |c: FieldChange| change_view(c),
    ) + preview_entry(field@, d, current@, new@));
}

fn new_text_of(v: &Option<String>) -> (r: String)
    ensures
        r@ == new_text(*v),
{
    match v {
        Some(s) => s.clone(),
        None => String::new(),
    }
}

/// Preview what changes writing an identification would make to a file
/// whose tag currently holds `existing`: the title, artist, album, track
/// number and year that the write plan for the same tag and options writes,
/// each with the value the file shows now and the value it would get.
pub fn preview_write(existing: &ExistingTags, track: &IdentifiedTrack, options: &WriteOptions2) -> (r: WritePreview)
    ensures
        r.changes@.map_values(|c: FieldChange| change_view(c)) == preview_changes(
            *existing,
            *track,
            options.only_fill_empty,
        ),
{
    let d = decide_fields(existing, track, options.only_fill_empty);
    let mut changes: Vec<FieldChange> = Vec::new();
    assert(changes@.map_values(|c: FieldChange| change_view(c)) =~= Seq::empty());
    push_entry(&mut changes, "title", d.title, text_or(&existing.title, "Unknown Title"), new_text_of(&track.title));
    push_entry(&mut changes, "artist", d.artist, text_or(&existing.artist, "Unknown Artist"), new_text_of(&track.artist));
    push_entry(&mut changes, "album", d.album, text_or(&existing.album, "Unknown Album"), new_text_of(&track.album));
    let new_track = match track.track_number {
        Some(n) => u64_to_string(n as u64),
        None => String::new(),
    };
    push_entry(&mut changes, "track_number", d.track_number, number_text(existing.track), new_track);
    let new_year = match track.year {
        Some(y) => i64_to_string(y as i64),
        None => String::new(),
    };
    push_entry(&mut changes, "year", d.year, number_text(existing.year), new_year);
    assert(changes@.map_values(|c: FieldChange| change_view(c)) =~= preview_changes(
        *existing,
        *track,
        options.only_fill_empty,
    ));
    WritePreview { changes }
}

/// What a file's tag holds before writing, for the fields writing may fill.
#[derive(Debug, Clone)]
pub struct ExistingTags {
    pub title: Option<String>,
    pub artist: Option<String>,
    pub album_artist: Option<String>,
    pub album: Option<String>,
    pub track: Option<u32>,
    pub track_total: Option<u32>,
    pub year: Option<u32>,
    pub disk: Option<u32>,
    pub disk_total: Option<u32>,
    pub genre: Option<String>,
}

/// What becomes of one field when an identification is written.
#[derive(Debug, Clone, Copy, PartialEq, Eq, Structural)]
pub enum FieldDecision {
    /// The identification has no value for it
    Absent,
    /// The value is written
    Write,
    /// The value is withheld because the file already has one
    Skip,
}

/// The decision for a field with or without a new value.
pub open spec fn fill_decision(has_value: bool, may_write: bool) -> FieldDecision {
    if !has_value {
        FieldDecision::Absent
    } else if may_write {
        FieldDecision::Write
    } else {
        FieldDecision::Skip
    }
}

/// Whether an existing text tag holds a real value: present, non-empty and
/// none of the placeholders "Unknown Title", "Unknown Artist", "Unknown Album".
pub open spec fn holds_real_text(e: Option<Seq<char>>) -> bool {
    e matches Some(s) && s.len() > 0 && s != "Unknown Title"@ && s != "Unknown Artist"@ && s
        != "Unknown Album"@
}

/// The decisions for the fields written from an identification.
pub ghost struct TagDecisions {
    pub title: FieldDecision,
    pub artist: FieldDecision,
    pub album_artist: FieldDecision,
    pub album: FieldDecision,
    pub track_number: FieldDecision,
    pub total_tracks: FieldDecision,
    pub year: FieldDecision,
    pub disc_number: FieldDecision,
    pub total_discs: FieldDecision,
    pub genre: FieldDecision,
}

/// The decisions for writing identification `t` over a tag holding `e`:
/// text fields are withheld over a real value, the others over any value,
/// and only when filling empty fields alone.
#[verifier::opaque]
pub open spec fn tag_decisions(e: ExistingTags, t: IdentifiedTrack, only_fill: bool) -> TagDecisions {
    TagDecisions {
        title: fill_decision(t.title is Some, !only_fill || !holds_real_text(opt_view(e.title))),
        artist: fill_decision(t.artist is Some, !only_fill || !holds_real_text(opt_view(e.artist))),
        album_artist: fill_decision(t.album_artist is Some, !only_fill || e.album_artist is None),
        album: fill_decision(t.album is Some, !only_fill || !holds_real_text(opt_view(e.album))),
        track_number: fill_decision(t.track_number is Some, !only_fill || e.track is None),
        total_tracks: fill_decision(t.total_tracks is Some, !only_fill || e.track_total is None),
        year: fill_decision(t.year is Some, !only_fill || e.year is None),
        disc_number: fill_decision(t.disc_number is Some, !only_fill || e.disk is None),
        total_discs: fill_decision(t.total_discs is Some, !only_fill || e.disk_total is None),
        genre: fill_decision(t.genres@.len() > 0, !only_fill || e.genre is None),
    }
}

/// The name a skipped field is reported under; nothing otherwise.
pub open spec fn skip_entry(name: Seq<char>, d: FieldDecision) -> Seq<Seq<char>> {
    if d == FieldDecision::Skip {
        seq![name]
    } else {
        Seq::empty()
    }
}

/// One for a written field, else zero.
pub open spec fn write_entry(d: FieldDecision) -> nat {
    if d == FieldDecision::Write {
        1
    } else {
        0
    }
}

/// The names of the skipped fields, in the order the fields are handled.
#[verifier::opaque]
pub open spec fn skipped_names(d: TagDecisions) -> Seq<Seq<char>> {
    skip_entry("title"@, d.title) + skip_entry("artist"@, d.artist) + skip_entry(
        "album_artist"@,
        d.album_artist,
    ) + skip_entry("album"@, d.album) + skip_entry("track_number"@, d.track_number) + skip_entry(
        "total_tracks"@,
        d.total_tracks,
    ) + skip_entry("year"@, d.year) + skip_entry("disc_number"@, d.disc_number) + skip_entry(
        "total_discs"@,
        d.total_discs,
    ) + skip_entry("genre"@, d.genre)
}

/// How many of the fields are written.
#[verifier::opaque]
pub open spec fn written_count(d: TagDecisions) -> nat {
    write_entry(d.title) + write_entry(d.artist) + write_entry(d.album_artist) + write_entry(d.album)
        + write_entry(d.track_number) + write_entry(d.total_tracks) + write_entry(d.year)
        + write_entry(d.disc_number) + write_entry(d.total_discs) + write_entry(d.genre)
}

/// How many MusicBrainz identifiers are written.
pub open spec fn id_count(t: IdentifiedTrack, write_ids: bool) -> nat {
    if write_ids {
        (if t.recording_id is Some { 1nat } else { 0nat }) + (if t.artist_id is Some { 1nat } else { 0nat })
            + (if t.release_id is Some { 1nat } else { 0nat }) + (if t.release_group_id is Some {
            1nat
        } else {
            0nat
        })
    } else {
        0
    }
}

/// The tag values to set when writing an identification, and the report of
/// the write. A field left `None` is not touched.
#[derive(Debug, Clone)]
pub struct TagWritePlan {
    pub title: Option<String>,
    pub artist: Option<String>,
    pub album_artist: Option<String>,
    pub album: Option<String>,
    pub track_number: Option<u32>,
    pub total_tracks: Option<u32>,
    pub year: Option<u32>,
    pub disc_number: Option<u32>,
    pub total_discs: Option<u32>,
    /// The genres joined with "; "
    pub genre: Option<String>,
    pub recording_id: Option<String>,
    pub artist_id: Option<String>,
    pub release_id: Option<String>,
    pub release_group_id: Option<String>,
    pub result: WriteResult,
}

/// `v` when the decision is to write, else nothing.
pub open spec fn when_written<T>(d: FieldDecision, v: Option<T>) -> Option<T> {
    if d == FieldDecision::Write {
        v
    } else {
        None
    }
}

/// The year as the tag stores it (`i32` to `u32` by `as`).
pub open spec fn tag_year(y: Option<i32>) -> Option<u32> {
    match y {
        Some(v) => Some(v as u32),
        None => None,
    }
}

/// Whether a plan carries out the decisions for writing `t` over `e`.
pub open spec fn plan_matches(p: TagWritePlan, e: ExistingTags, t: IdentifiedTrack, o: WriteOptions2) -> bool {
    let d = tag_decisions(e, t, o.only_fill_empty);
    &&& p.title == when_written(d.title, t.title)
    &&& p.artist == when_written(d.artist, t.artist)
    &&& p.album_artist == when_written(d.album_artist, t.album_artist)
    &&& p.album == when_written(d.album, t.album)
    &&& p.track_number == when_written(d.track_number, t.track_number)
    &&& p.total_tracks == when_written(d.total_tracks, t.total_tracks)
    &&& p.year == when_written(d.year, tag_year(t.year))
    &&& p.disc_number == when_written(d.disc_number, t.disc_number)
    &&& p.total_discs == when_written(d.total_discs, t.total_discs)
    &&& opt_view(p.genre) == when_written(d.genre, Some(join_seq(strings_view(t.genres@), "; "@)))
    &&& p.recording_id == (if o.write_musicbrainz_ids { t.recording_id } else { None })
    &&& p.artist_id == (if o.write_musicbrainz_ids { t.artist_id } else { None })
    &&& p.release_id == (if o.write_musicbrainz_ids { t.release_id } else { None })
    &&& p.release_group_id == (if o.write_musicbrainz_ids { t.release_group_id } else { None })
    &&& p.result.fields_updated == written_count(d) + id_count(t, o.write_musicbrainz_ids)
    &&& strings_view(p.result.fields_skipped@) == skipped_names(d)
}

fn holds_real(e: &Option<String>) -> (r: bool)
    ensures
        r == holds_real_text(opt_view(*e)),
{
    match e {
        Some(s) => s.unicode_len() > 0 && !str_eq(s.as_str(), "Unknown Title") && !str_eq(
            s.as_str(),
            "Unknown Artist",
        ) && !str_eq(s.as_str(), "Unknown Album"),
        None => false,
    }
}

fn fill(has_value: bool, may_write: bool) -> (d: FieldDecision)
    ensures
        d == fill_decision(has_value, may_write),
{
    if !has_value {
        FieldDecision::Absent
    } else if may_write {
        FieldDecision::Write
    } else {
        FieldDecision::Skip
    }
}

fn with_skip(v: Vec<String>, name: &str, d: FieldDecision) -> (r: Vec<String>)
    ensures
        strings_view(r@) == strings_view(v@) + skip_entry(name@, d),
{
    let mut r = v;
    if d == FieldDecision::Skip {
        r.push(owned(name));
        assert(strings_view(r@) =~= strings_view(v@) + seq![name@]);
    } else {
        assert(strings_view(r@) =~= strings_view(v@) + Seq::<Seq<char>>::empty());
    }
    r
}

fn write_one(d: FieldDecision) -> (r: usize)
    ensures
        r == write_entry(d),
{
    if d == FieldDecision::Write { 1 } else { 0 }
}

fn year_as_tag(y: Option<i32>) -> (r: Option<u32>)
    ensures
        r == tag_year(y),
{
    match y {
        Some(v) => Some(#[verifier::truncate] (v as u32)),
        None => None,
    }
}

fn count_ids(t: &IdentifiedTrack, write_ids: bool) -> (r: usize)
    ensures
        r == id_count(*t, write_ids),
        r <= 4,
{
    if !write_ids {
        return 0;
    }
    let mut n: usize = 0;
    if t.recording_id.is_some() {
        n = n + 1;
    }
    if t.artist_id.is_some() {
        n = n + 1;
    }
    if t.release_id.is_some() {
        n = n + 1;
    }
    if t.release_group_id.is_some() {
        n = n + 1;
    }
    n
}

/// The decisions, as computed.
struct Decided {
    title: FieldDecision,
    artist: FieldDecision,
    album_artist: FieldDecision,
    album: FieldDecision,
    track_number: FieldDecision,
    total_tracks: FieldDecision,
    year: FieldDecision,
    disc_number: FieldDecision,
    total_discs: FieldDecision,
    genre: FieldDecision,
}

spec fn decided_view(d: Decided) -> TagDecisions {
    TagDecisions {
        title: d.title,
        artist: d.artist,
        album_artist: d.album_artist,
        album: d.album,
        track_number: d.track_number,
        total_tracks: d.total_tracks,
        year: d.year,
        disc_number: d.disc_number,
        total_discs: d.total_discs,
        genre: d.genre,
    }
}

fn decide_fields(existing: &ExistingTags, track: &IdentifiedTrack, only: bool) -> (d: Decided)
    ensures
        decided_view(d) == tag_decisions(*existing, *track, only),
{
    reveal(tag_decisions);
    Decided {
        title: fill(track.title.is_some(), !only || !holds_real(&existing.title)),
        artist: fill(track.artist.is_some(), !only || !holds_real(&existing.artist)),
        album_artist: fill(track.album_artist.is_some(), !only || existing.album_artist.is_none()),
        album: fill(track.album.is_some(), !only || !holds_real(&existing.album)),
        track_number: fill(track.track_number.is_some(), !only || existing.track.is_none()),
        total_tracks: fill(track.total_tracks.is_some(), !only || existing.track_total.is_none()),
        year: fill(track.year.is_some(), !only || existing.year.is_none()),
        disc_number: fill(track.disc_number.is_some(), !only || existing.disk.is_none()),
        total_discs: fill(track.total_discs.is_some(), !only || existing.disk_total.is_none()),
        genre: fill(track.genres.len() > 0, !only || existing.genre.is_none()),
    }
}

fn skipped_fields(d: &Decided) -> (v: Vec<String>)
    ensures
        strings_view(v@) == skipped_names(decided_view(*d)),
{
    reveal(skipped_names);
    let v: Vec<String> = Vec::new();
    assert(strings_view(v@) =~= Seq::<Seq<char>>::empty());
    let v = with_skip(v, "title", d.title);
    let v = with_skip(v, "artist", d.artist);
    let v = with_skip(v, "album_artist", d.album_artist);
    let v = with_skip(v, "album", d.album);
    let v = with_skip(v, "track_number", d.track_number);
    let v = with_skip(v, "total_tracks", d.total_tracks);
    let v = with_skip(v, "year", d.year);
    let v = with_skip(v, "disc_number", d.disc_number);
    let v = with_skip(v, "total_discs", d.total_discs);
    let v = with_skip(v, "genre", d.genre);
    assert(strings_view(v@) =~= skipped_names(decided_view(*d)));
    v
}

fn written_fields(d: &Decided) -> (n: usize)
    ensures
        n == written_count(decided_view(*d)),
        n <= 10,
{
    reveal(written_count);
    write_one(d.title) + write_one(d.artist) + write_one(d.album_artist) + write_one(d.album)
        + write_one(d.track_number) + write_one(d.total_tracks) + write_one(d.year) + write_one(
        d.disc_number,
    ) + write_one(d.total_discs) + write_one(d.genre)
}

/// Decide which tag values to set when writing an identification over a
/// tag that currently holds `existing`, and report what the write does.
pub fn plan_tag_write(existing: &ExistingTags, track: &IdentifiedTrack, options: &WriteOptions2) -> (p: TagWritePlan)
    ensures
        plan_matches(p, *existing, *track, *options),
{
    let d = decide_fields(existing, track, options.only_fill_empty);
    let ghost td = tag_decisions(*existing, *track, options.only_fill_empty);
    let skipped = skipped_fields(&d);
    let updated = written_fields(&d);
    let write_ids = options.write_musicbrainz_ids;
    let ids = count_ids(track, write_ids);
    let title = if d.title == FieldDecision::Write { clone_opt(&track.title) } else { None };
    assert(title == when_written(td.title, track.title));
    let artist = if d.artist == FieldDecision::Write { clone_opt(&track.artist) } else { None };
    assert(artist == when_written(td.artist, track.artist));
    let album_artist = if d.album_artist == FieldDecision::Write { clone_opt(&track.album_artist) } else { None };
    assert(album_artist == when_written(td.album_artist, track.album_artist));
    let album = if d.album == FieldDecision::Write { clone_opt(&track.album) } else { None };
    assert(album == when_written(td.album, track.album));
    let genre = if d.genre == FieldDecision::Write { Some(join_with(track.genres.as_slice(), "; ")) } else { None };
    assert(opt_view(genre) == when_written(td.genre, Some(join_seq(strings_view(track.genres@), "; "@))));
    let year = if d.year == FieldDecision::Write { year_as_tag(track.year) } else { None };
    let recording_id = if write_ids { clone_opt(&track.recording_id) } else { None };
    let artist_id = if write_ids { clone_opt(&track.artist_id) } else { None };
    let release_id = if write_ids { clone_opt(&track.release_id) } else { None };
    let release_group_id = if write_ids { clone_opt(&track.release_group_id) } else { None };
    TagWritePlan {
        title,
        artist,
        album_artist,
        album,
        track_number: if d.track_number == FieldDecision::Write { track.track_number } else { None },
        total_tracks: if d.total_tracks == FieldDecision::Write { track.total_tracks } else { None },
        year,
        disc_number: if d.disc_number == FieldDecision::Write { track.disc_number } else { None },
        total_discs: if d.total_discs == FieldDecision::Write { track.total_discs } else { None },
        genre,
        recording_id,
        artist_id,
        release_id,
        release_group_id,
        result: WriteResult { fields_updated: updated + ids, fields_skipped: skipped },
    }
}

/// The image format named by a MIME type when embedding cover art.
#[derive(Debug, Clone, Copy, PartialEq, Eq, Structural)]
pub enum CoverMime {
    Png,
    Gif,
    Bmp,
    Tiff,
    Jpeg,
}

/// The image format of a MIME type; anything unrecognized is JPEG.
pub open spec fn cover_mime_of(m: Seq<char>) -> CoverMime {
    if m == "image/png"@ {
        CoverMime::Png
    } else if m == "image/gif"@ {
        CoverMime::Gif
    } else if m == "image/bmp"@ {
        CoverMime::Bmp
    } else if m == "image/tiff"@ {
        CoverMime::Tiff
    } else {
        CoverMime::Jpeg
    }
}

/// Determines the image format to embed cover art as.
pub fn cover_mime(mime_type: &str) -> (r: CoverMime)
    ensures
        r == cover_mime_of(mime_type@),
{
    if str_eq(mime_type, "image/png") {
        CoverMime::Png
    } else if str_eq(mime_type, "image/gif") {
        CoverMime::Gif
    } else if str_eq(mime_type, "image/bmp") {
        CoverMime::Bmp
    } else if str_eq(mime_type, "image/tiff") {
        CoverMime::Tiff
    } else {
        CoverMime::Jpeg
    }
}

/// Law: when fields are not limited to empty ones, writing skips nothing
/// and writes every field the identification has a value for.
pub proof fn overwriting_skips_nothing(e: ExistingTags, t: IdentifiedTrack)
    ensures
        skipped_names(tag_decisions(e, t, false)).len() == 0,
        t.title is Some ==> tag_decisions(e, t, false).title == FieldDecision::Write,
        t.artist is Some ==> tag_decisions(e, t, false).artist == FieldDecision::Write,
        t.album_artist is Some ==> tag_decisions(e, t, false).album_artist == FieldDecision::Write,
        t.album is Some ==> tag_decisions(e, t, false).album == FieldDecision::Write,
        t.track_number is Some ==> tag_decisions(e, t, false).track_number == FieldDecision::Write,
        t.total_tracks is Some ==> tag_decisions(e, t, false).total_tracks == FieldDecision::Write,
        t.year is Some ==> tag_decisions(e, t, false).year == FieldDecision::Write,
        t.disc_number is Some ==> tag_decisions(e, t, false).disc_number == FieldDecision::Write,
        t.total_discs is Some ==> tag_decisions(e, t, false).total_discs == FieldDecision::Write,
        t.genres@.len() > 0 ==> tag_decisions(e, t, false).genre == FieldDecision::Write,
{
    reveal(tag_decisions);
    reveal(skipped_names);
}

/// Law: a field the tag leaves empty is always written when the
/// identification has a value for it, whether or not writing is limited to
/// empty fields.
pub proof fn empty_fields_are_filled(e: ExistingTags, t: IdentifiedTrack, only_fill: bool)
    ensures
        e.title is None && t.title is Some ==> tag_decisions(e, t, only_fill).title == FieldDecision::Write,
        e.artist is None && t.artist is Some ==> tag_decisions(e, t, only_fill).artist == FieldDecision::Write,
        e.album is None && t.album is Some ==> tag_decisions(e, t, only_fill).album == FieldDecision::Write,
        e.track is None && t.track_number is Some ==> tag_decisions(e, t, only_fill).track_number
            == FieldDecision::Write,
        e.year is None && t.year is Some ==> tag_decisions(e, t, only_fill).year == FieldDecision::Write,
        e.genre is None && t.genres@.len() > 0 ==> tag_decisions(e, t, only_fill).genre == FieldDecision::Write,
{
    reveal(tag_decisions);
}


/// A field name when the field is set, nothing otherwise.
pub open spec fn name_if(set: bool, name: Seq<char>) -> Seq<Seq<char>> {
    if set {
        seq![name]
    } else {
        Seq::empty()
    }
}

/// Law: the preview lists exactly the fields, among title, artist, album,
/// track number and year, that the write plan for the same tag and options
/// sets, in that order.
pub proof fn preview_lists_what_write_sets(e: ExistingTags, t: IdentifiedTrack, o: WriteOptions2, p: TagWritePlan)
    requires
        plan_matches(p, e, t, o),
    ensures
        preview_changes(e, t, o.only_fill_empty).map_values(
            |c: (Seq<char>, Seq<char>, Seq<char>)| c.0,
        ) == name_if(p.title is Some, "title"@) + name_if(p.artist is Some, "artist"@) + name_if(
            p.album is Some,
            "album"@,
        ) + name_if(p.track_number is Some, "track_number"@) + name_if(p.year is Some, "year"@),
{
    reveal(tag_decisions);
    let pc = preview_changes(e, t, o.only_fill_empty);
    let names = name_if(p.title is Some, "title"@) + name_if(p.artist is Some, "artist"@) + name_if(
        p.album is Some,
        "album"@,
    ) + name_if(p.track_number is Some, "track_number"@) + name_if(p.year is Some, "year"@);
    assert(pc.map_values(|c: (Seq<char>, Seq<char>, Seq<char>)| c.0) =~= names);
}

}

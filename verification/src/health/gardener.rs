//! The quality gardener's settings and commands, and the assessment it
//! makes of each library track.
//!
//! The background worker's loop runs outside the library; each of its
//! decisions is made here.

use vstd::prelude::*;
use std::time::Duration;
use crate::db::{QualityStats, TrackWithMetadata};
use crate::health::quality::{
    assess_quality, assessed_flags, assessed_score, MatchConfidence, QualityInput, TrackQuality,
};
use crate::paths::{file_stem, path_file_stem};
use crate::text::{opt_view, str_eq};
use crate::time::{duration_from_millis, duration_from_secs, millis_duration, secs_duration};

verus! {

/// Configuration for the quality gardener.
#[derive(Debug, Clone)]
pub struct GardenerConfig {
    /// How often to check for work (default: 30 seconds)
    pub check_interval: Duration,
    /// How many tracks to process per batch (default: 10)
    pub batch_size: u32,
    /// Delay between processing individual tracks (default: 100ms)
    pub track_delay: Duration,
    /// Whether to run fingerprinting (requires fpcalc, uses network)
    pub enable_fingerprinting: bool,
}

impl Default for GardenerConfig {
    fn default() -> (r: GardenerConfig)
        ensures
            r.check_interval == secs_duration(30),
            r.batch_size == 10,
            r.track_delay == millis_duration(100),
            !r.enable_fingerprinting,
    {
        GardenerConfig {
            check_interval: duration_from_secs(30),
            batch_size: 10,
            track_delay: duration_from_millis(100),
            enable_fingerprinting: false,
        }
    }
}

/// Commands that can be sent to the gardener.
#[derive(Debug)]
pub enum GardenerCommand {
    /// Process a specific track immediately
    ProcessTrack(i64),
    /// Process a batch of tracks
    ProcessBatch(Vec<i64>),
    /// Pause processing
    Pause,
    /// Resume processing
    Resume,
    /// Stop the gardener
    Stop,
}

/// The name a placeholder stands for: none for the placeholder itself.
pub open spec fn unless_placeholder(name: Seq<char>, placeholder: Seq<char>) -> Option<Seq<char>> {
    if name == placeholder {
        None
    } else {
        Some(name)
    }
}

/// The assessment inputs of a library track: its title, its names unless
/// they are the "Unknown" placeholders, its year and number, the stem of
/// its file name, and no identification yet.
pub open spec fn track_quality_input(t: TrackWithMetadata) -> QualityInput {
    QualityInput {
        title: t.title@,
        artist: unless_placeholder(t.artist_name@, "Unknown Artist"@),
        album: unless_placeholder(t.album_name@, "Unknown Album"@),
        has_year: t.year is Some,
        has_track_num: t.track_number is Some,
        filename: match path_file_stem(t.path@) {
            Some(s) => s,
            None => Seq::<char>::empty(),
        },
        has_musicbrainz_id: false,
        confidence: MatchConfidence::Unchecked,
    }
}

/// Assess quality for a single track immediately.
pub fn assess_track_quality(track: &TrackWithMetadata) -> (q: TrackQuality)
    ensures
        q.flags@ == assessed_flags(track_quality_input(*track)),
        q.score as int == assessed_score(track_quality_input(*track)),
        q.confidence == MatchConfidence::Unchecked,
        q.musicbrainz_id is None,
{
    let stem = file_stem(track.path.as_str());
    let filename: &str = match &stem {
        Some(s) => s.as_str(),
        None => "",
    };
    let artist = if str_eq(track.artist_name.as_str(), "Unknown Artist") {
        None
    } else {
        Some(track.artist_name.as_str())
    };
    let album = if str_eq(track.album_name.as_str(), "Unknown Album") {
        None
    } else {
        Some(track.album_name.as_str())
    };
    proof {
        reveal_strlit("");
        assert(""@ =~= Seq::<char>::empty());
    }
    let ghost qi = track_quality_input(*track);
    assert(filename@ == qi.filename);
    assert(crate::health::quality::opt_str_view(artist) == qi.artist);
    assert(crate::health::quality::opt_str_view(album) == qi.album);
    assess_quality(
        track.title.as_str(),
        artist,
        album,
        track.year,
        track.track_number,
        filename,
        None,
        MatchConfidence::Unchecked,
    )
}


/// Events emitted by the gardener.
#[derive(Debug, Clone)]
pub enum GardenerEvent {
    /// A track's quality was assessed
    TrackAssessed { track_id: i64, quality: TrackQuality },
    /// A batch was completed
    BatchComplete { processed: usize, remaining: usize },
    /// Statistics updated
    StatsUpdated(QualityStats),
    /// Gardener paused
    Paused,
    /// Gardener resumed
    Resumed,
    /// Gardener stopped
    Stopped,
}

/// What wakes the gardener: a command, or the periodic timer.
#[derive(Debug)]
pub enum GardenerInput {
    Command(GardenerCommand),
    Tick,
}

/// What the gardener does next.
#[derive(Debug)]
pub enum GardenerAction {
    /// Assess one track now
    ProcessTrack(i64),
    /// Assess these tracks, pausing between them
    ProcessBatch(Vec<i64>),
    /// Assess the next batch of tracks that were never checked
    ProcessPending,
    /// Report an event
    Notify(GardenerEvent),
    /// Report that it stopped, and stop
    Stop,
    /// Nothing to do
    Idle,
}

/// Whether the gardener is paused after an input.
pub open spec fn paused_after(paused: bool, input: GardenerInput) -> bool {
    match input {
        GardenerInput::Command(GardenerCommand::Pause) => true,
        GardenerInput::Command(GardenerCommand::Resume) => false,
        _ => paused,
    }
}

/// One step of the gardener: the pause state after an input and what to
/// do. Commands are obeyed while paused; only the periodic check waits.
pub fn gardener_step(paused: bool, input: GardenerInput) -> (r: (bool, GardenerAction))
    ensures
        r.0 == paused_after(paused, input),
        match input {
            GardenerInput::Command(GardenerCommand::ProcessTrack(id)) => r.1 matches GardenerAction::ProcessTrack(
                x,
            ) && x == id,
            GardenerInput::Command(GardenerCommand::ProcessBatch(ids)) => r.1 matches GardenerAction::ProcessBatch(
                xs,
            ) && xs@ == ids@,
            GardenerInput::Command(GardenerCommand::Pause) => r.1 matches GardenerAction::Notify(
                GardenerEvent::Paused,
            ),
            GardenerInput::Command(GardenerCommand::Resume) => r.1 matches GardenerAction::Notify(
                GardenerEvent::Resumed,
            ),
            GardenerInput::Command(GardenerCommand::Stop) => r.1 is Stop,
            GardenerInput::Tick => if paused {
                r.1 is Idle
            } else {
                r.1 is ProcessPending
            },
        },
{
    match input {
        GardenerInput::Command(GardenerCommand::ProcessTrack(id)) => (paused, GardenerAction::ProcessTrack(id)),
        GardenerInput::Command(GardenerCommand::ProcessBatch(ids)) => (paused, GardenerAction::ProcessBatch(ids)),
        GardenerInput::Command(GardenerCommand::Pause) => (true, GardenerAction::Notify(GardenerEvent::Paused)),
        GardenerInput::Command(GardenerCommand::Resume) => (false, GardenerAction::Notify(GardenerEvent::Resumed)),
        GardenerInput::Command(GardenerCommand::Stop) => (paused, GardenerAction::Stop),
        GardenerInput::Tick => if paused {
            (paused, GardenerAction::Idle)
        } else {
            (paused, GardenerAction::ProcessPending)
        },
    }
}

/// Law: a paused gardener does no periodic work until it is resumed.
pub proof fn paused_gardener_stays_idle(paused: bool)
    ensures
        paused_after(true, GardenerInput::Tick) == true,
        paused_after(paused, GardenerInput::Command(GardenerCommand::Pause)) == true,
        paused_after(paused, GardenerInput::Command(GardenerCommand::Resume)) == false,
{
}

}

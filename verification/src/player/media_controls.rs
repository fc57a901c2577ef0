//! OS media controls: the metadata shown in the system overlay, the
//! playback state reported to it, and the commands its buttons send.
//!
//! The platform service itself runs on a thread of its own, outside the library;
//! the mapping between its events and the player's commands is here.

use vstd::prelude::*;
use std::path::PathBuf;
use std::time::Duration;
use crate::text::{concat, owned, replace_all, replace_str};

verus! {

/// Direction of a relative seek.
#[derive(Debug, Clone, Copy, PartialEq, Eq, Structural)]
pub enum SeekDirection {
    Forward,
    Backward,
}

/// Commands that can be received from OS media controls.
#[derive(Debug, Clone)]
pub enum MediaControlCommand {
    /// Play or resume playback
    Play,
    /// Pause playback
    Pause,
    /// Toggle play/pause
    Toggle,
    /// Stop playback
    Stop,
    /// Skip to next track
    Next,
    /// Skip to previous track
    Previous,
    /// Seek to absolute position
    Seek(Duration),
    /// Seek relative (forward/backward by small amount)
    SeekRelative(SeekDirection),
}

/// An event the platform's media controls deliver.
#[derive(Debug, Clone)]
pub enum ControlEvent {
    Play,
    Pause,
    Toggle,
    Stop,
    Next,
    Previous,
    /// Seek a small step in a direction
    Seek(SeekDirection),
    /// Seek by an amount in a direction
    SeekBy(SeekDirection, Duration),
    /// Jump to a position
    SetPosition(Duration),
    /// Change the volume
    SetVolume,
    /// Open a URI
    OpenUri,
    /// Bring the window forward
    Raise,
    /// Quit the application
    Quit,
}

/// The player command an event asks for, if any: seeks by an amount are
/// taken as relative seeks; volume, URIs, raising and quitting are not the
/// player's to handle.
pub open spec fn command_of(e: ControlEvent) -> Option<MediaControlCommand> {
    match e {
        ControlEvent::Play => Some(MediaControlCommand::Play),
        ControlEvent::Pause => Some(MediaControlCommand::Pause),
        ControlEvent::Toggle => Some(MediaControlCommand::Toggle),
        ControlEvent::Stop => Some(MediaControlCommand::Stop),
        ControlEvent::Next => Some(MediaControlCommand::Next),
        ControlEvent::Previous => Some(MediaControlCommand::Previous),
        ControlEvent::Seek(d) => Some(MediaControlCommand::SeekRelative(d)),
        ControlEvent::SeekBy(d, _) => Some(MediaControlCommand::SeekRelative(d)),
        ControlEvent::SetPosition(p) => Some(MediaControlCommand::Seek(p)),
        _ => None,
    }
}

/// Translates a media control event into a player command.
pub fn command_for_event(event: ControlEvent) -> (r: Option<MediaControlCommand>)
    ensures
        r == command_of(event),
{
    match event {
        ControlEvent::Play => Some(MediaControlCommand::Play),
        ControlEvent::Pause => Some(MediaControlCommand::Pause),
        ControlEvent::Toggle => Some(MediaControlCommand::Toggle),
        ControlEvent::Stop => Some(MediaControlCommand::Stop),
        ControlEvent::Next => Some(MediaControlCommand::Next),
        ControlEvent::Previous => Some(MediaControlCommand::Previous),
        ControlEvent::Seek(d) => Some(MediaControlCommand::SeekRelative(d)),
        ControlEvent::SeekBy(d, _) => Some(MediaControlCommand::SeekRelative(d)),
        ControlEvent::SetPosition(p) => Some(MediaControlCommand::Seek(p)),
        _ => None,
    }
}

/// The address of a cover image file as the system overlay takes it:
/// `file://` and the path with backslashes turned into slashes.
pub open spec fn cover_url_text(path: Seq<char>) -> Seq<char> {
    "file://"@ + replace_all(path, seq!['\\'], seq!['/'])
}

/// Builds the address of a cover image file.
pub fn cover_url(path: &str) -> (r: String)
    ensures
        r@ == cover_url_text(path@),
{
    proof {
        reveal_strlit("\\");
        reveal_strlit("/");
        assert("\\"@ =~= seq!['\\']);
        assert("/"@ =~= seq!['/']);
    }
    let p = replace_str(path, "\\", "/");
    concat("file://", p.as_str())
}

/// Metadata to display in OS media controls.
#[derive(Debug, Clone)]
pub struct MediaControlsMetadata {
    /// Track title
    pub title: Option<String>,
    /// Artist name
    pub artist: Option<String>,
    /// Album name
    pub album: Option<String>,
    /// Track duration
    pub duration: Option<Duration>,
    /// Path to cover art image (for system overlay)
    pub cover_path: Option<PathBuf>,
}

impl Default for MediaControlsMetadata {
    fn default() -> (r: MediaControlsMetadata)
        ensures
            r.title is None,
            r.artist is None,
            r.album is None,
            r.duration is None,
            r.cover_path is None,
    {
        MediaControlsMetadata { title: None, artist: None, album: None, duration: None, cover_path: None }
    }
}

impl MediaControlsMetadata {
    /// Create metadata with just a title.
    pub fn with_title(title: &str) -> (r: MediaControlsMetadata)
        ensures
            crate::text::opt_view(r.title) == Some(title@),
            r.artist is None,
            r.album is None,
            r.duration is None,
            r.cover_path is None,
    {
        MediaControlsMetadata { title: Some(owned(title)), artist: None, album: None, duration: None, cover_path: None }
    }

    /// Set the artist.
    pub fn artist(self, artist: &str) -> (r: MediaControlsMetadata)
        ensures
            crate::text::opt_view(r.artist) == Some(artist@),
            r.title == self.title,
            r.album == self.album,
            r.duration == self.duration,
            r.cover_path == self.cover_path,
    {
        MediaControlsMetadata { artist: Some(owned(artist)), ..self }
    }

    /// Set the album.
    pub fn album(self, album: &str) -> (r: MediaControlsMetadata)
        ensures
            crate::text::opt_view(r.album) == Some(album@),
            r.title == self.title,
            r.artist == self.artist,
            r.duration == self.duration,
            r.cover_path == self.cover_path,
    {
        MediaControlsMetadata { album: Some(owned(album)), ..self }
    }

    /// Set the duration.
    pub fn duration(self, duration: Duration) -> (r: MediaControlsMetadata)
        ensures
            r.duration == Some(duration),
            r.title == self.title,
            r.artist == self.artist,
            r.album == self.album,
            r.cover_path == self.cover_path,
    {
        MediaControlsMetadata { duration: Some(duration), ..self }
    }

    /// Set the cover art path.
    pub fn cover(self, path: PathBuf) -> (r: MediaControlsMetadata)
        ensures
            r.cover_path == Some(path),
            r.title == self.title,
            r.artist == self.artist,
            r.album == self.album,
            r.duration == self.duration,
    {
        MediaControlsMetadata { cover_path: Some(path), ..self }
    }
}

/// Updates that can be sent to the media controls.
#[derive(Debug, Clone)]
pub enum MediaControlsUpdate {
    /// Update the metadata displayed
    Metadata(MediaControlsMetadata),
    /// Update the playback state
    PlaybackState(MediaPlaybackState),
    /// Update the current position
    Position(Duration),
    /// Shutdown the media controls
    Shutdown,
}

/// Playback state for media controls.
#[derive(Debug, Clone, Copy, PartialEq, Eq, Structural)]
pub enum MediaPlaybackState {
    Playing,
    Paused,
    Stopped,
}

/// Whether the controls' thread keeps running after an update: every
/// update but a shutdown keeps it running.
pub fn keeps_running(update: &MediaControlsUpdate) -> (r: bool)
    ensures
        r == !(update is Shutdown),
{
    match update {
        MediaControlsUpdate::Shutdown => false,
        _ => true,
    }
}

}

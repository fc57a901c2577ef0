//! Playback control: what the player asks of the audio thread, and how the
//! audio thread answers each request.
//!
//! The audio thread alternates outside work (opening a file, decoding a
//! chunk, waiting on its command channel) with decisions. The decisions are
//! made here, from the thread's state and what happened to the next state
//! and the action to carry out; the thread itself performs the actions.

use vstd::prelude::*;
use crate::player::queue::{
    backward_gives_none, backward_view, current_of, forward_gives_none, forward_reshuffles,
    forward_view, is_shuffle_order, PlayQueue, QueueItem, QueueView,
};
use crate::player::state::PlaybackStatus;

verus! {

/// A request to the audio thread. A seek carries its target fraction of the
/// track beside the request, with the caller.
#[derive(Debug, Clone, PartialEq, Eq)]
pub enum EngineCommand {
    /// Load a new file (played on the next `Play`)
    Load(String),
    /// Start or resume playback
    Play,
    /// Pause playback
    Pause,
    /// Stop playback
    Stop,
    /// Seek to a position
    Seek,
    /// Shut the audio thread down
    Shutdown,
}

/// The request that toggling play/pause sends in a status: pause while
/// playing, play while paused or stopped, nothing while loading.
pub open spec fn toggle_request(status: PlaybackStatus) -> Option<EngineCommand> {
    match status {
        PlaybackStatus::Playing => Some(EngineCommand::Pause),
        PlaybackStatus::Paused | PlaybackStatus::Stopped => Some(EngineCommand::Play),
        PlaybackStatus::Loading => None,
    }
}

/// Toggle play/pause: the request to send, if any.
pub fn toggle_command(status: PlaybackStatus) -> (r: Option<EngineCommand>)
    ensures
        r == toggle_request(status),
{
    match status {
        PlaybackStatus::Playing => Some(EngineCommand::Pause),
        PlaybackStatus::Paused | PlaybackStatus::Stopped => Some(EngineCommand::Play),
        PlaybackStatus::Loading => None,
    }
}

/// What playing the current queue item does in a status.
#[derive(Debug, Clone, Copy, PartialEq, Eq, Structural)]
pub enum PlayCurrentAction {
    /// Paused: resume playback
    Resume,
    /// Already playing: nothing to do
    KeepPlaying,
    /// Stopped or loading: load the current queue item and play it
    LoadCurrent,
}

/// Play the current track: resume when paused, nothing when playing,
/// otherwise load the current queue item.
pub fn play_current_action(status: PlaybackStatus) -> (r: PlayCurrentAction)
    ensures
        r == (match status {
            PlaybackStatus::Paused => PlayCurrentAction::Resume,
            PlaybackStatus::Playing => PlayCurrentAction::KeepPlaying,
            _ => PlayCurrentAction::LoadCurrent,
        }),
{
    match status {
        PlaybackStatus::Paused => PlayCurrentAction::Resume,
        PlaybackStatus::Playing => PlayCurrentAction::KeepPlaying,
        _ => PlayCurrentAction::LoadCurrent,
    }
}

/// The requests that load and play a queue's current item: its path, then
/// play; none when the queue has no current item.
pub open spec fn load_requests(v: QueueView) -> Seq<EngineCommand> {
    match current_of(v) {
        Some(item) => seq![EngineCommand::Load(item.path), EngineCommand::Play],
        None => Seq::empty(),
    }
}

/// The requests that load and play the current queue item. This is the one
/// place where playback of a queue item starts.
pub fn load_current_commands(queue: &PlayQueue) -> (r: Vec<EngineCommand>)
    ensures
        r@ == load_requests(queue@),
{
    let mut out: Vec<EngineCommand> = Vec::new();
    match queue.current() {
        Some(item) => {
            out.push(EngineCommand::Load(item.path.clone()));
            out.push(EngineCommand::Play);
            assert(out@ =~= seq![EngineCommand::Load(item.path), EngineCommand::Play]);
        },
        None => {
            assert(out@ =~= Seq::<EngineCommand>::empty());
        },
    }
    out
}

/// Play a file at once: the queue then holds that file alone, as its
/// current item, and the requests load and play it.
pub fn play_file(queue: &mut PlayQueue, path: String) -> (r: Vec<EngineCommand>)
    requires
        old(queue).wf(),
    ensures
        final(queue).wf(),
        final(queue)@.items.len() == 1,
        final(queue)@.items[0].path == path,
        final(queue)@.items[0].info is None,
        final(queue)@.position == 0,
        final(queue)@.shuffle == old(queue)@.shuffle,
        final(queue)@.repeat == old(queue)@.repeat,
        r@ == seq![EngineCommand::Load(path), EngineCommand::Play],
{
    queue.clear();
    queue.add(QueueItem::from_path(path));
    let _ = queue.jump_to(0);
    load_current_commands(queue)
}

/// Skip to the next track: the queue steps forward (at the end of a
/// repeat-all shuffle it draws a new order and starts it), and the requests
/// load and play the new current item; none when the queue gives no next
/// item.
pub fn skip_forward(queue: &mut PlayQueue) -> (r: Vec<EngineCommand>)
    requires
        old(queue).wf(),
    ensures
        final(queue).wf(),
        !forward_reshuffles(old(queue)@) ==> final(queue)@ == forward_view(old(queue)@),
        forward_reshuffles(old(queue)@) ==> {
            let o = old(queue)@;
            let f = final(queue)@;
            &&& is_shuffle_order(f.order, o.items.len() as int, o.position)
            &&& f.shuffle_position == 0
            &&& f.position == f.order[0] as int
            &&& f.items == o.items
            &&& f.shuffle == o.shuffle
            &&& f.repeat == o.repeat
        },
        r@ == (if forward_gives_none(old(queue)@) {
            Seq::empty()
        } else {
            load_requests(final(queue)@)
        }),
{
    let moved = queue.skip_forward().is_some();
    if moved {
        load_current_commands(queue)
    } else {
        Vec::new()
    }
}

/// How far into a track "previous" restarts the track rather than going
/// back: three seconds, in nanoseconds.
pub const RESTART_THRESHOLD_NANOS: u128 = 3_000_000_000;

/// What going to the previous track does.
#[derive(Debug, Clone, PartialEq, Eq)]
pub enum PreviousAction {
    /// Seek the current track back to its start
    RestartTrack,
    /// Send these requests, which load and play the previous item
    Commands(Vec<EngineCommand>),
}

/// Go to the previous track: more than three seconds into a track, restart
/// it and leave the queue as it is; otherwise step the queue back and play
/// the item it gives, or restart the current track where it gives none (at
/// the start of the queue).
pub fn previous(queue: &mut PlayQueue, position_nanos: u128) -> (r: PreviousAction)
    requires
        old(queue).wf(),
    ensures
        final(queue).wf(),
        position_nanos > RESTART_THRESHOLD_NANOS ==> final(queue)@ == old(queue)@ && r is RestartTrack,
        position_nanos <= RESTART_THRESHOLD_NANOS ==> {
            &&& final(queue)@ == backward_view(old(queue)@)
            &&& if backward_gives_none(old(queue)@) || current_of(final(queue)@) is None {
                r is RestartTrack
            } else {
                r matches PreviousAction::Commands(c) && c@ == load_requests(final(queue)@)
            }
        },
{
    if position_nanos > RESTART_THRESHOLD_NANOS {
        PreviousAction::RestartTrack
    } else {
        let back = queue.previous().is_some();
        if back {
            PreviousAction::Commands(load_current_commands(queue))
        } else {
            PreviousAction::RestartTrack
        }
    }
}

/// What the audio thread knows between two steps: the status it reports,
/// the file waiting to be played, and whether a track is open for decoding.
#[derive(Debug, Clone, PartialEq, Eq)]
pub struct EngineState {
    /// The playback status the thread reports
    pub status: PlaybackStatus,
    /// The file loaded by the last `Load`, not yet played
    pub pending: Option<String>,
    /// Whether a decoder is open
    pub has_decoder: bool,
}

/// What the audio thread does after a decision.
#[derive(Debug, Clone, PartialEq, Eq)]
pub enum EngineAction {
    /// Keep the loaded path for the next `Play`; nothing else happens
    Queued,
    /// Start flushing the output, open the file at the path and, as that
    /// succeeds or fails, report it with `engine_opened`
    OpenAndPlay(String),
    /// Set the playing flag and announce `Playing`
    Resume,
    /// No track is loaded: clear the playing flag and announce `Stopped`
    RefusePlay,
    /// Clear the playing flag and announce `Paused`
    Pause,
    /// Drop the decoder and resampler, clear the playing flag and announce
    /// `Stopped`
    Stop,
    /// Move the position to the target, reset the sample counter and the
    /// resampler, and seek the decoder (announcing an error if that fails)
    SeekDecoder,
    /// No decoder: the seek is ignored
    IgnoreSeek,
    /// End the thread
    Exit,
}

/// The audio thread's answer to a request: its next state and action.
pub open spec fn command_outcome(s: EngineState, cmd: EngineCommand) -> (EngineState, EngineAction) {
    match cmd {
        EngineCommand::Load(p) => (EngineState { pending: Some(p), ..s }, EngineAction::Queued),
        EngineCommand::Play => match s.pending {
            Some(p) => (EngineState { pending: None, ..s }, EngineAction::OpenAndPlay(p)),
            None => if s.has_decoder {
                (EngineState { status: PlaybackStatus::Playing, ..s }, EngineAction::Resume)
            } else {
                (EngineState { status: PlaybackStatus::Stopped, ..s }, EngineAction::RefusePlay)
            },
        },
        EngineCommand::Pause => (EngineState { status: PlaybackStatus::Paused, ..s }, EngineAction::Pause),
        EngineCommand::Stop => (
            EngineState { status: PlaybackStatus::Stopped, has_decoder: false, ..s },
            EngineAction::Stop,
        ),
        EngineCommand::Seek => if s.has_decoder {
            (s, EngineAction::SeekDecoder)
        } else {
            (s, EngineAction::IgnoreSeek)
        },
        EngineCommand::Shutdown => (s, EngineAction::Exit),
    }
}

/// Handle a request on the audio thread.
pub fn engine_command(s: EngineState, cmd: EngineCommand) -> (r: (EngineState, EngineAction))
    ensures
        r == command_outcome(s, cmd),
{
    match cmd {
        EngineCommand::Load(p) => (EngineState { pending: Some(p), ..s }, EngineAction::Queued),
        EngineCommand::Play => match s.pending {
            Some(p) => (EngineState { pending: None, ..s }, EngineAction::OpenAndPlay(p)),
            None => if s.has_decoder {
                (EngineState { status: PlaybackStatus::Playing, ..s }, EngineAction::Resume)
            } else {
                (EngineState { status: PlaybackStatus::Stopped, ..s }, EngineAction::RefusePlay)
            },
        },
        EngineCommand::Pause => (EngineState { status: PlaybackStatus::Paused, ..s }, EngineAction::Pause),
        EngineCommand::Stop => (
            EngineState { status: PlaybackStatus::Stopped, has_decoder: false, ..s },
            EngineAction::Stop,
        ),
        EngineCommand::Seek => if s.has_decoder {
            (s, EngineAction::SeekDecoder)
        } else {
            (s, EngineAction::IgnoreSeek)
        },
        EngineCommand::Shutdown => (s, EngineAction::Exit),
    }
}

/// Whether the thread keeps running after an action: all but `Exit`.
pub open spec fn keeps_running_after(a: EngineAction) -> bool {
    !(a is Exit)
}

/// The state after opening a file: playing with a decoder when it opened;
/// stopped otherwise, the earlier decoder (if any) kept.
pub open spec fn opened_state(s: EngineState, opened: bool) -> EngineState {
    if opened {
        EngineState { status: PlaybackStatus::Playing, has_decoder: true, ..s }
    } else {
        EngineState { status: PlaybackStatus::Stopped, ..s }
    }
}

/// Record how opening a file went. When it opened, the thread then sets the
/// playing flag, ends the flush, zeroes the position and announces the track
/// and `Playing`; when it failed, it clears the playing flag, ends the flush
/// and announces the error and `Stopped`.
pub fn engine_opened(s: EngineState, opened: bool) -> (r: EngineState)
    ensures
        r == opened_state(s, opened),
{
    if opened {
        EngineState { status: PlaybackStatus::Playing, has_decoder: true, ..s }
    } else {
        EngineState { status: PlaybackStatus::Stopped, ..s }
    }
}

/// How decoding the next chunk went.
#[derive(Debug, Clone, Copy, PartialEq, Eq, Structural)]
pub enum DecodeOutcome {
    /// A chunk was decoded and sent on
    Chunk,
    /// The track ended
    EndOfTrack,
    /// Decoding failed
    Failed,
}

/// The state after a decoding step: unchanged after a chunk; stopped with no
/// decoder at the end of the track or after a failure.
pub open spec fn decoded_state(s: EngineState, outcome: DecodeOutcome) -> EngineState {
    match outcome {
        DecodeOutcome::Chunk => s,
        _ => EngineState { status: PlaybackStatus::Stopped, has_decoder: false, ..s },
    }
}

/// Record how a decoding step went. At the end of a track the thread flushes
/// the resampler, drops the decoder and announces that playback finished and
/// `Stopped`; after a failure it drops the decoder and announces the error
/// and `Stopped`.
pub fn engine_decoded(s: EngineState, outcome: DecodeOutcome) -> (r: EngineState)
    ensures
        r == decoded_state(s, outcome),
{
    match outcome {
        DecodeOutcome::Chunk => s,
        _ => EngineState { status: PlaybackStatus::Stopped, has_decoder: false, ..s },
    }
}

/// Whether the thread waits for the next request rather than decoding: it
/// waits while stopped or paused.
pub fn waits_for_command(status: PlaybackStatus) -> (r: bool)
    ensures
        r == (status == PlaybackStatus::Stopped || status == PlaybackStatus::Paused),
{
    match status {
        PlaybackStatus::Stopped | PlaybackStatus::Paused => true,
        _ => false,
    }
}

/// Whether the thread decodes in a status: only while playing.
pub fn decodes_in(status: PlaybackStatus) -> (r: bool)
    ensures
        r == (status == PlaybackStatus::Playing),
{
    match status {
        PlaybackStatus::Playing => true,
        _ => false,
    }
}

/// Law: toggling twice with a track open and nothing pending returns to the
/// status it started from, playing or paused.
pub proof fn toggle_twice_restores_status(s: EngineState)
    requires
        s.has_decoder,
        s.pending is None,
        s.status == PlaybackStatus::Playing || s.status == PlaybackStatus::Paused,
    ensures
        ({
            let first = command_outcome(s, toggle_request(s.status)->Some_0).0;
            let second = command_outcome(first, toggle_request(first.status)->Some_0).0;
            second.status == s.status && second.has_decoder && second.pending is None
        }),
{
}

/// Law: a file loaded and then played is the file the thread opens.
pub proof fn load_then_play_opens_that_file(s: EngineState, path: String)
    ensures
        ({
            let loaded = command_outcome(s, EngineCommand::Load(path)).0;
            let (after, action) = command_outcome(loaded, EngineCommand::Play);
            action == EngineAction::OpenAndPlay(path) && after.pending is None
        }),
{
}

/// Law: after a stop, playing with nothing loaded is refused and leaves the
/// thread stopped.
pub proof fn play_after_stop_is_refused(s: EngineState)
    requires
        s.pending is None,
    ensures
        ({
            let stopped = command_outcome(s, EngineCommand::Stop).0;
            let (after, action) = command_outcome(stopped, EngineCommand::Play);
            action is RefusePlay && after.status == PlaybackStatus::Stopped && !after.has_decoder
        }),
{
}

/// Law: only a shutdown request ends the audio thread.
pub proof fn only_shutdown_exits(s: EngineState, cmd: EngineCommand)
    ensures
        keeps_running_after(command_outcome(s, cmd).1) <==> !(cmd is Shutdown),
{
}

/// Law: the audio thread never reports `Loading`: no request, opening or
/// decoding step leads from another status to it.
pub proof fn engine_never_reports_loading(s: EngineState, cmd: EngineCommand, opened: bool, outcome: DecodeOutcome)
    requires
        s.status != PlaybackStatus::Loading,
    ensures
        command_outcome(s, cmd).0.status != PlaybackStatus::Loading,
        opened_state(s, opened).status != PlaybackStatus::Loading,
        decoded_state(s, outcome).status != PlaybackStatus::Loading,
{
}

} // verus!

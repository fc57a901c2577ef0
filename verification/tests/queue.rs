use music_minder::player::queue::{order_current_first, PlayQueue, QueueItem, RepeatMode};
use music_minder::player::state::TrackInfo;
use std::collections::HashSet;
use music_minder::player::control::{
    engine_command, engine_decoded, engine_opened, load_current_commands, play_current_action, play_file, previous,
    skip_forward, toggle_command, decodes_in, waits_for_command, DecodeOutcome, EngineAction, EngineCommand,
    EngineState, PlayCurrentAction, PreviousAction,
};
use music_minder::player::state::PlaybackStatus;

fn make_item(name: &str) -> QueueItem {
    QueueItem::from_path(name.to_string())
}

fn three() -> PlayQueue {
    let mut queue = PlayQueue::new();
    queue.add(make_item("a.mp3"));
    queue.add(make_item("b.mp3"));
    queue.add(make_item("c.mp3"));
    queue
}

#[test]
fn test_queue_repeat_all() {
    let mut queue = PlayQueue::new();
    queue.set_repeat(RepeatMode::All);
    queue.add(make_item("a.mp3"));
    queue.add(make_item("b.mp3"));

    queue.skip_forward(); // a
    queue.skip_forward(); // b
    assert_eq!(queue.skip_forward().unwrap().path, "a.mp3"); // wraps
}

#[test]
fn test_queue_repeat_one() {
    let mut queue = PlayQueue::new();
    queue.set_repeat(RepeatMode::One);
    queue.add(make_item("a.mp3"));
    queue.add(make_item("b.mp3"));

    queue.skip_forward(); // a
    assert_eq!(queue.skip_forward().unwrap().path, "a.mp3"); // stays
}

#[test]
fn test_queue_add_next() {
    let mut queue = PlayQueue::new();
    queue.add(make_item("a.mp3"));
    queue.add(make_item("c.mp3"));
    queue.skip_forward(); // Start playing a

    queue.add_next(make_item("b.mp3"));

    assert_eq!(queue.items()[0].path, "a.mp3");
    assert_eq!(queue.items()[1].path, "b.mp3");
    assert_eq!(queue.items()[2].path, "c.mp3");
}

#[test]
fn test_shuffle_visits_all_tracks() {
    let mut queue = PlayQueue::new();
    for i in 0..10 {
        queue.add(make_item(&format!("{}.mp3", i)));
    }
    queue.set_shuffle(true);

    let mut visited = HashSet::new();
    for _ in 0..10 {
        let item = queue.skip_forward();
        if let Some(item) = item {
            visited.insert(item.path.clone());
        }
    }

    assert_eq!(visited.len(), 10);
}

#[test]
fn test_shuffle_keeps_current_first() {
    let mut queue = three();

    queue.skip_forward(); // a
    queue.skip_forward(); // b
    assert_eq!(queue.current_index(), Some(1));

    queue.set_shuffle(true);
    assert_eq!(queue.current_index(), Some(1));
    assert_eq!(queue.shuffle_order()[0], 1);
}

#[test]
fn test_shuffle_previous_works() {
    let mut queue = three();
    queue.set_shuffle(true);

    let first = queue.skip_forward().unwrap().path.clone();
    let second = queue.skip_forward().unwrap().path.clone();

    let back = queue.previous().unwrap().path.clone();
    assert_eq!(back, first);

    let again = queue.skip_forward().unwrap().path.clone();
    assert_eq!(again, second);
}

#[test]
fn test_shuffle_disable_clears_order() {
    let mut queue = PlayQueue::new();
    queue.add(make_item("a.mp3"));
    queue.add(make_item("b.mp3"));
    queue.set_shuffle(true);
    assert!(!queue.shuffle_order().is_empty());

    queue.set_shuffle(false);
    assert!(queue.shuffle_order().is_empty());
    assert!(!queue.shuffle());
}

#[test]
fn test_shuffle_with_repeat_all() {
    let mut queue = PlayQueue::new();
    queue.add(make_item("a.mp3"));
    queue.add(make_item("b.mp3"));
    queue.set_shuffle(true);
    queue.set_repeat(RepeatMode::All);

    queue.skip_forward();
    queue.skip_forward();

    let third = queue.skip_forward();
    assert!(third.is_some());
}

#[test]
fn test_jump_to_updates_shuffle_position() {
    let mut queue = three();
    queue.set_shuffle(true);
    queue.skip_forward();

    queue.jump_to(2);
    assert_eq!(queue.current_index(), Some(2));

    let shuffle_pos = queue.shuffle_position() as usize;
    assert_eq!(queue.shuffle_order()[shuffle_pos], 2);
}

#[test]
fn test_move_up() {
    let mut queue = three();

    let new_idx = queue.move_up(1);
    assert_eq!(new_idx, Some(0));
    assert_eq!(queue.items()[0].path, "b.mp3");
    assert_eq!(queue.items()[1].path, "a.mp3");

    assert_eq!(queue.move_up(0), None);
}

#[test]
fn test_move_down() {
    let mut queue = three();

    let new_idx = queue.move_down(0);
    assert_eq!(new_idx, Some(1));
    assert_eq!(queue.items()[0].path, "b.mp3");
    assert_eq!(queue.items()[1].path, "a.mp3");

    assert_eq!(queue.move_down(2), None);
}

#[test]
fn test_move_preserves_current_playing() {
    let mut queue = three();
    queue.skip_forward();
    queue.skip_forward();
    assert_eq!(queue.current_index(), Some(1));

    queue.move_up(1);
    assert_eq!(queue.current_index(), Some(0));
    assert_eq!(queue.current().unwrap().path, "b.mp3");
}

#[test]
fn test_move_in_shuffle_mode() {
    let mut queue = three();
    queue.set_shuffle(true);

    let orig_first = queue.shuffle_order()[0];
    let orig_second = queue.shuffle_order()[1];

    let new_idx = queue.move_up(1);
    assert_eq!(new_idx, Some(0));

    assert_eq!(queue.shuffle_order()[0], orig_second);
    assert_eq!(queue.shuffle_order()[1], orig_first);

    assert_eq!(queue.items()[0].path, "a.mp3");
    assert_eq!(queue.items()[1].path, "b.mp3");
    assert_eq!(queue.items()[2].path, "c.mp3");
}

#[test]
fn test_queue_operations() {
    let mut queue = PlayQueue::new();
    assert!(queue.is_empty());

    queue.add(QueueItem::from_path("test.mp3".to_string()));
    assert_eq!(queue.len(), 1);

    queue.clear();
    assert!(queue.is_empty());
}

#[test]
fn queue_walks_forward_and_stops_at_the_end() {
    let mut queue = three();
    assert!(queue.current().is_none());
    assert_eq!(queue.skip_forward().unwrap().path, "a.mp3");
    assert_eq!(queue.current_index(), Some(0));
    assert_eq!(queue.skip_forward().unwrap().path, "b.mp3");
    assert_eq!(queue.skip_forward().unwrap().path, "c.mp3");
    assert!(queue.skip_forward().is_none());
    assert_eq!(queue.current_index(), Some(2));
    assert_eq!(queue.remaining_count(), 0);
}

#[test]
fn previous_goes_back_one_track() {
    let mut queue = three();
    queue.skip_forward();
    queue.skip_forward();
    assert_eq!(queue.previous().unwrap().path, "a.mp3");
    assert_eq!(queue.current_index(), Some(0));
}

#[test]
fn remove_before_current_shifts_current_back() {
    let mut queue = three();
    queue.skip_forward();
    queue.skip_forward();
    queue.skip_forward();
    let removed = queue.remove(0).unwrap();
    assert_eq!(removed.path, "a.mp3");
    assert_eq!(queue.current_index(), Some(1));
    assert_eq!(queue.current().unwrap().path, "c.mp3");
    assert!(queue.remove(5).is_none());
}

#[test]
fn reorder_moves_an_item_and_back() {
    let mut queue = three();
    queue.reorder(0, 2);
    assert_eq!(queue.items()[0].path, "b.mp3");
    assert_eq!(queue.items()[2].path, "a.mp3");
    queue.reorder(2, 0);
    assert_eq!(queue.items()[0].path, "a.mp3");
    assert_eq!(queue.items()[1].path, "b.mp3");
    assert_eq!(queue.items()[2].path, "c.mp3");
}

#[test]
fn cycle_repeat_returns_after_three_steps() {
    let mut queue = PlayQueue::new();
    assert_eq!(queue.repeat(), RepeatMode::Off);
    queue.cycle_repeat();
    assert_eq!(queue.repeat(), RepeatMode::All);
    queue.cycle_repeat();
    assert_eq!(queue.repeat(), RepeatMode::One);
    queue.cycle_repeat();
    assert_eq!(queue.repeat(), RepeatMode::Off);
}

#[test]
fn display_title_prefers_tag_title_then_file_stem() {
    let plain = QueueItem::from_path("/music/song.mp3".to_string());
    assert_eq!(plain.display_title(), "song");
    let info = TrackInfo {
        title: Some("Real Title".to_string()),
        artist: None,
        album: None,
        track_number: None,
        year: None,
        genre: None,
    };
    let tagged = QueueItem::with_info("/music/song.mp3".to_string(), info);
    assert_eq!(tagged.display_title(), "Real Title");
}

fn load(path: &str) -> EngineCommand {
    EngineCommand::Load(path.to_string())
}

#[test]
fn toggle_and_play_current_follow_status() {
    assert_eq!(toggle_command(PlaybackStatus::Playing), Some(EngineCommand::Pause));
    assert_eq!(toggle_command(PlaybackStatus::Paused), Some(EngineCommand::Play));
    assert_eq!(toggle_command(PlaybackStatus::Stopped), Some(EngineCommand::Play));
    assert_eq!(toggle_command(PlaybackStatus::Loading), None);
    assert_eq!(play_current_action(PlaybackStatus::Paused), PlayCurrentAction::Resume);
    assert_eq!(play_current_action(PlaybackStatus::Playing), PlayCurrentAction::KeepPlaying);
    assert_eq!(play_current_action(PlaybackStatus::Stopped), PlayCurrentAction::LoadCurrent);
    assert_eq!(play_current_action(PlaybackStatus::Loading), PlayCurrentAction::LoadCurrent);
}

#[test]
fn playing_a_file_replaces_the_queue() {
    let mut queue = three();
    let cmds = play_file(&mut queue, "new.flac".to_string());
    assert_eq!(cmds, vec![load("new.flac"), EngineCommand::Play]);
    assert_eq!(queue.len(), 1);
    assert_eq!(queue.current_index(), Some(0));
    assert!(load_current_commands(&PlayQueue::new()).is_empty());
}

#[test]
fn skipping_and_going_back_send_load_and_play() {
    let mut queue = three();
    assert_eq!(skip_forward(&mut queue), vec![load("a.mp3"), EngineCommand::Play]);
    assert_eq!(skip_forward(&mut queue), vec![load("b.mp3"), EngineCommand::Play]);
    // Ten seconds in: restart, queue unchanged.
    assert_eq!(previous(&mut queue, 10_000_000_000), PreviousAction::RestartTrack);
    assert_eq!(queue.current_index(), Some(1));
    // Exactly three seconds in: go back.
    assert_eq!(previous(&mut queue, 3_000_000_000), PreviousAction::Commands(vec![load("a.mp3"), EngineCommand::Play]));
    // At the start of the queue: restart.
    assert_eq!(previous(&mut queue, 0), PreviousAction::RestartTrack);
    skip_forward(&mut queue);
    skip_forward(&mut queue);
    assert!(skip_forward(&mut queue).is_empty());
}

#[test]
fn audio_thread_answers_requests() {
    let idle = EngineState { status: PlaybackStatus::Stopped, pending: None, has_decoder: false };
    let (s, a) = engine_command(idle.clone(), EngineCommand::Play);
    assert_eq!(a, EngineAction::RefusePlay);
    assert_eq!(s.status, PlaybackStatus::Stopped);
    let (s, a) = engine_command(s, load("x.mp3"));
    assert_eq!(a, EngineAction::Queued);
    assert_eq!(s.pending, Some("x.mp3".to_string()));
    let (s, a) = engine_command(s, EngineCommand::Play);
    assert_eq!(a, EngineAction::OpenAndPlay("x.mp3".to_string()));
    assert_eq!(s.pending, None);
    let failed = engine_opened(s.clone(), false);
    assert_eq!(failed.status, PlaybackStatus::Stopped);
    assert!(!failed.has_decoder);
    let s = engine_opened(s, true);
    assert_eq!(s, EngineState { status: PlaybackStatus::Playing, pending: None, has_decoder: true });
    assert!(decodes_in(s.status));
    assert!(!waits_for_command(s.status));
    let (s, a) = engine_command(s, EngineCommand::Pause);
    assert_eq!(a, EngineAction::Pause);
    assert!(waits_for_command(s.status));
    let (s, a) = engine_command(s, EngineCommand::Play);
    assert_eq!(a, EngineAction::Resume);
    assert_eq!(s.status, PlaybackStatus::Playing);
    assert_eq!(engine_command(s.clone(), EngineCommand::Seek).1, EngineAction::SeekDecoder);
    assert_eq!(engine_decoded(s.clone(), DecodeOutcome::Chunk), s);
    let ended = engine_decoded(s.clone(), DecodeOutcome::EndOfTrack);
    assert_eq!(ended.status, PlaybackStatus::Stopped);
    assert!(!ended.has_decoder);
    assert_eq!(engine_command(ended, EngineCommand::Seek).1, EngineAction::IgnoreSeek);
    let (stopped, a) = engine_command(s, EngineCommand::Stop);
    assert_eq!(a, EngineAction::Stop);
    assert!(!stopped.has_decoder);
    assert_eq!(engine_command(stopped, EngineCommand::Shutdown).1, EngineAction::Exit);
}

#[test]
fn update_info_fills_one_item() {
    let mut queue = three();
    let info = TrackInfo {
        title: Some("B side".to_string()),
        artist: Some("Band".to_string()),
        album: None,
        track_number: Some(2),
        year: None,
        genre: None,
    };
    assert_eq!(info.display_artist(), "Band");
    assert_eq!(info.display_album(), "Unknown Album");
    queue.update_info(1, info);
    assert_eq!(queue.items()[1].display_title(), "B side");
    assert!(queue.items()[0].info.is_none());
    queue.update_info(9, TrackInfo { title: None, artist: None, album: None, track_number: None, year: None, genre: None });
    assert_eq!(queue.len(), 3);
}

#[test]
fn current_track_moves_to_the_front_of_a_drawn_order() {
    assert_eq!(order_current_first(vec![3, 0, 2, 1], 2), vec![2, 3, 0, 1]);
    assert_eq!(order_current_first(vec![3, 0, 2, 1], 3), vec![3, 0, 2, 1]);
    assert_eq!(order_current_first(vec![3, 0, 2, 1], -1), vec![3, 0, 2, 1]);
    assert_eq!(order_current_first(vec![1, 0], 5), vec![1, 0]);
}
